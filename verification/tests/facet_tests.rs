use modrinth_apitool::api::format_facets;
use modrinth_apitool::error::ApiError;
use modrinth_apitool::mc_info::MCVersion;

#[test]
fn facets_render_as_bracketed_groups() {
    let facets = vec![
        vec![("versions".to_string(), "1.20.1".to_string())],
        vec![("categories".to_string(), "fabric".to_string())],
    ];
    assert_eq!(
        format_facets(&facets),
        "[[\"versions:1.20.1\"],[\"categories:fabric\"]]"
    );
}

#[test]
fn facets_within_a_group_are_comma_separated() {
    let facets = vec![vec![
        ("versions".to_string(), "1.20.1".to_string()),
        ("versions".to_string(), "1.20.4".to_string()),
    ]];
    assert_eq!(
        format_facets(&facets),
        "[[\"versions:1.20.1\",\"versions:1.20.4\"]]"
    );
}

#[test]
fn no_facets_render_as_empty_brackets() {
    let facets: Vec<Vec<(String, String)>> = vec![];
    assert_eq!(format_facets(&facets), "[]");
}

#[test]
fn error_messages_name_the_kind() {
    assert_eq!(ApiError::not_found().message(), "NotFound");
    assert_eq!(ApiError::invalid_loader().message(), "InvalidLoader");
    assert_eq!(ApiError::invalid_version().message(), "InvalidVersion");
    assert_eq!(ApiError::invalid_data().message(), "InvalidData");
    assert_eq!(ApiError::transport_failure().message(), "TransportFailure");
}

#[test]
fn facet_values_can_come_from_versions() {
    let (v, _) = MCVersion::parse("1.20.1");
    let facets = vec![vec![("versions".to_string(), v.to_version_string())]];
    assert_eq!(format_facets(&facets), "[[\"versions:1.20.1\"]]");
}
