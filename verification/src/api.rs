//! The records the registry client hands to the core — releases, projects,
//! files, dependencies — and the selection of a release that satisfies a
//! version descriptor.

use vstd::prelude::*;

use crate::error::{ApiError, ApiErrorKind};
use crate::mc_info::{descriptor_satisfied, MCVersion, MVDescriptor, LOADER, VT};
use crate::text::{str_eq, views_of};

verus! {

/// One file of a release; the first file of a release is the one that is
/// downloaded, and `sha512` is the hex digest the download is checked
/// against.
#[derive(Clone, Debug)]
pub struct ApiFile {
    pub url: String,
    pub sha512: String,
    pub filename: String,
    pub size: u64,
}

/// A dependency declared by a release: the project it points at and the
/// kind of dependency (only `"required"` dependencies are resolved).
#[derive(Clone, Debug)]
pub struct Dependency {
    pub project_id: String,
    pub dependency_type: String,
}

impl PartialEq for Dependency {
    fn eq(&self, other: &Self) -> (r: bool) {
        str_eq(self.project_id.as_str(), other.project_id.as_str()) && str_eq(
            self.dependency_type.as_str(),
            other.dependency_type.as_str(),
        )
    }
}

impl vstd::std_specs::cmp::PartialEqSpecImpl for Dependency {
    open spec fn obeys_eq_spec() -> bool {
        true
    }

    open spec fn eq_spec(&self, other: &Dependency) -> bool {
        self.project_id@ == other.project_id@ && self.dependency_type@ == other.dependency_type@
    }
}

/// A specific release of a project, as the registry reports it.
#[derive(Clone, Debug)]
pub struct Version {
    pub game_versions: Vec<MCVersion>,
    pub loaders: Vec<LOADER>,
    pub name: String,
    pub version_number: String,
    pub downloads: u32,
    pub version_type: VT,
    pub files: Vec<ApiFile>,
    pub dependencies: Vec<Dependency>,
}

/// The license of a project.
#[derive(Clone, Debug)]
pub struct License {
    pub id: String,
    pub name: String,
    pub url: Option<String>,
}

/// A project of the registry: a mod, modpack, resource pack or shader.
#[derive(Clone, Debug)]
pub struct Project {
    pub slug: String,
    pub project_type: String,
    pub team: String,
    pub title: String,
    pub description: String,
    pub published: String,
    pub updated: String,
    pub license: License,
    pub downloads: u32,
    pub game_versions: Vec<MCVersion>,
    pub categories: Vec<String>,
    pub loaders: Vec<LOADER>,
    pub source_url: Option<String>,
}

/// A member of a project's team.
#[derive(Clone, Debug)]
pub struct Member {
    pub role: String,
    pub team_id: String,
    pub user: User,
}

/// A user of the registry.
#[derive(Clone, Debug)]
pub struct User {
    pub username: String,
}

/// The project ids of the `"required"` dependencies of a sequence of
/// declared dependencies, in order.
pub open spec fn required_ids(deps: Seq<Dependency>) -> Seq<Seq<char>>
    decreases deps.len(),
{
    if deps.len() == 0 {
        Seq::empty()
    } else {
        required_ids(deps.drop_last()) + (if deps.last().dependency_type@ == "required"@ {
            seq![deps.last().project_id@]
        } else {
            Seq::<Seq<char>>::empty()
        })
    }
}

/// Collects the project ids of the release's `"required"` dependencies, in
/// the order they are declared.
pub fn required_dep_ids(version: &Version) -> (ids: Vec<String>)
    ensures
        views_of(ids@) == required_ids(version.dependencies@),
{
    let deps = &version.dependencies;
    let mut ids: Vec<String> = Vec::new();
    let mut i: usize = 0;
    while i < deps.len()
        invariant
            i <= deps@.len(),
            views_of(ids@) =~= required_ids(deps@.take(i as int)),
        decreases deps@.len() - i,
    {
        let ghost prefix = deps@.take(i as int);
        if str_eq(deps[i].dependency_type.as_str(), "required") {
            let id = deps[i].project_id.clone();
            ids.push(id);
        }
        i = i + 1;
        proof {
            let now = deps@.take(i as int);
            assert(now.drop_last() =~= prefix);
            assert(now.last() == deps@[i - 1]);
            assert(views_of(ids@) =~= required_ids(now));
        }
    }
    proof {
        assert(deps@.take(deps@.len() as int) =~= deps@);
    }
    ids
}

/// One search facet, rendered as `"key:value"`, quotes included.
pub open spec fn pair_rep(p: (String, String)) -> Seq<char> {
    "\""@ + p.0@ + ":"@ + p.1@ + "\""@
}

/// A facet group: its facets, separated by commas.
pub open spec fn pairs_rep(g: Seq<(String, String)>) -> Seq<char>
    decreases g.len(),
{
    if g.len() == 0 {
        Seq::empty()
    } else if g.len() == 1 {
        pair_rep(g[0])
    } else {
        pairs_rep(g.drop_last()) + ","@ + pair_rep(g.last())
    }
}

/// A facet group in brackets.
pub open spec fn group_rep(g: Vec<(String, String)>) -> Seq<char> {
    "["@ + pairs_rep(g@) + "]"@
}

/// The facet groups, separated by commas.
pub open spec fn groups_rep(fs: Seq<Vec<(String, String)>>) -> Seq<char>
    decreases fs.len(),
{
    if fs.len() == 0 {
        Seq::empty()
    } else if fs.len() == 1 {
        group_rep(fs[0])
    } else {
        groups_rep(fs.drop_last()) + ","@ + group_rep(fs.last())
    }
}

/// The facet parameter of a search query: the bracketed list of facet
/// groups, disjunctions within a group, conjunction across groups.
pub open spec fn facets_rep(fs: Seq<Vec<(String, String)>>) -> Seq<char> {
    "["@ + groups_rep(fs) + "]"@
}

/// Renders one facet group.
fn format_group(g: &Vec<(String, String)>) -> (out: String)
    ensures
        out@ == group_rep(*g),
{
    let mut out = String::new();
    out.append("[");
    let mut i: usize = 0;
    while i < g.len()
        invariant
            i <= g@.len(),
            out@ =~= "["@ + pairs_rep(g@.take(i as int)),
        decreases g@.len() - i,
    {
        let ghost prefix = g@.take(i as int);
        if i > 0 {
            out.append(",");
        }
        out.append("\"");
        out.append(g[i].0.as_str());
        out.append(":");
        out.append(g[i].1.as_str());
        out.append("\"");
        i = i + 1;
        proof {
            let now = g@.take(i as int);
            assert(now.drop_last() =~= prefix);
            assert(now.last() == g@[i - 1]);
            assert(out@ =~= "["@ + pairs_rep(now));
        }
    }
    proof {
        assert(g@.take(g@.len() as int) =~= g@);
    }
    out.append("]");
    assert(out@ =~= group_rep(*g));
    out
}

/// Renders the facet parameter of a search query.
pub fn format_facets(facets: &Vec<Vec<(String, String)>>) -> (out: String)
    ensures
        out@ == facets_rep(facets@),
{
    let mut out = String::new();
    out.append("[");
    let mut i: usize = 0;
    while i < facets.len()
        invariant
            i <= facets@.len(),
            out@ =~= "["@ + groups_rep(facets@.take(i as int)),
        decreases facets@.len() - i,
    {
        let ghost prefix = facets@.take(i as int);
        if i > 0 {
            out.append(",");
        }
        let group = format_group(&facets[i]);
        out.append(group.as_str());
        i = i + 1;
        proof {
            let now = facets@.take(i as int);
            assert(now.drop_last() =~= prefix);
            assert(now.last() == facets@[i - 1]);
            assert(out@ =~= "["@ + groups_rep(now));
        }
    }
    proof {
        assert(facets@.take(facets@.len() as int) =~= facets@);
    }
    out.append("]");
    assert(out@ =~= facets_rep(facets@));
    out
}

/// The position of the first release at or after `from` that satisfies the
/// descriptor.
pub open spec fn first_satisfying(versions: Seq<Version>, d: MVDescriptor, from: int) -> Option<
    int,
>
    decreases versions.len() - from,
{
    if from < 0 || from >= versions.len() {
        None
    } else if descriptor_satisfied(d, versions[from]) {
        Some(from)
    } else {
        first_satisfying(versions, d, from + 1)
    }
}

/// The release a descriptor resolves to among the listed releases: the
/// first listed one for a `latest` pin (the registry lists newest first),
/// otherwise the first that satisfies the descriptor.
pub open spec fn selected_index(versions: Seq<Version>, d: MVDescriptor) -> Option<int> {
    if d.mc_ver.model().latest {
        if versions.len() > 0 {
            Some(0)
        } else {
            None
        }
    } else {
        first_satisfying(versions, d, 0)
    }
}

proof fn lemma_first_satisfying_hit(versions: Seq<Version>, d: MVDescriptor, from: int, i: int)
    requires
        0 <= from <= i < versions.len(),
        descriptor_satisfied(d, versions[i]),
        forall|j: int| from <= j < i ==> !descriptor_satisfied(d, versions[j]),
    ensures
        first_satisfying(versions, d, from) == Some(i),
    decreases i - from,
{
    if from < i {
        lemma_first_satisfying_hit(versions, d, from + 1, i);
    }
}

proof fn lemma_first_satisfying_miss(versions: Seq<Version>, d: MVDescriptor, from: int)
    requires
        0 <= from,
        forall|j: int| from <= j < versions.len() ==> !descriptor_satisfied(d, versions[j]),
    ensures
        first_satisfying(versions, d, from) is None,
    decreases versions.len() - from,
{
    if from < versions.len() {
        lemma_first_satisfying_miss(versions, d, from + 1);
    }
}

/// Picks the release a descriptor resolves to: the first listed release
/// when the descriptor pins `latest` (the registry lists newest first),
/// otherwise the first release that satisfies the descriptor.  Fails with
/// `NotFound` when no release qualifies.
pub fn select_version(versions: &Vec<Version>, descriptor: &MVDescriptor) -> (r: Result<
    usize,
    ApiError,
>)
    ensures
        match r {
            Ok(i) => selected_index(versions@, *descriptor) == Some(i as int) && 0 <= i
                < versions@.len(),
            Err(e) => selected_index(versions@, *descriptor) is None && e.kind
                == ApiErrorKind::NotFound,
        },
{
    if descriptor.mc_ver.is_latest() {
        if versions.len() > 0 {
            Ok(0)
        } else {
            Err(ApiError::not_found())
        }
    } else {
        let mut i: usize = 0;
        while i < versions.len()
            invariant
                i <= versions@.len(),
                !descriptor.mc_ver.model().latest,
                forall|j: int| 0 <= j < i ==> !descriptor_satisfied(*descriptor, versions@[j]),
            decreases versions@.len() - i,
        {
            if descriptor.check_version_compat(&versions[i]) {
                proof {
                    lemma_first_satisfying_hit(versions@, *descriptor, 0, i as int);
                }
                return Ok(i);
            }
            i = i + 1;
        }
        proof {
            lemma_first_satisfying_miss(versions@, *descriptor, 0);
        }
        Err(ApiError::not_found())
    }
}

} // verus!
