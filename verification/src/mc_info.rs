//! The game-version model: release, snapshot and `latest` versions, their
//! parsing and rendering, the partial ordering over them, the compatibility
//! predicate, and version descriptors.

use vstd::prelude::*;

use crate::error::{ApiError, ApiErrorKind};
use crate::text::{
    dec_rep, digit_char, digit_val, eq_ignore_case, is_digit_char, lower_seq, push_char,
    str_chars, usize_to_string,
};

verus! {

/// The release type of one mod release, and, in a descriptor, a filter over
/// release types.
#[derive(Clone, Copy, Debug, PartialEq, Eq, Structural)]
pub enum VT {
    RELEASE,
    BETA,
    ALPHA,
}

/// The lower-case token of a release type.
pub open spec fn vt_token(v: VT) -> Seq<char> {
    match v {
        VT::RELEASE => "release"@,
        VT::BETA => "beta"@,
        VT::ALPHA => "alpha"@,
    }
}

/// The lower-case token of a loader.
pub open spec fn loader_token(l: LOADER) -> Seq<char> {
    match l {
        LOADER::FABRIC => "fabric"@,
        LOADER::QUILT => "quilt"@,
        LOADER::NEOFORGE => "neoforge"@,
        LOADER::FORGE => "forge"@,
    }
}

impl VT {
    /// The lower-case token of this release type.
    pub fn as_str(&self) -> (s: &'static str)
        ensures
            s@ == vt_token(*self),
    {
        match self {
            VT::RELEASE => "release",
            VT::BETA => "beta",
            VT::ALPHA => "alpha",
        }
    }

    /// Parses a release-type token, ignoring ASCII case.
    pub fn from_str(s: &str) -> (r: Result<VT, ApiError>)
        ensures
            lower_seq(s@) == "release"@ ==> r == Ok::<VT, ApiError>(VT::RELEASE),
            lower_seq(s@) == "beta"@ ==> r == Ok::<VT, ApiError>(VT::BETA),
            lower_seq(s@) == "alpha"@ ==> r == Ok::<VT, ApiError>(VT::ALPHA),
            r is Err <==> (lower_seq(s@) != "release"@ && lower_seq(s@) != "beta"@
                && lower_seq(s@) != "alpha"@),
            r is Err ==> r->Err_0.kind == ApiErrorKind::InvalidVersion,
    {
        proof {
            lemma_lower_tokens();
        }
        if eq_ignore_case(s, "release") {
            Ok(VT::RELEASE)
        } else if eq_ignore_case(s, "beta") {
            Ok(VT::BETA)
        } else if eq_ignore_case(s, "alpha") {
            Ok(VT::ALPHA)
        } else {
            Err(ApiError::invalid_version())
        }
    }
}

/// The mod loader a release is built for.
#[derive(Clone, Copy, Debug, PartialEq, Eq, Structural)]
pub enum LOADER {
    FABRIC,
    QUILT,
    NEOFORGE,
    FORGE,
}

impl LOADER {
    /// The lower-case token of this loader.
    pub fn as_str(&self) -> (s: &'static str)
        ensures
            s@ == loader_token(*self),
    {
        match self {
            LOADER::FABRIC => "fabric",
            LOADER::QUILT => "quilt",
            LOADER::NEOFORGE => "neoforge",
            LOADER::FORGE => "forge",
        }
    }

    /// Parses a loader token, ignoring ASCII case.
    pub fn from_str(s: &str) -> (r: Result<LOADER, ApiError>)
        ensures
            lower_seq(s@) == "fabric"@ ==> r == Ok::<LOADER, ApiError>(LOADER::FABRIC),
            lower_seq(s@) == "quilt"@ ==> r == Ok::<LOADER, ApiError>(LOADER::QUILT),
            lower_seq(s@) == "neoforge"@ ==> r == Ok::<LOADER, ApiError>(LOADER::NEOFORGE),
            lower_seq(s@) == "forge"@ ==> r == Ok::<LOADER, ApiError>(LOADER::FORGE),
            r is Err <==> (lower_seq(s@) != "fabric"@ && lower_seq(s@) != "quilt"@
                && lower_seq(s@) != "neoforge"@ && lower_seq(s@) != "forge"@),
            r is Err ==> r->Err_0.kind == ApiErrorKind::InvalidLoader,
    {
        proof {
            lemma_lower_tokens();
        }
        if eq_ignore_case(s, "fabric") {
            Ok(LOADER::FABRIC)
        } else if eq_ignore_case(s, "neoforge") {
            Ok(LOADER::NEOFORGE)
        } else if eq_ignore_case(s, "quilt") {
            Ok(LOADER::QUILT)
        } else if eq_ignore_case(s, "forge") {
            Ok(LOADER::FORGE)
        } else {
            Err(ApiError::invalid_loader())
        }
    }
}

/// The lower-case tokens used by the parsers are already folded.
proof fn lemma_lower_tokens()
    ensures
        lower_seq("release"@) == "release"@,
        lower_seq("beta"@) == "beta"@,
        lower_seq("alpha"@) == "alpha"@,
        lower_seq("fabric"@) == "fabric"@,
        lower_seq("quilt"@) == "quilt"@,
        lower_seq("neoforge"@) == "neoforge"@,
        lower_seq("forge"@) == "forge"@,
        "release"@.len() == 7,
        "beta"@.len() == 4,
        "alpha"@.len() == 5,
        "fabric"@.len() == 6,
        "quilt"@.len() == 5,
        "neoforge"@.len() == 8,
        "forge"@.len() == 5,
        "quilt"@ != "forge"@,
{
    assert("quilt"@[0] != "forge"@[0]) by {
        reveal_strlit("quilt");
        reveal_strlit("forge");
    }
    reveal_strlit("release");
    reveal_strlit("beta");
    reveal_strlit("alpha");
    reveal_strlit("fabric");
    reveal_strlit("quilt");
    reveal_strlit("neoforge");
    reveal_strlit("forge");
    assert(lower_seq("release"@) =~= "release"@);
    assert(lower_seq("beta"@) =~= "beta"@);
    assert(lower_seq("alpha"@) =~= "alpha"@);
    assert(lower_seq("fabric"@) =~= "fabric"@);
    assert(lower_seq("quilt"@) =~= "quilt"@);
    assert(lower_seq("neoforge"@) =~= "neoforge"@);
    assert(lower_seq("forge"@) =~= "forge"@);
}

/// The mathematical value of a game version: either a release
/// `major.minor[.patch][-suffix]`, a snapshot `YYwWWident`, or the sentinel
/// `latest`.  When `latest` is set the remaining fields are ignored.
pub ghost struct GameVersionModel {
    pub major: int,
    pub minor: int,
    pub patch: Option<int>,
    pub ident: Option<Seq<char>>,
    pub latest: bool,
    pub snapshot: bool,
}

/// The default version: release 0.0 with no qualifier.
pub open spec fn default_model() -> GameVersionModel {
    GameVersionModel {
        major: 0,
        minor: 0,
        patch: None,
        ident: None,
        latest: false,
        snapshot: false,
    }
}

/// The degenerate version 0.0.0 that parsing falls back to.
pub open spec fn fallback_model() -> GameVersionModel {
    GameVersionModel {
        major: 0,
        minor: 0,
        patch: Some(0),
        ident: None,
        latest: false,
        snapshot: false,
    }
}

/// The sentinel `latest`.
pub open spec fn latest_model() -> GameVersionModel {
    GameVersionModel {
        major: 0,
        minor: 0,
        patch: None,
        ident: None,
        latest: true,
        snapshot: false,
    }
}

/// Two versions are equal when all numeric and identifier fields match and
/// the snapshot flags agree, or when both are `latest`.
pub open spec fn version_eq(a: GameVersionModel, b: GameVersionModel) -> bool {
    (a.major == b.major && a.minor == b.minor && a.patch == b.patch && a.ident == b.ident
        && a.snapshot == b.snapshot) || (a.latest && b.latest)
}

/// Any given game version: a release (`"1.20.1"`), a snapshot (`"22w14a"`)
/// or the sentinel `latest`.  Immutable after construction.
#[derive(Clone, Debug)]
pub struct MCVersion {
    major: usize,
    minor: usize,
    patch: Option<usize>,
    ident: Option<Vec<char>>,
    latest: bool,
    snapshot: bool,
}

impl MCVersion {
    /// The mathematical value of this version.
    pub closed spec fn model(self) -> GameVersionModel {
        GameVersionModel {
            major: self.major as int,
            minor: self.minor as int,
            patch: match self.patch {
                Some(p) => Some(p as int),
                None => None,
            },
            ident: match self.ident {
                Some(v) => Some(v@),
                None => None,
            },
            latest: self.latest,
            snapshot: self.snapshot,
        }
    }

    /// The default version, release 0.0.
    pub fn new() -> (v: Self)
        ensures
            v.model() == default_model(),
    {
        MCVersion {
            major: 0,
            minor: 0,
            patch: None,
            ident: None,
            latest: false,
            snapshot: false,
        }
    }

    /// The sentinel `latest`.
    pub fn latest() -> (v: Self)
        ensures
            v.model() == latest_model(),
    {
        MCVersion {
            major: 0,
            minor: 0,
            patch: None,
            ident: None,
            latest: true,
            snapshot: false,
        }
    }

    /// True when this version is the sentinel `latest`.
    pub fn is_latest(&self) -> (r: bool)
        ensures
            r == self.model().latest,
    {
        self.latest
    }

    /// True when this version is a snapshot.
    pub fn is_snapshot(&self) -> (r: bool)
        ensures
            r == self.model().snapshot,
    {
        self.snapshot
    }
}

impl PartialEq for MCVersion {
    /// Versions are equal when their fields match and the snapshot flags
    /// agree, or when both are `latest`.
    fn eq(&self, other: &Self) -> (r: bool) {
        let fields_match = self.major == other.major && self.minor == other.minor
            && match (&self.patch, &other.patch) {
                (Some(a), Some(b)) => *a == *b,
                (None, None) => true,
                _ => false,
            }
            && match (&self.ident, &other.ident) {
                (Some(a), Some(b)) => crate::text::char_vecs_equal(a, b),
                (None, None) => true,
                _ => false,
            }
            && self.snapshot == other.snapshot;
        fields_match || (self.latest && other.latest)
    }
}

impl vstd::std_specs::cmp::PartialEqSpecImpl for MCVersion {
    open spec fn obeys_eq_spec() -> bool {
        true
    }

    open spec fn eq_spec(&self, other: &MCVersion) -> bool {
        version_eq(self.model(), other.model())
    }
}

/// The outcome of comparing two game versions.  The ordering is partial:
/// a release and a snapshot, or two releases with disagreeing suffixes, are
/// `Unordered`.  Use the compatibility predicate, not this ordering, to
/// filter candidate releases.
#[derive(Clone, Copy, Debug, PartialEq, Eq, Structural)]
pub enum VersionOrdering {
    Less,
    Equal,
    Greater,
    Unordered,
}

/// Lexicographic comparison of two character sequences by scalar value.
pub open spec fn lex_compare(a: Seq<char>, b: Seq<char>) -> VersionOrdering
    decreases a.len(),
{
    if a.len() == 0 && b.len() == 0 {
        VersionOrdering::Equal
    } else if a.len() == 0 {
        VersionOrdering::Less
    } else if b.len() == 0 {
        VersionOrdering::Greater
    } else if a[0] != b[0] {
        if (a[0] as u32) < (b[0] as u32) {
            VersionOrdering::Less
        } else {
            VersionOrdering::Greater
        }
    } else {
        lex_compare(a.skip(1), b.skip(1))
    }
}

/// Comparison of the release suffixes (`-rc1`, `-pre3`): a version without a
/// suffix sorts above the same version with one, and two distinct suffixes
/// are ambiguous.
pub open spec fn compare_suffixes(a: Option<Seq<char>>, b: Option<Seq<char>>) -> VersionOrdering {
    match (a, b) {
        (Option::None, Option::None) => VersionOrdering::Equal,
        (Option::Some(_), Option::None) => VersionOrdering::Less,
        (Option::None, Option::Some(_)) => VersionOrdering::Greater,
        (Option::Some(x), Option::Some(y)) => if x == y {
            VersionOrdering::Equal
        } else {
            VersionOrdering::Unordered
        },
    }
}

/// Comparison of the qualifiers of two releases with equal major and minor:
/// the patch decides numerically when both are present, a present patch
/// sorts below an absent one, and ties fall through to the suffix.
pub open spec fn compare_release_qualifiers(
    ap: Option<int>,
    bp: Option<int>,
    ai: Option<Seq<char>>,
    bi: Option<Seq<char>>,
) -> VersionOrdering {
    match (ap, bp) {
        (Option::None, Option::None) => compare_suffixes(ai, bi),
        (Option::Some(_), Option::None) => VersionOrdering::Less,
        (Option::None, Option::Some(_)) => VersionOrdering::Greater,
        (Option::Some(x), Option::Some(y)) => if x < y {
            VersionOrdering::Less
        } else if x > y {
            VersionOrdering::Greater
        } else {
            compare_suffixes(ai, bi)
        },
    }
}

/// Comparison of the identifiers of two snapshots with equal year and week:
/// lexicographic when both are present, and a present identifier sorts below
/// an absent one.
pub open spec fn compare_snapshot_idents(
    a: Option<Seq<char>>,
    b: Option<Seq<char>>,
) -> VersionOrdering {
    match (a, b) {
        (Option::None, Option::None) => VersionOrdering::Equal,
        (Option::Some(_), Option::None) => VersionOrdering::Less,
        (Option::None, Option::Some(_)) => VersionOrdering::Greater,
        (Option::Some(x), Option::Some(y)) => lex_compare(x, y),
    }
}

/// The ordering over game versions.  `latest` is equal to `latest` and above
/// everything else; a release and a snapshot are unordered; otherwise major
/// and minor decide first, then the qualifiers.
pub open spec fn spec_compare(a: GameVersionModel, b: GameVersionModel) -> VersionOrdering {
    if a.latest && b.latest {
        VersionOrdering::Equal
    } else if a.latest {
        VersionOrdering::Greater
    } else if b.latest {
        VersionOrdering::Less
    } else if a.snapshot != b.snapshot {
        VersionOrdering::Unordered
    } else if a.major != b.major {
        if a.major < b.major {
            VersionOrdering::Less
        } else {
            VersionOrdering::Greater
        }
    } else if a.minor != b.minor {
        if a.minor < b.minor {
            VersionOrdering::Less
        } else {
            VersionOrdering::Greater
        }
    } else if !a.snapshot {
        compare_release_qualifiers(a.patch, b.patch, a.ident, b.ident)
    } else {
        compare_snapshot_idents(a.ident, b.ident)
    }
}

/// Lexicographic comparison of the tails of two character vectors.
fn lex_compare_from(a: &Vec<char>, b: &Vec<char>, i: usize) -> (r: VersionOrdering)
    requires
        i <= a@.len(),
        i <= b@.len(),
    ensures
        r == lex_compare(a@.skip(i as int), b@.skip(i as int)),
    decreases a@.len() - i,
{
    let ghost sa = a@.skip(i as int);
    let ghost sb = b@.skip(i as int);
    if i == a.len() && i == b.len() {
        VersionOrdering::Equal
    } else if i == a.len() {
        VersionOrdering::Less
    } else if i == b.len() {
        VersionOrdering::Greater
    } else if a[i] != b[i] {
        assert(sa[0] == a@[i as int] && sb[0] == b@[i as int]);
        if (a[i] as u32) < (b[i] as u32) {
            VersionOrdering::Less
        } else {
            VersionOrdering::Greater
        }
    } else {
        let r = lex_compare_from(a, b, i + 1);
        assert(sa[0] == a@[i as int] && sb[0] == b@[i as int]);
        assert(sa.skip(1) =~= a@.skip(i + 1 as int));
        assert(sb.skip(1) =~= b@.skip(i + 1 as int));
        r
    }
}

impl MCVersion {
    /// Compares two versions under the partial ordering of the version
    /// model.
    pub fn compare(&self, other: &MCVersion) -> (r: VersionOrdering)
        ensures
            r == spec_compare(self.model(), other.model()),
    {
        if self.latest && other.latest {
            return VersionOrdering::Equal;
        }
        if self.latest {
            return VersionOrdering::Greater;
        }
        if other.latest {
            return VersionOrdering::Less;
        }
        if self.snapshot != other.snapshot {
            return VersionOrdering::Unordered;
        }
        if self.major != other.major {
            return if self.major < other.major {
                VersionOrdering::Less
            } else {
                VersionOrdering::Greater
            };
        }
        if self.minor != other.minor {
            return if self.minor < other.minor {
                VersionOrdering::Less
            } else {
                VersionOrdering::Greater
            };
        }
        if !self.snapshot {
            match (&self.patch, &other.patch) {
                (Some(_), None) => VersionOrdering::Less,
                (None, Some(_)) => VersionOrdering::Greater,
                (Some(x), Some(y)) if *x < *y => VersionOrdering::Less,
                (Some(x), Some(y)) if *x > *y => VersionOrdering::Greater,
                _ => self.compare_suffix(other),
            }
        } else {
            match (&self.ident, &other.ident) {
                (None, None) => VersionOrdering::Equal,
                (Some(_), None) => VersionOrdering::Less,
                (None, Some(_)) => VersionOrdering::Greater,
                (Some(x), Some(y)) => {
                    assert(x@.skip(0) =~= x@ && y@.skip(0) =~= y@);
                    lex_compare_from(x, y, 0)
                },
            }
        }
    }

    /// Compares the release suffixes of two versions.
    fn compare_suffix(&self, other: &MCVersion) -> (r: VersionOrdering)
        ensures
            r == compare_suffixes(self.model().ident, other.model().ident),
    {
        match (&self.ident, &other.ident) {
            (None, None) => VersionOrdering::Equal,
            (Some(_), None) => VersionOrdering::Less,
            (None, Some(_)) => VersionOrdering::Greater,
            (Some(x), Some(y)) => if crate::text::char_vecs_equal(x, y) {
                VersionOrdering::Equal
            } else {
                VersionOrdering::Unordered
            },
        }
    }
}

/// A release version without the `latest` and snapshot flags set.
pub open spec fn release_model(
    major: int,
    minor: int,
    patch: Option<int>,
    ident: Option<Seq<char>>,
) -> GameVersionModel {
    GameVersionModel { major, minor, patch, ident, latest: false, snapshot: false }
}

/// The release suffix (`-rc<digit>` or `-pre<digit>`) that spans from
/// position `j` to the end of the string, if there is one.
pub open spec fn release_suffix_at(s: Seq<char>, j: int) -> Option<Seq<char>> {
    if s.len() - j == 4 && s[j] == '-' && s[j + 1] == 'r' && s[j + 2] == 'c'
        && is_digit_char(s[j + 3]) {
        Some(s.skip(j))
    } else if s.len() - j == 5 && s[j] == '-' && s[j + 1] == 'p' && s[j + 2] == 'r'
        && s[j + 3] == 'e' && is_digit_char(s[j + 4]) {
        Some(s.skip(j))
    } else {
        None
    }
}

/// Continues a release parse after the patch number, at position `j`: the
/// string must end there or carry a suffix.
pub open spec fn release_after_patch(
    s: Seq<char>,
    j: int,
    major: int,
    minor: int,
    patch: int,
) -> Option<GameVersionModel> {
    if j == s.len() {
        Some(release_model(major, minor, Some(patch), None))
    } else {
        match release_suffix_at(s, j) {
            Some(id) => Some(release_model(major, minor, Some(patch), Some(id))),
            None => None,
        }
    }
}

/// Continues a release parse after the minor number, at position `i`: the
/// string may end, carry `.patch` of one or two digits, or carry a suffix.
pub open spec fn release_after_minor(
    s: Seq<char>,
    i: int,
    major: int,
    minor: int,
) -> Option<GameVersionModel> {
    if i == s.len() {
        Some(release_model(major, minor, None, None))
    } else if s[i] == '.' {
        if i + 1 < s.len() && is_digit_char(s[i + 1]) {
            if i + 2 < s.len() && is_digit_char(s[i + 2]) {
                release_after_patch(
                    s,
                    i + 3,
                    major,
                    minor,
                    10 * digit_val(s[i + 1]) + digit_val(s[i + 2]),
                )
            } else {
                release_after_patch(s, i + 2, major, minor, digit_val(s[i + 1]))
            }
        } else {
            None
        }
    } else {
        match release_suffix_at(s, i) {
            Some(id) => Some(release_model(major, minor, None, Some(id))),
            None => None,
        }
    }
}

/// Parses a release-form string: one major digit, a dot, one or two minor
/// digits, an optional `.patch` of one or two digits, and an optional
/// `-rc`/`-pre` suffix.
pub open spec fn parse_release(s: Seq<char>) -> Option<GameVersionModel> {
    if s.len() >= 3 && is_digit_char(s[0]) && s[1] == '.' && is_digit_char(s[2]) {
        if s.len() >= 4 && is_digit_char(s[3]) {
            release_after_minor(s, 4, digit_val(s[0]), 10 * digit_val(s[2]) + digit_val(s[3]))
        } else {
            release_after_minor(s, 3, digit_val(s[0]), digit_val(s[2]))
        }
    } else {
        None
    }
}

/// Parses a snapshot-form string: two year digits, `w`, two week digits,
/// and a non-empty identifier free of digits.
pub open spec fn parse_snapshot(s: Seq<char>) -> Option<GameVersionModel> {
    if s.len() >= 6 && is_digit_char(s[0]) && is_digit_char(s[1]) && s[2] == 'w'
        && is_digit_char(s[3]) && is_digit_char(s[4])
        && (forall|k: int| 5 <= k < s.len() ==> !is_digit_char(s[k])) {
        Some(
            GameVersionModel {
                major: 10 * digit_val(s[0]) + digit_val(s[1]),
                minor: 10 * digit_val(s[3]) + digit_val(s[4]),
                patch: None,
                ident: Some(s.skip(5)),
                latest: false,
                snapshot: true,
            },
        )
    } else {
        None
    }
}

/// What parsing a version string yields: the sentinel for `"latest"`, a
/// release or snapshot when the string has one of the two shapes, and
/// otherwise the degenerate version 0.0.0 together with a warning flag.
pub open spec fn spec_parse(s: Seq<char>) -> (GameVersionModel, bool) {
    if s == "latest"@ {
        (latest_model(), false)
    } else if parse_release(s) is Some {
        (parse_release(s)->Some_0, false)
    } else if parse_snapshot(s) is Some {
        (parse_snapshot(s)->Some_0, false)
    } else {
        (fallback_model(), true)
    }
}

/// What formatting a version yields: `"latest"` for the sentinel, otherwise
/// `major.minor[.patch]` for a release (the suffix is not rendered) and
/// `YYwWWident` for a snapshot.
pub open spec fn spec_format(m: GameVersionModel) -> Seq<char> {
    if m.latest {
        "latest"@
    } else if !m.snapshot {
        dec_rep(m.major as nat) + "."@ + dec_rep(m.minor as nat) + (match m.patch {
            Some(p) => "."@ + dec_rep(p as nat),
            None => Seq::<char>::empty(),
        })
    } else {
        dec_rep(m.major as nat) + "w"@ + dec_rep(m.minor as nat) + (match m.ident {
            Some(id) => id,
            None => Seq::<char>::empty(),
        })
    }
}

/// Tests whether a character is a decimal digit.
fn is_digit(c: char) -> (r: bool)
    ensures
        r == is_digit_char(c),
{
    let u = c as u32;
    48 <= u && u <= 57
}

/// The numeric value of a digit character.
fn digit_value(c: char) -> (d: usize)
    requires
        is_digit_char(c),
    ensures
        d == digit_val(c),
        d < 10,
{
    ((c as u32) - 48) as usize
}

/// Copies the characters of `cs` from position `j` to the end.
fn tail_from(cs: &Vec<char>, j: usize) -> (out: Vec<char>)
    requires
        j <= cs@.len(),
    ensures
        out@ =~= cs@.skip(j as int),
{
    let mut out: Vec<char> = Vec::new();
    let mut k: usize = j;
    while k < cs.len()
        invariant
            j <= k <= cs@.len(),
            out@ =~= cs@.subrange(j as int, k as int),
        decreases cs@.len() - k,
    {
        out.push(cs[k]);
        k = k + 1;
        assert(out@ =~= cs@.subrange(j as int, k as int));
    }
    assert(out@ =~= cs@.skip(j as int));
    out
}

/// Recognises a release suffix starting at position `j`.
fn suffix_at(cs: &Vec<char>, j: usize) -> (r: Option<Vec<char>>)
    requires
        j <= cs@.len(),
    ensures
        release_suffix_at(cs@, j as int) is Some ==> r is Some && r->Some_0@
            == release_suffix_at(cs@, j as int)->Some_0,
        release_suffix_at(cs@, j as int) is None ==> r is None,
{
    let n = cs.len();
    if n - j == 4 && cs[j] == '-' && cs[j + 1] == 'r' && cs[j + 2] == 'c' && is_digit(cs[j + 3]) {
        Some(tail_from(cs, j))
    } else if n - j == 5 && cs[j] == '-' && cs[j + 1] == 'p' && cs[j + 2] == 'r'
        && cs[j + 3] == 'e' && is_digit(cs[j + 4]) {
        Some(tail_from(cs, j))
    } else {
        None
    }
}

/// Continues a release parse after the patch number.
fn exec_after_patch(cs: &Vec<char>, j: usize, major: usize, minor: usize, patch: usize) -> (r:
    Option<MCVersion>)
    requires
        j <= cs@.len(),
    ensures
        release_after_patch(cs@, j as int, major as int, minor as int, patch as int) is Some
            ==> r is Some && r->Some_0.model() == release_after_patch(
            cs@,
            j as int,
            major as int,
            minor as int,
            patch as int,
        )->Some_0,
        release_after_patch(cs@, j as int, major as int, minor as int, patch as int) is None
            ==> r is None,
{
    if j == cs.len() {
        Some(
            MCVersion {
                major,
                minor,
                patch: Some(patch),
                ident: None,
                latest: false,
                snapshot: false,
            },
        )
    } else {
        match suffix_at(cs, j) {
            Some(id) => Some(
                MCVersion {
                    major,
                    minor,
                    patch: Some(patch),
                    ident: Some(id),
                    latest: false,
                    snapshot: false,
                },
            ),
            None => None,
        }
    }
}

/// Continues a release parse after the minor number.
fn exec_after_minor(cs: &Vec<char>, i: usize, major: usize, minor: usize) -> (r: Option<
    MCVersion,
>)
    requires
        i <= cs@.len(),
    ensures
        release_after_minor(cs@, i as int, major as int, minor as int) is Some ==> r is Some
            && r->Some_0.model() == release_after_minor(
            cs@,
            i as int,
            major as int,
            minor as int,
        )->Some_0,
        release_after_minor(cs@, i as int, major as int, minor as int) is None ==> r is None,
{
    if i == cs.len() {
        Some(
            MCVersion { major, minor, patch: None, ident: None, latest: false, snapshot: false },
        )
    } else if cs[i] == '.' {
        if i + 1 < cs.len() && is_digit(cs[i + 1]) {
            if i + 2 < cs.len() && is_digit(cs[i + 2]) {
                let patch = 10 * digit_value(cs[i + 1]) + digit_value(cs[i + 2]);
                exec_after_patch(cs, i + 3, major, minor, patch)
            } else {
                exec_after_patch(cs, i + 2, major, minor, digit_value(cs[i + 1]))
            }
        } else {
            None
        }
    } else {
        match suffix_at(cs, i) {
            Some(id) => Some(
                MCVersion {
                    major,
                    minor,
                    patch: None,
                    ident: Some(id),
                    latest: false,
                    snapshot: false,
                },
            ),
            None => None,
        }
    }
}

impl MCVersion {
    /// Parses a version string.  `"latest"` yields the sentinel; a release
    /// or snapshot shape yields that version; anything else falls back to
    /// the degenerate version 0.0.0, flagged by the second component so
    /// that callers can surface a warning.  Parsing never fails.
    pub fn parse(s: &str) -> (r: (MCVersion, bool))
        ensures
            r.0.model() == spec_parse(s@).0,
            r.1 == spec_parse(s@).1,
    {
        let cs = str_chars(s);
        if cs.len() == 6 && cs[0] == 'l' && cs[1] == 'a' && cs[2] == 't' && cs[3] == 'e'
            && cs[4] == 's' && cs[5] == 't' {
            proof {
                reveal_strlit("latest");
                assert(s@ =~= "latest"@);
            }
            return (MCVersion::latest(), false);
        }
        proof {
            reveal_strlit("latest");
            if s@ == "latest"@ {
                assert(cs@.len() == 6);
                assert(cs@[0] == 'l' && cs@[1] == 'a' && cs@[2] == 't' && cs@[3] == 'e'
                    && cs@[4] == 's' && cs@[5] == 't');
                assert(false);
            }
        }
        if cs.len() >= 3 && is_digit(cs[0]) && cs[1] == '.' && is_digit(cs[2]) {
            let major = digit_value(cs[0]);
            let two_digit_minor = cs.len() >= 4 && is_digit(cs[3]);
            let r = if two_digit_minor {
                let minor = 10 * digit_value(cs[2]) + digit_value(cs[3]);
                exec_after_minor(&cs, 4, major, minor)
            } else {
                exec_after_minor(&cs, 3, major, digit_value(cs[2]))
            };
            match r {
                Some(v) => {
                    return (v, false);
                },
                None => {},
            }
        }
        if cs.len() >= 6 && is_digit(cs[0]) && is_digit(cs[1]) && cs[2] == 'w' && is_digit(cs[3])
            && is_digit(cs[4]) {
            let mut k: usize = 5;
            let mut has_digit = false;
            while k < cs.len()
                invariant
                    5 <= k <= cs@.len(),
                    has_digit <==> exists|t: int| 5 <= t < k && is_digit_char(cs@[t]),
                decreases cs@.len() - k,
            {
                if is_digit(cs[k]) {
                    has_digit = true;
                }
                k = k + 1;
            }
            if !has_digit {
                let minor = 10 * digit_value(cs[3]) + digit_value(cs[4]);
                let major = 10 * digit_value(cs[0]) + digit_value(cs[1]);
                let v = MCVersion {
                    major,
                    minor,
                    patch: None,
                    ident: Some(tail_from(&cs, 5)),
                    latest: false,
                    snapshot: true,
                };
                return (v, false);
            }
        }
        (
            MCVersion {
                major: 0,
                minor: 0,
                patch: Some(0),
                ident: None,
                latest: false,
                snapshot: false,
            },
            true,
        )
    }

    /// Renders this version: `"latest"` for the sentinel, otherwise
    /// `major.minor[.patch]` for a release and `YYwWWident` for a snapshot.
    pub fn to_version_string(&self) -> (s: String)
        ensures
            s@ == spec_format(self.model()),
    {
        if self.latest {
            let mut s = String::new();
            s.append("latest");
            assert(s@ =~= "latest"@);
            s
        } else if !self.snapshot {
            let mut s = usize_to_string(self.major);
            s.append(".");
            let minor_s = usize_to_string(self.minor);
            s.append(minor_s.as_str());
            match &self.patch {
                Some(p) => {
                    s.append(".");
                    let patch_s = usize_to_string(*p);
                    s.append(patch_s.as_str());
                },
                None => {},
            }
            assert(s@ =~= spec_format(self.model()));
            s
        } else {
            let mut s = usize_to_string(self.major);
            s.append("w");
            let minor_s = usize_to_string(self.minor);
            s.append(minor_s.as_str());
            match &self.ident {
                Some(id) => {
                    let mut j: usize = 0;
                    while j < id.len()
                        invariant
                            j <= id@.len(),
                            s@ =~= dec_rep(self.major as nat) + "w"@ + dec_rep(self.minor as nat)
                                + id@.subrange(0, j as int),
                        decreases id@.len() - j,
                    {
                        push_char(&mut s, id[j]);
                        j = j + 1;
                        assert(s@ =~= dec_rep(self.major as nat) + "w"@ + dec_rep(
                            self.minor as nat,
                        ) + id@.subrange(0, j as int));
                    }
                    assert(id@.subrange(0, id@.len() as int) =~= id@);
                },
                None => {},
            }
            assert(s@ =~= spec_format(self.model()));
            s
        }
    }

    /// True when this version accepts the other: they are equal, or this
    /// version is a release without a patch (a minor-line wildcard such as
    /// `1.20`) whose major and minor match the other's.
    pub fn is_compatible(&self, other: &MCVersion) -> (r: bool)
        ensures
            r == spec_compatible(self.model(), other.model()),
    {
        if self == other {
            true
        } else {
            !self.snapshot && !self.latest && self.patch.is_none() && self.major == other.major
                && self.minor == other.minor
        }
    }
}

/// A version descriptor: the target environment a pack is resolved
/// against — the pinned game version, the acceptable release types, and
/// the mod loader.  Equality is structural.
#[derive(Clone, Debug)]
pub struct MVDescriptor {
    pub mc_ver: MCVersion,
    pub version_types: Vec<VT>,
    pub loader: LOADER,
}

impl PartialEq for MVDescriptor {
    fn eq(&self, other: &Self) -> (r: bool) {
        if !(self.mc_ver == other.mc_ver) || !(self.loader == other.loader) {
            return false;
        }
        if self.version_types.len() != other.version_types.len() {
            return false;
        }
        let mut i: usize = 0;
        while i < self.version_types.len()
            invariant
                i <= self.version_types@.len(),
                self.version_types@.len() == other.version_types@.len(),
                forall|j: int| 0 <= j < i ==> self.version_types@[j] == other.version_types@[j],
            decreases self.version_types@.len() - i,
        {
            if self.version_types[i] != other.version_types[i] {
                return false;
            }
            i = i + 1;
        }
        assert(self.version_types@ =~= other.version_types@);
        true
    }
}

impl vstd::std_specs::cmp::PartialEqSpecImpl for MVDescriptor {
    open spec fn obeys_eq_spec() -> bool {
        true
    }

    open spec fn eq_spec(&self, other: &MVDescriptor) -> bool {
        version_eq(self.mc_ver.model(), other.mc_ver.model()) && self.version_types@
            == other.version_types@ && self.loader == other.loader
    }
}

/// A release record satisfies a descriptor when it supports a compatible
/// game version (a `latest` pin short-circuits that clause), is built for
/// the descriptor's loader, and has an accepted release type.
pub open spec fn descriptor_satisfied(d: MVDescriptor, v: crate::api::Version) -> bool {
    &&& d.mc_ver.model().latest || exists|i: int|
        0 <= i < v.game_versions@.len() && spec_compatible(
            d.mc_ver.model(),
            v.game_versions@[i].model(),
        )
    &&& exists|j: int| 0 <= j < v.loaders@.len() && v.loaders@[j] == d.loader
    &&& exists|k: int| 0 <= k < d.version_types@.len() && d.version_types@[k] == v.version_type
}

impl MVDescriptor {
    /// Decides whether the given release satisfies this descriptor.
    pub fn check_version_compat(&self, version: &crate::api::Version) -> (r: bool)
        ensures
            r == descriptor_satisfied(*self, *version),
    {
        let game_ok: bool = if self.mc_ver.is_latest() {
            true
        } else {
            let mut found = false;
            let mut i: usize = 0;
            while i < version.game_versions.len()
                invariant
                    i <= version.game_versions@.len(),
                    found <==> exists|t: int|
                        0 <= t < i && spec_compatible(
                            self.mc_ver.model(),
                            version.game_versions@[t].model(),
                        ),
                decreases version.game_versions@.len() - i,
            {
                if self.mc_ver.is_compatible(&version.game_versions[i]) {
                    found = true;
                }
                i = i + 1;
            }
            found
        };
        let mut loader_ok = false;
        let mut j: usize = 0;
        while j < version.loaders.len()
            invariant
                j <= version.loaders@.len(),
                loader_ok <==> exists|t: int|
                    0 <= t < j && version.loaders@[t] == self.loader,
            decreases version.loaders@.len() - j,
        {
            if version.loaders[j] == self.loader {
                loader_ok = true;
            }
            j = j + 1;
        }
        let mut type_ok = false;
        let mut k: usize = 0;
        while k < self.version_types.len()
            invariant
                k <= self.version_types@.len(),
                type_ok <==> exists|t: int|
                    0 <= t < k && self.version_types@[t] == version.version_type,
            decreases self.version_types@.len() - k,
        {
            if self.version_types[k] == version.version_type {
                type_ok = true;
            }
            k = k + 1;
        }
        game_ok && loader_ok && type_ok
    }
}

/// The compatibility predicate over version values: equality, or a
/// patch-less release pin matching any version of the same minor line.
/// A snapshot or `latest` pin is never wildcard-compatible.
pub open spec fn spec_compatible(a: GameVersionModel, b: GameVersionModel) -> bool {
    version_eq(a, b) || (!a.snapshot && !a.latest && a.patch is None && a.major == b.major
        && a.minor == b.minor)
}

/// Every version is compatible with itself.
pub proof fn lemma_compatible_reflexive(a: GameVersionModel)
    ensures
        spec_compatible(a, a),
{
}

/// `latest` compares equal to `latest` and above every other version.
pub proof fn lemma_latest_greatest(a: GameVersionModel, b: GameVersionModel)
    requires
        a.latest,
    ensures
        b.latest ==> spec_compare(a, b) == VersionOrdering::Equal,
        !b.latest ==> spec_compare(a, b) == VersionOrdering::Greater,
{
}

/// A release and a snapshot are unordered when neither is `latest`.
pub proof fn lemma_release_snapshot_unordered(a: GameVersionModel, b: GameVersionModel)
    requires
        !a.latest,
        !b.latest,
        a.snapshot != b.snapshot,
    ensures
        spec_compare(a, b) == VersionOrdering::Unordered,
{
}

/// Parsing a canonical two-part release string `major.minor` and rendering
/// the parsed version yields the string again, with no warning.
pub proof fn lemma_round_trip_two_part(a: nat, b: nat, s: Seq<char>)
    requires
        a < 10,
        b < 100,
        s == dec_rep(a) + "."@ + dec_rep(b),
    ensures
        spec_parse(s).1 == false,
        spec_format(spec_parse(s).0) == s,
{
    crate::text::lemma_dec_rep_small(a);
    crate::text::lemma_dec_rep_small(b);
    crate::text::lemma_digit_char_val(a as int);
    crate::text::lemma_digit_char_val(b as int / 10);
    crate::text::lemma_digit_char_val(b as int % 10);
    if b < 10 {
        crate::text::lemma_digit_char_val(b as int);
    }
    reveal_strlit(".");
    reveal_strlit("latest");
    let da = dec_rep(a);
    let db = dec_rep(b);
    let m = release_model(a as int, b as int, None, None);
    assert(s.len() == 2 + db.len());
    assert(s[0] == da[0]);
    assert(s[1] == "."@[0]);
    assert(s[1] == '.');
    assert(s[2] == db[0]);
    assert(s != "latest"@);
    if b < 10 {
        assert(s.len() == 3);
        assert(parse_release(s) == Some(m));
    } else {
        assert(s.len() == 4);
        assert(s[3] == db[1]);
        assert(10 * digit_val(s[2]) + digit_val(s[3]) == b as int);
        assert(parse_release(s) == Some(m));
    }
    assert(spec_format(m) =~= s);
}

/// Parsing a canonical three-part release string `major.minor.patch` and
/// rendering the parsed version yields the string again, with no warning.
pub proof fn lemma_round_trip_three_part(a: nat, b: nat, c: nat, s: Seq<char>)
    requires
        a < 10,
        b < 100,
        c < 100,
        s == dec_rep(a) + "."@ + dec_rep(b) + "."@ + dec_rep(c),
    ensures
        spec_parse(s).1 == false,
        spec_format(spec_parse(s).0) == s,
{
    crate::text::lemma_dec_rep_small(a);
    crate::text::lemma_dec_rep_small(b);
    crate::text::lemma_dec_rep_small(c);
    crate::text::lemma_digit_char_val(a as int);
    crate::text::lemma_digit_char_val(b as int / 10);
    crate::text::lemma_digit_char_val(b as int % 10);
    crate::text::lemma_digit_char_val(c as int / 10);
    crate::text::lemma_digit_char_val(c as int % 10);
    if b < 10 {
        crate::text::lemma_digit_char_val(b as int);
    }
    if c < 10 {
        crate::text::lemma_digit_char_val(c as int);
    }
    reveal_strlit(".");
    reveal_strlit("latest");
    let m = release_model(a as int, b as int, Some(c as int), None);
    let da = dec_rep(a);
    let db = dec_rep(b);
    let dc = dec_rep(c);
    let head = dec_rep(a) + "."@ + dec_rep(b) + "."@;
    assert(head.len() == 3 + db.len());
    assert(s.len() == head.len() + dc.len());
    assert(s[0] == da[0]);
    assert(s[1] == "."@[0]);
    assert(s[1] == '.');
    assert(s[2] == db[0]);
    assert(s != "latest"@ || s.len() != 6);
    if b < 10 {
        assert(s[3] == "."@[0]);
        assert(s[3] == '.');
        assert(s[4] == dc[0]);
        if c < 10 {
            assert(s.len() == 5);
            assert(s != "latest"@);
            assert(parse_release(s) == Some(m));
        } else {
            assert(s.len() == 6);
            assert(s[5] == dc[1]);
            assert(!is_digit_char('.') && s[3] == '.');
            assert("latest"@[3] == 'e');
            assert(s != "latest"@);
            assert(10 * digit_val(s[4]) + digit_val(s[5]) == c as int);
            assert(parse_release(s) == Some(m));
        }
    } else {
        assert(s[3] == db[1]);
        assert(s[4] == "."@[0]);
        assert(s[4] == '.');
        assert(s[5] == dc[0]);
        assert(10 * digit_val(s[2]) + digit_val(s[3]) == b as int);
        if c < 10 {
            assert(s.len() == 6);
            assert("latest"@[1] == 'a');
            assert(!is_digit_char('a') && is_digit_char(s[1]) == false);
            assert(s[1] == '.' && '.' != 'a');
            assert(s != "latest"@);
            assert(parse_release(s) == Some(m));
        } else {
            assert(s.len() == 7);
            assert(s[6] == dc[1]);
            assert(s != "latest"@);
            assert(10 * digit_val(s[5]) + digit_val(s[6]) == c as int);
            assert(parse_release(s) == Some(m));
        }
    }
    assert(spec_format(m) =~= s);
}

} // verus!
