//! The pack manifest: a named set of mod entries pinned to specific
//! releases, together with the version descriptor they were resolved
//! against.  Entries are keyed by the mod's slug; keys are unique.

use vstd::prelude::*;

use crate::api::Version;
use crate::error::{ApiError, ApiErrorKind};
use crate::mc_info::{default_model, MCVersion, MVDescriptor, LOADER, VT};
use crate::text::{eq_ignore_case, lower_char, lower_seq, push_char, str_chars, str_eq};

verus! {

/// The action tokens are already lower case, and distinct.
proof fn lemma_lower_tokens_pack()
    ensures
        lower_seq("create"@) == "create"@,
        lower_seq("update"@) == "update"@,
        lower_seq("modify"@) == "modify"@,
        lower_seq("install"@) == "install"@,
        lower_seq("remove"@) == "remove"@,
        "create"@ != "update"@,
        "create"@ != "modify"@,
        "create"@ != "remove"@,
        "update"@ != "modify"@,
        "update"@ != "remove"@,
        "modify"@ != "remove"@,
        "install"@.len() == 7,
        "create"@.len() == 6,
        "update"@.len() == 6,
        "modify"@.len() == 6,
        "remove"@.len() == 6,
{
    reveal_strlit("create");
    reveal_strlit("update");
    reveal_strlit("modify");
    reveal_strlit("install");
    reveal_strlit("remove");
    assert(lower_seq("create"@) =~= "create"@);
    assert(lower_seq("update"@) =~= "update"@);
    assert(lower_seq("modify"@) =~= "modify"@);
    assert(lower_seq("install"@) =~= "install"@);
    assert(lower_seq("remove"@) =~= "remove"@);
    assert("create"@[0] != "update"@[0]);
    assert("create"@[0] != "modify"@[0]);
    assert("create"@[0] != "remove"@[0]);
    assert("update"@[0] != "modify"@[0]);
    assert("update"@[0] != "remove"@[0]);
    assert("modify"@[0] != "remove"@[0]);
}

/// The operations offered on packs.
#[derive(Clone, Copy, Debug, PartialEq, Eq, Structural)]
pub enum PackAction {
    CREATE,
    UPDATE,
    MODIFY,
    INSTALL,
    REMOVE,
}

impl PackAction {
    /// The lower-case token of this action.
    pub fn as_str(&self) -> (s: &'static str)
        ensures
            *self == PackAction::CREATE ==> s@ == "create"@,
            *self == PackAction::UPDATE ==> s@ == "update"@,
            *self == PackAction::MODIFY ==> s@ == "modify"@,
            *self == PackAction::INSTALL ==> s@ == "install"@,
            *self == PackAction::REMOVE ==> s@ == "remove"@,
    {
        match self {
            PackAction::CREATE => "create",
            PackAction::UPDATE => "update",
            PackAction::MODIFY => "modify",
            PackAction::INSTALL => "install",
            PackAction::REMOVE => "remove",
        }
    }

    /// Parses an action token, ignoring ASCII case.
    pub fn from_str(s: &str) -> (r: Result<PackAction, ApiError>)
        ensures
            lower_seq(s@) == "create"@ ==> r == Ok::<PackAction, ApiError>(PackAction::CREATE),
            lower_seq(s@) == "update"@ ==> r == Ok::<PackAction, ApiError>(PackAction::UPDATE),
            lower_seq(s@) == "modify"@ ==> r == Ok::<PackAction, ApiError>(PackAction::MODIFY),
            lower_seq(s@) == "install"@ ==> r == Ok::<PackAction, ApiError>(PackAction::INSTALL),
            lower_seq(s@) == "remove"@ ==> r == Ok::<PackAction, ApiError>(PackAction::REMOVE),
            r is Err <==> (lower_seq(s@) != "create"@ && lower_seq(s@) != "update"@ && lower_seq(
                s@,
            ) != "modify"@ && lower_seq(s@) != "install"@ && lower_seq(s@) != "remove"@),
            r is Err ==> r->Err_0.kind == ApiErrorKind::InvalidData,
    {
        proof {
            lemma_lower_tokens_pack();
        }
        if eq_ignore_case(s, "create") {
            Ok(PackAction::CREATE)
        } else if eq_ignore_case(s, "update") {
            Ok(PackAction::UPDATE)
        } else if eq_ignore_case(s, "modify") {
            Ok(PackAction::MODIFY)
        } else if eq_ignore_case(s, "install") {
            Ok(PackAction::INSTALL)
        } else if eq_ignore_case(s, "remove") {
            Ok(PackAction::REMOVE)
        } else {
            Err(ApiError::invalid_data())
        }
    }
}

/// One pinned mod: the snapshot of the release's primary file that the
/// pack records under the mod's slug.
#[derive(Clone, Debug)]
pub struct PackMod {
    pub name: String,
    pub verstion_type: VT,
    pub version_number: String,
    pub file_url: String,
    pub file_name: String,
    pub sha512: String,
}

impl PartialEq for PackMod {
    /// Two entries are considered the same mod when their names match.
    fn eq(&self, other: &Self) -> (r: bool) {
        str_eq(self.name.as_str(), other.name.as_str())
    }
}

impl vstd::std_specs::cmp::PartialEqSpecImpl for PackMod {
    open spec fn obeys_eq_spec() -> bool {
        true
    }

    open spec fn eq_spec(&self, other: &PackMod) -> bool {
        self.name@ == other.name@
    }
}

/// The entry a release pins: its fields are copied from the release and
/// its primary (first) file.
pub open spec fn entry_matches(e: PackMod, v: Version) -> bool {
    &&& v.files@.len() > 0
    &&& e.name@ == v.name@
    &&& e.verstion_type == v.version_type
    &&& e.version_number@ == v.version_number@
    &&& e.file_url@ == v.files@[0].url@
    &&& e.file_name@ == v.files@[0].filename@
    &&& e.sha512@ == v.files@[0].sha512@
}

/// Builds the manifest entry for a release from its primary file.  Fails
/// with `InvalidData` when the release lists no files.
pub fn entry_from(version: &Version) -> (r: Result<PackMod, ApiError>)
    ensures
        version.files@.len() > 0 ==> r is Ok && entry_matches(r->Ok_0, *version),
        version.files@.len() == 0 ==> r is Err && r->Err_0.kind == ApiErrorKind::InvalidData,
{
    if version.files.len() == 0 {
        return Err(ApiError::invalid_data());
    }
    Ok(
        PackMod {
            name: version.name.clone(),
            verstion_type: version.version_type,
            version_number: version.version_number.clone(),
            file_url: version.files[0].url.clone(),
            file_name: version.files[0].filename.clone(),
            sha512: version.files[0].sha512.clone(),
        },
    )
}

/// Storage normalization of one character of a pack name: spaces become
/// hyphens and ASCII letters are folded to lower case.
pub open spec fn norm_char(c: char) -> char {
    if c == ' ' {
        '-'
    } else {
        lower_char(c)
    }
}

/// The normalized form of a pack name, which identifies the pack.
pub open spec fn normalized_name(s: Seq<char>) -> Seq<char> {
    s.map_values(|c: char| norm_char(c))
}

/// Normalizes a pack name for storage and identity.
pub fn normalize_name(name: &str) -> (out: String)
    ensures
        out@ == normalized_name(name@),
{
    let cs = str_chars(name);
    let mut out = String::new();
    let mut i: usize = 0;
    while i < cs.len()
        invariant
            i <= cs@.len(),
            cs@ =~= name@,
            out@ =~= normalized_name(name@).subrange(0, i as int),
        decreases cs@.len() - i,
    {
        let c = cs[i];
        let n = if c == ' ' {
            '-'
        } else {
            crate::text::to_lower_char(c)
        };
        push_char(&mut out, n);
        i = i + 1;
        assert(out@ =~= normalized_name(name@).subrange(0, i as int));
    }
    assert(out@ =~= normalized_name(name@));
    out
}

/// The file name a pack is persisted under: the normalized pack name with
/// the pack extension.
pub fn pack_file_name(name: &str) -> (out: String)
    ensures
        out@ == normalized_name(name@) + ".mtpck"@,
{
    let mut out = normalize_name(name);
    out.append(".mtpck");
    out
}

/// How a pack changes when an entry is pinned under a slug: an entry
/// already pinned under that slug is replaced in place, otherwise the new
/// entry is appended; name, descriptor and all other entries are kept.
pub open spec fn upserted(before: Pack, after: Pack, slug: Seq<char>, m: PackMod) -> bool {
    &&& after.name@ == before.name@
    &&& after.version_info == before.version_info
    &&& after.has_key(slug)
    &&& before.has_key(slug) ==> after.num_entries() == before.num_entries() && exists|i: int|
        {
            &&& 0 <= i < before.num_entries()
            &&& before.key_at(i) == slug
            &&& after.key_at(i) == slug
            &&& after.mod_at(i) == m
            &&& forall|j: int|
                0 <= j < after.num_entries() && j != i ==> after.key_at(j) == before.key_at(j)
                    && after.mod_at(j) == before.mod_at(j)
        }
    &&& !before.has_key(slug) ==> {
        &&& after.num_entries() == before.num_entries() + 1
        &&& forall|j: int|
            0 <= j < before.num_entries() ==> after.key_at(j) == before.key_at(j) && after.mod_at(
                j,
            ) == before.mod_at(j)
        &&& after.key_at(before.num_entries() as int) == slug
        &&& after.mod_at(before.num_entries() as int) == m
    }
}

/// One download that installing a pack performs: the destination path,
/// the source URL, and the digest the downloaded bytes must have.
#[derive(Clone, Debug)]
pub struct DownloadJob {
    pub path: String,
    pub url: String,
    pub sha512: String,
}

/// The release-type tokens of a descriptor, each followed by a space.
pub open spec fn vts_rep(vts: Seq<VT>) -> Seq<char>
    decreases vts.len(),
{
    if vts.len() == 0 {
        Seq::empty()
    } else {
        vts_rep(vts.drop_last()) + crate::mc_info::vt_token(vts.last()) + " "@
    }
}

/// A pack: its name, the descriptor it is resolved against, and the
/// entries pinned under their slugs.  Slugs are unique.
#[derive(Clone, Debug)]
pub struct Pack {
    pub name: String,
    pub version_info: MVDescriptor,
    pub mods: Vec<(String, PackMod)>,
}

impl Pack {
    /// How many entries the pack holds.
    pub open spec fn num_entries(self) -> nat {
        self.mods@.len()
    }

    /// The slug of the entry at a position.
    pub open spec fn key_at(self, i: int) -> Seq<char> {
        self.mods@[i].0@
    }

    /// The entry at a position.
    pub open spec fn mod_at(self, i: int) -> PackMod {
        self.mods@[i].1
    }

    /// Whether some entry is pinned under the slug.
    pub open spec fn has_key(self, slug: Seq<char>) -> bool {
        exists|i: int| 0 <= i < self.num_entries() && self.key_at(i) == slug
    }

    /// Well-formed: no slug occurs twice.
    pub open spec fn wf(self) -> bool {
        forall|i: int, j: int|
            0 <= i < j < self.num_entries() ==> self.key_at(i) != self.key_at(j)
    }

    /// A new, empty pack with the default descriptor: any release type,
    /// the fabric loader, and the default game version.
    pub fn new() -> (p: Self)
        ensures
            p.wf(),
            p.num_entries() == 0,
            p.name@.len() == 0,
            p.version_info.mc_ver.model() == default_model(),
            p.version_info.version_types@ =~= seq![VT::RELEASE, VT::BETA, VT::ALPHA],
            p.version_info.loader == LOADER::FABRIC,
    {
        let mut types: Vec<VT> = Vec::new();
        types.push(VT::RELEASE);
        types.push(VT::BETA);
        types.push(VT::ALPHA);
        let p = Pack {
            name: String::new(),
            version_info: MVDescriptor {
                mc_ver: MCVersion::new(),
                version_types: types,
                loader: LOADER::FABRIC,
            },
            mods: Vec::new(),
        };
        assert(p.version_info.version_types@ =~= seq![VT::RELEASE, VT::BETA, VT::ALPHA]);
        p
    }

    /// The position of the entry pinned under the slug, if any.
    pub fn find_entry(&self, slug: &str) -> (r: Option<usize>)
        ensures
            match r {
                Some(i) => i < self.num_entries() && self.key_at(i as int) == slug@,
                None => !self.has_key(slug@),
            },
    {
        let mut i: usize = 0;
        while i < self.mods.len()
            invariant
                i <= self.mods@.len(),
                forall|j: int| 0 <= j < i ==> self.key_at(j) != slug@,
            decreases self.mods@.len() - i,
        {
            if str_eq(self.mods[i].0.as_str(), slug) {
                return Some(i);
            }
            i = i + 1;
        }
        None
    }

    /// Whether an entry is pinned under the slug.
    pub fn has_entry(&self, slug: &str) -> (r: bool)
        ensures
            r == self.has_key(slug@),
    {
        match self.find_entry(slug) {
            Some(_) => true,
            None => false,
        }
    }

    /// The entry pinned under the slug, if any.
    pub fn get_entry(&self, slug: &str) -> (r: Option<&PackMod>)
        ensures
            match r {
                Some(e) => exists|i: int|
                    0 <= i < self.num_entries() && self.key_at(i) == slug@ && *e == self.mod_at(
                        i,
                    ),
                None => !self.has_key(slug@),
            },
    {
        match self.find_entry(slug) {
            Some(i) => Some(&self.mods[i].1),
            None => None,
        }
    }

    /// Pins an entry under a slug: an existing entry for that slug is
    /// replaced in place, otherwise the entry is appended.
    pub fn insert_entry(&mut self, slug: String, m: PackMod)
        requires
            old(self).wf(),
        ensures
            final(self).wf(),
            upserted(*old(self), *final(self), slug@, m),
    {
        let ghost slug_view = slug@;
        match self.find_entry(slug.as_str()) {
            Some(i) => {
                self.mods[i] = (slug, m);
                proof {
                    assert(self.key_at(i as int) == slug_view);
                    assert forall|j: int|
                        0 <= j < self.num_entries() && j != i as int implies self.key_at(j)
                            == old(self).key_at(j) && self.mod_at(j) == old(self).mod_at(j) by {
                        assert(self.mods@[j] == old(self).mods@[j]);
                    }
                    assert forall|a: int, b: int|
                        0 <= a < b < self.num_entries() implies self.key_at(a) != self.key_at(
                        b,
                    ) by {
                        if a == i as int {
                            assert(self.key_at(a) == old(self).key_at(a));
                        } else if b == i as int {
                            assert(self.key_at(b) == old(self).key_at(b));
                        }
                        assert(old(self).key_at(a) != old(self).key_at(b));
                    }
                }
            },
            None => {
                self.mods.push((slug, m));
                proof {
                    let n = old(self).num_entries() as int;
                    assert(self.key_at(n) == slug_view);
                    assert(self.mod_at(n) == m);
                    assert forall|j: int|
                        0 <= j < n implies self.key_at(j) == old(self).key_at(j) && self.mod_at(
                        j,
                    ) == old(self).mod_at(j) by {
                        assert(self.mods@[j] == old(self).mods@[j]);
                    }
                    assert forall|a: int, b: int|
                        0 <= a < b < self.num_entries() implies self.key_at(a) != self.key_at(
                        b,
                    ) by {
                        if b < n {
                            assert(old(self).key_at(a) != old(self).key_at(b));
                        } else {
                            assert(self.key_at(b) == slug_view);
                            assert(self.key_at(a) == old(self).key_at(a));
                            assert(!old(self).has_key(slug_view));
                        }
                    }
                }
            },
        }
    }

    /// Removes the entry pinned under the slug, reporting whether one was
    /// there.
    pub fn remove_entry(&mut self, slug: &str) -> (found: bool)
        requires
            old(self).wf(),
        ensures
            final(self).wf(),
            final(self).name@ == old(self).name@,
            final(self).version_info == old(self).version_info,
            found == old(self).has_key(slug@),
            !final(self).has_key(slug@),
            !found ==> final(self).num_entries() == old(self).num_entries() && forall|j: int|
                0 <= j < final(self).num_entries() ==> final(self).key_at(j) == old(self).key_at(
                    j,
                ) && final(self).mod_at(j) == old(self).mod_at(j),
            found ==> final(self).num_entries() + 1 == old(self).num_entries() && exists|i: int|
                {
                    &&& 0 <= i < old(self).num_entries()
                    &&& old(self).key_at(i) == slug@
                    &&& forall|j: int|
                        0 <= j < i ==> final(self).key_at(j) == old(self).key_at(j) && final(self).mod_at(j) == old(self).mod_at(j)
                    &&& forall|j: int|
                        i <= j < final(self).num_entries() ==> final(self).key_at(j) == old(self).key_at(j + 1) && final(self).mod_at(j) == old(self).mod_at(j + 1)
                },
    {
        match self.find_entry(slug) {
            Some(i) => {
                self.mods.remove(i);
                proof {
                    assert forall|t: int|
                        0 <= t < self.num_entries() implies self.key_at(t) == (if t < i as int {
                        old(self).key_at(t)
                    } else {
                        old(self).key_at(t + 1)
                    }) && self.mod_at(t) == (if t < i as int {
                        old(self).mod_at(t)
                    } else {
                        old(self).mod_at(t + 1)
                    }) by {
                        if t < i as int {
                            assert(self.mods@[t] == old(self).mods@[t]);
                        } else {
                            assert(self.mods@[t] == old(self).mods@[t + 1]);
                        }
                    }
                    assert forall|t: int|
                        0 <= t < self.num_entries() implies self.key_at(t) != slug@ by {
                        if t < i as int {
                            assert(old(self).key_at(t) != old(self).key_at(i as int));
                        } else {
                            assert(old(self).key_at(t + 1) != old(self).key_at(i as int));
                        }
                    }
                }
                true
            },
            None => false,
        }
    }

    /// The download jobs that install this pack into a directory: one job
    /// per entry, in pack order, each naming the destination path, the
    /// source URL and the expected digest.
    pub fn install_jobs(&self, install_path: &str) -> (jobs: Vec<DownloadJob>)
        ensures
            jobs@.len() == self.num_entries(),
            forall|i: int|
                0 <= i < jobs@.len() ==> jobs@[i].path@ == install_path@ + "/"@
                    + self.mod_at(i).file_name@ && jobs@[i].url@ == self.mod_at(i).file_url@
                    && jobs@[i].sha512@ == self.mod_at(i).sha512@,
    {
        let mut jobs: Vec<DownloadJob> = Vec::new();
        let mut i: usize = 0;
        while i < self.mods.len()
            invariant
                i <= self.mods@.len(),
                jobs@.len() == i,
                forall|j: int|
                    0 <= j < i ==> jobs@[j].path@ == install_path@ + "/"@ + self.mod_at(
                        j,
                    ).file_name@ && jobs@[j].url@ == self.mod_at(j).file_url@ && jobs@[j].sha512@
                        == self.mod_at(j).sha512@,
            decreases self.mods@.len() - i,
        {
            let mut path = String::from_str(install_path);
            path.append("/");
            path.append(self.mods[i].1.file_name.as_str());
            let job = DownloadJob {
                path,
                url: self.mods[i].1.file_url.clone(),
                sha512: self.mods[i].1.sha512.clone(),
            };
            jobs.push(job);
            i = i + 1;
        }
        jobs
    }

    /// One line describing the pack: its name, game version, accepted
    /// release types and loader.
    pub fn describe(&self) -> (out: String)
        ensures
            out@ == "Name: "@ + self.name@ + ", MC Version: "@ + crate::mc_info::spec_format(
                self.version_info.mc_ver.model(),
            ) + ", ReleaseTypes: "@ + vts_rep(self.version_info.version_types@)
                + ", ModLoader: "@ + crate::mc_info::loader_token(self.version_info.loader),
    {
        let mut out = String::new();
        out.append("Name: ");
        out.append(self.name.as_str());
        out.append(", MC Version: ");
        let ver = self.version_info.mc_ver.to_version_string();
        out.append(ver.as_str());
        out.append(", ReleaseTypes: ");
        let ghost head = out@;
        let vts = &self.version_info.version_types;
        let mut i: usize = 0;
        while i < vts.len()
            invariant
                i <= vts@.len(),
                out@ =~= head + vts_rep(vts@.take(i as int)),
            decreases vts@.len() - i,
        {
            let ghost prefix = vts@.take(i as int);
            out.append(vts[i].as_str());
            out.append(" ");
            i = i + 1;
            proof {
                let now = vts@.take(i as int);
                assert(now.drop_last() =~= prefix);
                assert(now.last() == vts@[i - 1]);
                assert(out@ =~= head + vts_rep(now));
            }
        }
        proof {
            assert(vts@.take(vts@.len() as int) =~= vts@);
        }
        out.append(", ModLoader: ");
        out.append(self.version_info.loader.as_str());
        assert(out@ =~= "Name: "@ + self.name@ + ", MC Version: "@ + crate::mc_info::spec_format(
            self.version_info.mc_ver.model(),
        ) + ", ReleaseTypes: "@ + vts_rep(self.version_info.version_types@) + ", ModLoader: "@
            + crate::mc_info::loader_token(self.version_info.loader));
        out
    }

    /// The slugs of all entries, in pack order.
    pub fn slugs(&self) -> (out: Vec<String>)
        ensures
            out@.len() == self.num_entries(),
            forall|i: int| 0 <= i < out@.len() ==> out@[i]@ == self.key_at(i),
    {
        let mut out: Vec<String> = Vec::new();
        let mut i: usize = 0;
        while i < self.mods.len()
            invariant
                i <= self.mods@.len(),
                out@.len() == i,
                forall|j: int| 0 <= j < i ==> out@[j]@ == self.key_at(j),
            decreases self.mods@.len() - i,
        {
            let s = self.mods[i].0.clone();
            out.push(s);
            i = i + 1;
        }
        out
    }
}

} // verus!
