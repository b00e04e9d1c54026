//! The dependency resolver: a worklist over mod slugs.  Resolving one slug
//! pins its release in the pack and queues the project ids of the
//! release's required dependencies; each id is normalized to its canonical
//! slug and enqueued once — the seen set is checked before enqueuing, so a
//! pair of mutually required mods cannot be walked twice.
//!
//! The resolver decides; the registry calls themselves are performed by
//! the caller, which hands each reply back to the next step.  A failed
//! step is reported and does not stop the remaining work.

use vstd::prelude::*;

use crate::api::{required_ids, selected_index, Version};
use crate::error::{ApiError, ApiErrorKind};
use crate::pack::{entry_matches, upserted, Pack, PackMod};
use crate::text::{vec_contains_str, views_of};

verus! {

/// What the resolver asks the registry for next: the releases of a slug,
/// or the canonical slug of a project id.
#[derive(Clone, Debug)]
pub enum RegistryRequest {
    Versions(String),
    ProjectSlug(String),
}

/// What one resolution step did.
#[derive(Clone, Debug)]
pub enum ResolveEvent {
    Added { slug: String, version_number: String },
    Failed { slug: String, error: ApiError },
}

/// Whether some string of the sequence holds the given characters.
pub open spec fn contains_str(v: Seq<String>, s: Seq<char>) -> bool {
    exists|i: int| 0 <= i < v.len() && v[i]@ == s
}

/// The resolver's state: slugs whose releases are still to be fetched,
/// project ids still to be normalized into slugs, and every slug ever
/// enqueued.
#[derive(Clone, Debug)]
pub struct Resolver {
    pub pending_slugs: Vec<String>,
    pub pending_ids: Vec<String>,
    pub seen: Vec<String>,
}

impl Resolver {
    /// A resolver about to resolve one mod.
    pub fn new(initial_slug: String) -> (r: Resolver)
        ensures
            r.pending_slugs@.len() == 1 && r.pending_slugs@[0]@ == initial_slug@,
            r.pending_ids@.len() == 0,
            r.seen@.len() == 1 && r.seen@[0]@ == initial_slug@,
    {
        let seen_slug = initial_slug.clone();
        let mut pending_slugs: Vec<String> = Vec::new();
        pending_slugs.push(initial_slug);
        let mut seen: Vec<String> = Vec::new();
        seen.push(seen_slug);
        Resolver { pending_slugs, pending_ids: Vec::new(), seen }
    }

    /// True when nothing is left to do.
    pub fn done(&self) -> (r: bool)
        ensures
            r == (self.pending_slugs@.len() == 0 && self.pending_ids@.len() == 0),
    {
        self.pending_slugs.len() == 0 && self.pending_ids.len() == 0
    }

    /// The next registry call to make: ids are normalized before further
    /// slugs are resolved.
    pub fn next_request(&self) -> (r: Option<RegistryRequest>)
        ensures
            self.pending_ids@.len() > 0 ==> (r matches Some(RegistryRequest::ProjectSlug(id))
                && id@ == self.pending_ids@.last()@),
            self.pending_ids@.len() == 0 && self.pending_slugs@.len() > 0 ==> (r matches Some(
                RegistryRequest::Versions(s),
            ) && s@ == self.pending_slugs@.last()@),
            self.pending_ids@.len() == 0 && self.pending_slugs@.len() == 0 ==> r is None,
    {
        if self.pending_ids.len() > 0 {
            let id = self.pending_ids[self.pending_ids.len() - 1].clone();
            Some(RegistryRequest::ProjectSlug(id))
        } else if self.pending_slugs.len() > 0 {
            let s = self.pending_slugs[self.pending_slugs.len() - 1].clone();
            Some(RegistryRequest::Versions(s))
        } else {
            None
        }
    }

    /// Takes the reply to a `ProjectSlug` request: the slug is enqueued
    /// unless it was enqueued before or the pack already pins it; a failed
    /// lookup (`None`) just drops the id.
    pub fn on_project_slug(&mut self, pack: &Pack, reply: Option<String>)
        requires
            old(self).pending_ids@.len() > 0,
        ensures
            final(self).pending_ids@ == old(self).pending_ids@.drop_last(),
            match reply {
                Some(s) => if !contains_str(old(self).seen@, s@) && !pack.has_key(s@) {
                    final(self).pending_slugs@.len() == old(self).pending_slugs@.len() + 1
                        && final(self).pending_slugs@.last()@ == s@ && (forall|j: int|
                        0 <= j < old(self).pending_slugs@.len() ==> final(self).pending_slugs@[j]
                            == old(self).pending_slugs@[j]) && final(self).seen@.len() == old(self).seen@.len() + 1 && final(self).seen@.last()@ == s@ && (forall|j: int|
                        0 <= j < old(self).seen@.len() ==> final(self).seen@[j] == old(self).seen@[j])
                } else {
                    final(self).pending_slugs@ == old(self).pending_slugs@ && final(self).seen@
                        == old(self).seen@
                },
                None => final(self).pending_slugs@ == old(self).pending_slugs@ && final(self).seen@ == old(self).seen@,
            },
    {
        self.pending_ids.pop();
        match reply {
            Some(s) => {
                if !vec_contains_str(&self.seen, s.as_str()) && !pack.has_entry(s.as_str()) {
                    let for_seen = s.clone();
                    self.seen.push(for_seen);
                    self.pending_slugs.push(s);
                }
            },
            None => {},
        }
    }

    /// Takes the reply to a `Versions` request for the slug at the back of
    /// the queue.  On success the satisfying release is pinned in the pack
    /// and the project ids of its required dependencies are queued for
    /// normalization; on any failure the pack is left as it was and the
    /// failure is reported, so the remaining worklist still runs.
    pub fn on_versions(&mut self, pack: &mut Pack, reply: Option<&Vec<Version>>) -> (ev:
        ResolveEvent)
        requires
            old(self).pending_slugs@.len() > 0,
            old(pack).wf(),
        ensures
            final(pack).wf(),
            final(self).pending_slugs@ == old(self).pending_slugs@.drop_last(),
            final(self).seen@ == old(self).seen@,
            ({
                let slug = old(self).pending_slugs@.last()@;
                let d = old(pack).version_info;
                match reply {
                    None => *final(pack) == *old(pack) && final(self).pending_ids@ == old(self).pending_ids@ && (ev matches ResolveEvent::Failed { slug: s, error } && s@
                        == slug && error.kind == ApiErrorKind::TransportFailure),
                    Some(versions) => match selected_index(versions@, d) {
                        None => *final(pack) == *old(pack) && final(self).pending_ids@ == old(self).pending_ids@ && (ev matches ResolveEvent::Failed { slug: s, error }
                            && s@ == slug && error.kind == ApiErrorKind::NotFound),
                        Some(i) => if versions@[i].files@.len() == 0 {
                            *final(pack) == *old(pack) && final(self).pending_ids@ == old(self).pending_ids@ && (ev matches ResolveEvent::Failed { slug: s, error }
                                && s@ == slug && error.kind == ApiErrorKind::InvalidData)
                        } else {
                            (exists|e: PackMod|
                                entry_matches(e, versions@[i]) && upserted(
                                    *old(pack),
                                    *final(pack),
                                    slug,
                                    e,
                                )) && views_of(final(self).pending_ids@) == views_of(old(self).pending_ids@) + required_ids(
                                versions@[i].dependencies@,
                            ) && (ev matches ResolveEvent::Added { slug: s, version_number } && s@
                                == slug && version_number@ == versions@[i].version_number@)
                        },
                    },
                }
            }),
    {
        let slug = self.pending_slugs.pop().unwrap();
        match reply {
            None => ResolveEvent::Failed { slug, error: ApiError::transport_failure() },
            Some(versions) => {
                match crate::api::select_version(versions, &pack.version_info) {
                    Err(e) => ResolveEvent::Failed { slug, error: e },
                    Ok(i) => {
                        match crate::pack::entry_from(&versions[i]) {
                            Err(e) => ResolveEvent::Failed { slug, error: e },
                            Ok(entry) => {
                                let version_number = versions[i].version_number.clone();
                                let event_slug = slug.clone();
                                let ids = crate::api::required_dep_ids(&versions[i]);
                                let ghost req = required_ids(versions@[i as int].dependencies@);
                                let ghost old_ids = self.pending_ids@;
                                let ghost slugs_now = self.pending_slugs@;
                                let ghost seen_now = self.seen@;
                                proof {
                                    assert(ids@.len() == req.len());
                                    assert forall|j: int| 0 <= j < ids@.len() implies ids@[j]@
                                        == req[j] by {
                                        assert(views_of(ids@)[j] == req[j]);
                                    }
                                }
                                let mut k: usize = 0;
                                while k < ids.len()
                                    invariant
                                        k <= ids@.len(),
                                        self.pending_slugs@ == slugs_now,
                                        self.seen@ == seen_now,
                                        self.pending_ids@.len() == old_ids.len() + k,
                                        forall|j: int|
                                            0 <= j < old_ids.len() ==> self.pending_ids@[j]
                                                == old_ids[j],
                                        forall|j: int|
                                            0 <= j < k ==> self.pending_ids@[old_ids.len() + j]@
                                                == ids@[j]@,
                                    decreases ids@.len() - k,
                                {
                                    let id = ids[k].clone();
                                    self.pending_ids.push(id);
                                    k = k + 1;
                                }
                                proof {
                                    assert forall|j: int|
                                        0 <= j < self.pending_ids@.len() implies views_of(self.pending_ids@)[j] == (views_of(old_ids) + req)[j] by {
                                        if j < old_ids.len() {
                                            assert(self.pending_ids@[j] == old_ids[j]);
                                        } else {
                                            assert(self.pending_ids@[j]@ == ids@[j - old_ids.len()]@);
                                            assert(ids@[j - old_ids.len()]@ == req[j - old_ids.len()]);
                                        }
                                    }
                                    assert(views_of(self.pending_ids@) =~= views_of(old_ids) + req);
                                }
                                pack.insert_entry(slug, entry);
                                ResolveEvent::Added { slug: event_slug, version_number }
                            },
                        }
                    },
                }
            },
        }
    }
}

} // verus!
