//! The update reconciler: every entry of a pack is re-resolved against the
//! pack's descriptor; an entry whose resolving release carries another
//! version number is replaced wholesale, and the change is reported.  One
//! entry's failure leaves its pin in place and does not stop the others.
//! The pack is persisted only when at least one entry changed.

use vstd::prelude::*;

use crate::api::{selected_index, Version};
use crate::error::{ApiError, ApiErrorKind};
use crate::pack::{entry_matches, Pack};

verus! {

/// What reconciling one entry did.
#[derive(Clone, Debug)]
pub enum UpdateEvent {
    Changed { slug: String, old_version: String, new_version: String },
    Unchanged { slug: String },
    Failed { slug: String, error: ApiError },
}

/// Reconciles the entry at `idx` against the releases fetched for its
/// slug (`None` when the fetch itself failed).  The entry is replaced in
/// place when the resolving release's version number differs from the
/// pinned one; on any failure the old entry is kept.
pub fn update_entry(pack: &mut Pack, idx: usize, fetched: Option<&Vec<Version>>) -> (ev:
    UpdateEvent)
    requires
        old(pack).wf(),
        idx < old(pack).num_entries(),
    ensures
        final(pack).wf(),
        final(pack).name@ == old(pack).name@,
        final(pack).version_info == old(pack).version_info,
        final(pack).num_entries() == old(pack).num_entries(),
        forall|j: int| 0 <= j < final(pack).num_entries() ==> final(pack).key_at(j) == old(pack).key_at(j),
        forall|j: int|
            0 <= j < final(pack).num_entries() && j != idx ==> final(pack).mod_at(j) == old(pack).mod_at(j),
        ({
            let slug = old(pack).key_at(idx as int);
            let d = old(pack).version_info;
            let pinned = old(pack).mod_at(idx as int);
            match fetched {
                None => final(pack).mod_at(idx as int) == pinned && (ev matches
                    UpdateEvent::Failed { slug: s, error } && s@ == slug && error.kind
                    == ApiErrorKind::TransportFailure),
                Some(versions) => match selected_index(versions@, d) {
                    None => final(pack).mod_at(idx as int) == pinned && (ev matches
                        UpdateEvent::Failed { slug: s, error } && s@ == slug && error.kind
                        == ApiErrorKind::NotFound),
                    Some(i) => if versions@[i].version_number@ == pinned.version_number@ {
                        final(pack).mod_at(idx as int) == pinned && (ev matches
                            UpdateEvent::Unchanged { slug: s } && s@ == slug)
                    } else if versions@[i].files@.len() == 0 {
                        final(pack).mod_at(idx as int) == pinned && (ev matches
                            UpdateEvent::Failed { slug: s, error } && s@ == slug && error.kind
                            == ApiErrorKind::InvalidData)
                    } else {
                        entry_matches(final(pack).mod_at(idx as int), versions@[i]) && (ev
                            matches UpdateEvent::Changed { slug: s, old_version, new_version }
                            && s@ == slug && old_version@ == pinned.version_number@
                            && new_version@ == versions@[i].version_number@)
                    },
                },
            }
        }),
{
    let slug = pack.mods[idx].0.clone();
    match fetched {
        None => UpdateEvent::Failed { slug, error: ApiError::transport_failure() },
        Some(versions) => {
            match crate::api::select_version(versions, &pack.version_info) {
                Err(e) => UpdateEvent::Failed { slug, error: e },
                Ok(i) => {
                    if crate::text::str_eq(
                        versions[i].version_number.as_str(),
                        pack.mods[idx].1.version_number.as_str(),
                    ) {
                        UpdateEvent::Unchanged { slug }
                    } else {
                        match crate::pack::entry_from(&versions[i]) {
                            Err(e) => UpdateEvent::Failed { slug, error: e },
                            Ok(entry) => {
                                let old_version = pack.mods[idx].1.version_number.clone();
                                let new_version = versions[i].version_number.clone();
                                let key = pack.mods[idx].0.clone();
                                pack.mods[idx] = (key, entry);
                                proof {
                                    assert forall|a: int, b: int|
                                        0 <= a < b < pack.num_entries() implies pack.key_at(a)
                                            != pack.key_at(b) by {
                                        if a != idx as int && b != idx as int {
                                            assert(pack.mods@[a] == old(pack).mods@[a]);
                                            assert(pack.mods@[b] == old(pack).mods@[b]);
                                        }
                                        assert(old(pack).key_at(a) != old(pack).key_at(b));
                                    }
                                }
                                UpdateEvent::Changed { slug, old_version, new_version }
                            },
                        }
                    }
                },
            }
        },
    }
}

/// Whether any reconciliation step changed an entry — exactly then the
/// pack is persisted again.
pub fn any_changed(events: &Vec<UpdateEvent>) -> (r: bool)
    ensures
        r == exists|i: int| 0 <= i < events@.len() && events@[i] is Changed,
{
    let mut i: usize = 0;
    while i < events.len()
        invariant
            i <= events@.len(),
            forall|j: int| 0 <= j < i ==> !(events@[j] is Changed),
        decreases events@.len() - i,
    {
        match &events[i] {
            UpdateEvent::Changed { .. } => {
                return true;
            },
            _ => {},
        }
        i = i + 1;
    }
    false
}

} // verus!
