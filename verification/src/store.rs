//! The pack store: the set of persisted packs, identified by their
//! normalized names.  Opening or removing a pack that was never saved
//! fails with `NotFound`.  The persistence layer mirrors this store on
//! disk, one file per pack.

use vstd::prelude::*;

use crate::error::{ApiError, ApiErrorKind};
use crate::pack::{normalize_name, normalized_name, Pack};
use crate::text::str_eq;

verus! {

/// The packs that exist, each under its normalized name.
#[derive(Clone, Debug)]
pub struct PackStore {
    pub packs: Vec<Pack>,
}

impl PackStore {
    /// Whether a pack with the given normalized name exists.
    pub open spec fn has_pack(self, norm: Seq<char>) -> bool {
        exists|i: int|
            0 <= i < self.packs@.len() && normalized_name(self.packs@[i].name@) == norm
    }

    /// Well-formed: no two packs share a normalized name.
    pub open spec fn wf(self) -> bool {
        forall|i: int, j: int|
            0 <= i < j < self.packs@.len() ==> normalized_name(self.packs@[i].name@)
                != normalized_name(self.packs@[j].name@)
    }

    /// An empty store.
    pub fn new() -> (s: Self)
        ensures
            s.wf(),
            s.packs@.len() == 0,
    {
        PackStore { packs: Vec::new() }
    }

    /// The position of the pack stored under the name, if any.
    fn find(&self, name: &str) -> (r: Option<usize>)
        ensures
            match r {
                Some(i) => i < self.packs@.len() && normalized_name(self.packs@[i as int].name@)
                    == normalized_name(name@),
                None => !self.has_pack(normalized_name(name@)),
            },
    {
        let wanted = normalize_name(name);
        let mut i: usize = 0;
        while i < self.packs.len()
            invariant
                i <= self.packs@.len(),
                wanted@ == normalized_name(name@),
                forall|j: int|
                    0 <= j < i ==> normalized_name(self.packs@[j].name@) != normalized_name(
                        name@,
                    ),
            decreases self.packs@.len() - i,
        {
            let candidate = normalize_name(self.packs[i].name.as_str());
            if str_eq(candidate.as_str(), wanted.as_str()) {
                return Some(i);
            }
            i = i + 1;
        }
        None
    }

    /// Opens the pack stored under the name; `NotFound` when no pack with
    /// that normalized name was ever saved.
    pub fn open(&self, name: &str) -> (r: Result<&Pack, ApiError>)
        ensures
            match r {
                Ok(p) => exists|i: int|
                    0 <= i < self.packs@.len() && *p == self.packs@[i] && normalized_name(
                        self.packs@[i].name@,
                    ) == normalized_name(name@),
                Err(e) => e.kind == ApiErrorKind::NotFound && !self.has_pack(
                    normalized_name(name@),
                ),
            },
    {
        match self.find(name) {
            Some(i) => Ok(&self.packs[i]),
            None => Err(ApiError::not_found()),
        }
    }

    /// Saves a pack under its normalized name, replacing any pack already
    /// stored under it.
    pub fn save(&mut self, p: Pack)
        requires
            old(self).wf(),
        ensures
            final(self).wf(),
            final(self).has_pack(normalized_name(p.name@)),
            old(self).has_pack(normalized_name(p.name@)) ==> final(self).packs@.len() == old(
                self,
            ).packs@.len() && exists|i: int|
                {
                    &&& 0 <= i < old(self).packs@.len()
                    &&& normalized_name(old(self).packs@[i].name@) == normalized_name(p.name@)
                    &&& final(self).packs@[i] == p
                    &&& forall|j: int|
                        0 <= j < final(self).packs@.len() && j != i ==> final(self).packs@[j]
                            == old(self).packs@[j]
                },
            !old(self).has_pack(normalized_name(p.name@)) ==> final(self).packs@ == old(
                self,
            ).packs@.push(p),
    {
        match self.find(p.name.as_str()) {
            Some(i) => {
                self.packs[i] = p;
                proof {
                    assert(normalized_name(self.packs@[i as int].name@) == normalized_name(
                        p.name@,
                    ));
                    assert forall|a: int, b: int|
                        0 <= a < b < self.packs@.len() implies normalized_name(
                        self.packs@[a].name@,
                    ) != normalized_name(self.packs@[b].name@) by {
                        if a != i as int && b != i as int {
                            assert(self.packs@[a] == old(self).packs@[a]);
                            assert(self.packs@[b] == old(self).packs@[b]);
                        }
                        assert(normalized_name(old(self).packs@[a].name@) != normalized_name(
                            old(self).packs@[b].name@,
                        ));
                    }
                }
            },
            None => {
                self.packs.push(p);
                proof {
                    let n = old(self).packs@.len() as int;
                    assert(normalized_name(self.packs@[n].name@) == normalized_name(p.name@));
                    assert forall|a: int, b: int|
                        0 <= a < b < self.packs@.len() implies normalized_name(
                        self.packs@[a].name@,
                    ) != normalized_name(self.packs@[b].name@) by {
                        if b < n {
                            assert(self.packs@[a] == old(self).packs@[a]);
                            assert(self.packs@[b] == old(self).packs@[b]);
                            assert(normalized_name(old(self).packs@[a].name@)
                                != normalized_name(old(self).packs@[b].name@));
                        } else {
                            assert(self.packs@[a] == old(self).packs@[a]);
                            assert(self.packs@[b] == p);
                            assert(!old(self).has_pack(normalized_name(p.name@)));
                        }
                    }
                }
            },
        }
    }

    /// Removes the pack stored under the name; `NotFound` when no pack
    /// with that normalized name exists.
    pub fn remove(&mut self, name: &str) -> (r: Result<(), ApiError>)
        requires
            old(self).wf(),
        ensures
            final(self).wf(),
            match r {
                Ok(()) => old(self).has_pack(normalized_name(name@)) && !final(self).has_pack(
                    normalized_name(name@),
                ) && final(self).packs@.len() + 1 == old(self).packs@.len() && exists|i: int|
                    {
                        &&& 0 <= i < old(self).packs@.len()
                        &&& normalized_name(old(self).packs@[i].name@) == normalized_name(name@)
                        &&& final(self).packs@ == old(self).packs@.remove(i)
                    },
                Err(e) => e.kind == ApiErrorKind::NotFound && !old(self).has_pack(
                    normalized_name(name@),
                ) && final(self).packs@ == old(self).packs@,
            },
    {
        match self.find(name) {
            Some(i) => {
                self.packs.remove(i);
                proof {
                    assert forall|t: int|
                        0 <= t < self.packs@.len() implies normalized_name(self.packs@[t].name@)
                            != normalized_name(name@) by {
                        if t < i as int {
                            assert(self.packs@[t] == old(self).packs@[t]);
                            assert(normalized_name(old(self).packs@[t].name@)
                                != normalized_name(old(self).packs@[i as int].name@));
                        } else {
                            assert(self.packs@[t] == old(self).packs@[t + 1]);
                            assert(normalized_name(old(self).packs@[t + 1].name@)
                                != normalized_name(old(self).packs@[i as int].name@));
                        }
                    }
                    assert forall|a: int, b: int|
                        0 <= a < b < self.packs@.len() implies normalized_name(
                        self.packs@[a].name@,
                    ) != normalized_name(self.packs@[b].name@) by {
                        let oa: int = if a < i as int {
                            a
                        } else {
                            a + 1
                        };
                        let ob: int = if b < i as int {
                            b
                        } else {
                            b + 1
                        };
                        assert(self.packs@[a] == old(self).packs@[oa]);
                        assert(self.packs@[b] == old(self).packs@[ob]);
                        assert(normalized_name(old(self).packs@[oa].name@) != normalized_name(
                            old(self).packs@[ob].name@,
                        ));
                    }
                }
                Ok(())
            },
            None => Err(ApiError::not_found()),
        }
    }
}

} // verus!
