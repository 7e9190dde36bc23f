//! The idempotency cache: maps a caller-supplied process id to the response
//! previously computed for it, so that a retried balance-update request
//! returns the original response instead of re-applying the mutation.
//!
//! Entries never expire within the process lifetime; concurrency wrapping
//! (one mutex around the flat mapping) is the caller's.

use vstd::prelude::*;

use crate::model::{first_idx, lemma_first_idx, lemma_first_idx_at};
use crate::responses::{UpdateBalanceResponse, UpdateBalanceResponseModel};

verus! {

/// One cached response, keyed by the process id it answered.
pub struct CacheEntry {
    pub process_id: String,
    pub response: UpdateBalanceResponse,
}

pub ghost struct CacheEntryModel {
    pub process_id: Seq<char>,
    pub response: UpdateBalanceResponseModel,
}

impl View for CacheEntry {
    type V = CacheEntryModel;

    open spec fn view(&self) -> CacheEntryModel {
        CacheEntryModel { process_id: self.process_id@, response: self.response@ }
    }
}

/// The predicate selecting the entry of one process id.
pub open spec fn of_pid(process_id: Seq<char>) -> spec_fn(CacheEntryModel) -> bool {
    |e: CacheEntryModel| e.process_id == process_id
}

/// The cached response of one process id, if any.
pub open spec fn cache_find(c: Seq<CacheEntryModel>, process_id: Seq<char>) -> Option<
    UpdateBalanceResponseModel,
> {
    let k = first_idx(c, of_pid(process_id));
    if k >= 0 {
        Option::Some(c[k].response)
    } else {
        Option::None
    }
}

/// Effect of storing a response: the entry of that process id is replaced if
/// present, appended otherwise.
pub open spec fn cache_set(
    c: Seq<CacheEntryModel>,
    process_id: Seq<char>,
    response: UpdateBalanceResponseModel,
) -> Seq<CacheEntryModel> {
    let e = CacheEntryModel { process_id, response };
    let k = first_idx(c, of_pid(process_id));
    if k >= 0 {
        c.update(k, e)
    } else {
        c.push(e)
    }
}

/// Cache well-formedness: one entry per process id.
pub open spec fn cache_wf(c: Seq<CacheEntryModel>) -> bool {
    forall|i: int, j: int|
        0 <= i < j < c.len() ==> (#[trigger] c[i]).process_id != (#[trigger] c[j]).process_id
}

/// Replacing an entry by one with the same process id preserves the
/// uniqueness of process ids.
proof fn lemma_wf_update_same_pid(c: Seq<CacheEntryModel>, k: int, e: CacheEntryModel)
    requires
        cache_wf(c),
        0 <= k < c.len(),
        e.process_id == c[k].process_id,
    ensures
        cache_wf(c.update(k, e)),
{
    let c2 = c.update(k, e);
    assert forall|x: int, y: int| 0 <= x < y < c2.len() implies (#[trigger] c2[x]).process_id != (
    #[trigger] c2[y]).process_id by {
        assert(c2[x].process_id == c[x].process_id);
        assert(c2[y].process_id == c[y].process_id);
        assert(c[x].process_id != c[y].process_id);
    }
}

/// After storing a response it is exactly what the cache answers for that
/// process id; every other process id answers as before, and well-formedness
/// is preserved.
pub proof fn lemma_cache_set_find(
    c: Seq<CacheEntryModel>,
    process_id: Seq<char>,
    response: UpdateBalanceResponseModel,
)
    requires
        cache_wf(c),
    ensures
        cache_find(cache_set(c, process_id, response), process_id) == Option::Some(response),
        forall|other: Seq<char>|
            other != process_id ==> #[trigger] cache_find(
                cache_set(c, process_id, response),
                other,
            ) == cache_find(c, other),
        cache_wf(cache_set(c, process_id, response)),
{
    let e = CacheEntryModel { process_id, response };
    let k = first_idx(c, of_pid(process_id));
    let c2 = cache_set(c, process_id, response);
    lemma_first_idx(c, of_pid(process_id));
    if k >= 0 {
        assert(c2 == c.update(k, e));
        lemma_first_idx_at(c2, of_pid(process_id), k);
        lemma_wf_update_same_pid(c, k, e);
    } else {
        assert(c2 == c.push(e));
        lemma_first_idx_at(c2, of_pid(process_id), c.len() as int);
        assert forall|i: int, j: int| 0 <= i < j < c2.len() implies (
        #[trigger] c2[i]).process_id != (#[trigger] c2[j]).process_id by {
            if j < c.len() {
                assert(c[i].process_id != c[j].process_id);
            } else {
                assert(!(of_pid(process_id)(c[i])));
            }
        }
    }
    assert forall|other: Seq<char>| other != process_id implies #[trigger] cache_find(
        c2,
        other,
    ) == cache_find(c, other) by {
        let m = first_idx(c, of_pid(other));
        lemma_first_idx(c, of_pid(other));
        lemma_first_idx(c2, of_pid(other));
        if m >= 0 {
            assert(c[m].process_id == other);
            assert(c2[m] == c[m]) by {
                if k >= 0 && m == k {
                    assert(c[k].process_id == process_id);
                }
            }
            assert forall|j: int| 0 <= j < m implies !(of_pid(other)(#[trigger] c2[j])) by {
                if k >= 0 && j == k {
                    assert(c2[j].process_id == process_id);
                } else {
                    assert(c2[j] == c[j]);
                }
            }
            lemma_first_idx_at(c2, of_pid(other), m);
        } else {
            assert forall|j: int| 0 <= j < c2.len() implies !(of_pid(other)(#[trigger] c2[j])) by {
                if (k >= 0 && j == k) || j >= c.len() {
                    assert(c2[j].process_id == process_id);
                } else {
                    assert(c2[j] == c[j]);
                }
            }
            if first_idx(c2, of_pid(other)) >= 0 {
                assert(of_pid(other)(c2[first_idx(c2, of_pid(other))]));
            }
        }
    }
}

/// The flat in-memory mapping from process id to cached response.
pub struct ProcessIdCache {
    pub entries: Vec<CacheEntry>,
}

impl View for ProcessIdCache {
    type V = Seq<CacheEntryModel>;

    open spec fn view(&self) -> Seq<CacheEntryModel> {
        self.entries@.map_values(|e: CacheEntry| e@)
    }
}

impl ProcessIdCache {
    /// An empty cache.
    pub fn new() -> (r: Self)
        ensures
            r@ == Seq::<CacheEntryModel>::empty(),
            cache_wf(r@),
    {
        let r = ProcessIdCache { entries: Vec::new() };
        proof {
            assert(r@ =~= Seq::<CacheEntryModel>::empty());
        }
        r
    }

    /// Index of the entry of this process id, or `None`.
    fn find_index(&self, process_id: &String) -> (r: Option<usize>)
        ensures
            match r {
                Option::Some(k) => (k as int) < self@.len() && first_idx(
                    self@,
                    of_pid(process_id@),
                ) == k as int,
                Option::None => first_idx(self@, of_pid(process_id@)) == -1,
            },
    {
        let ghost c = self@;
        let mut i: usize = 0;
        while i < self.entries.len()
            invariant
                i <= self.entries.len(),
                c == self@,
                c.len() == self.entries.len(),
                forall|j: int| 0 <= j < i ==> !(of_pid(process_id@)(#[trigger] c[j])),
            decreases self.entries.len() - i,
        {
            proof {
                assert(c[i as int] == self.entries@[i as int]@);
            }
            if self.entries[i].process_id == *process_id {
                proof {
                    lemma_first_idx_at(c, of_pid(process_id@), i as int);
                }
                return Some(i);
            }
            i = i + 1;
        }
        proof {
            lemma_first_idx(c, of_pid(process_id@));
        }
        None
    }

    /// The response previously stored under this process id, as a copy.
    pub fn get(&self, process_id: &String) -> (r: Option<UpdateBalanceResponse>)
        ensures
            match r {
                Option::Some(resp) => cache_find(self@, process_id@) == Option::Some(resp@),
                Option::None => cache_find(self@, process_id@) is None,
            },
    {
        match self.find_index(process_id) {
            Some(k) => {
                proof {
                    assert(self@[k as int] == self.entries@[k as int]@);
                }
                Some(self.entries[k].response.clone())
            },
            None => None,
        }
    }

    /// Stores the response computed for this process id, replacing any
    /// previously stored one.
    pub fn set(&mut self, process_id: &String, response: UpdateBalanceResponse)
        requires
            cache_wf(old(self)@),
        ensures
            final(self)@ == cache_set(old(self)@, process_id@, response@),
            cache_wf(final(self)@),
    {
        let ghost c = old(self)@;
        let found = self.find_index(process_id);
        let entry = CacheEntry { process_id: process_id.clone(), response };
        let ghost e = entry@;
        match found {
            Some(k) => {
                let _ = self.entries.remove(k);
                self.entries.insert(k, entry);
                proof {
                    assert(self.entries@ =~= old(self).entries@.update(k as int, entry));
                    crate::model::lemma_map_values_update(
                        old(self).entries@,
                        k as int,
                        entry,
                        |x: CacheEntry| x@,
                    );
                    assert(self@ =~= c.update(k as int, e));
                    lemma_cache_set_find(c, process_id@, response@);
                }
            },
            None => {
                self.entries.push(entry);
                proof {
                    assert(self.entries@ =~= old(self).entries@.push(entry));
                    assert forall|j: int| 0 <= j < self@.len() implies self@[j] == c.push(e)[j] by {
                        assert(self@[j] == self.entries@[j]@);
                        if j < c.len() {
                            assert(c[j] == old(self).entries@[j]@);
                            assert(self.entries@[j] == old(self).entries@[j]);
                        }
                    }
                    assert(self@ =~= c.push(e));
                    lemma_cache_set_find(c, process_id@, response@);
                }
            },
        }
    }
}

} // verus!
