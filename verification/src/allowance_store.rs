//! The allowance store: records keyed by the (owner, spender) pair, each
//! holding the remaining amount and an expiration. A lookup is total: an
//! absent pair reads as the zero / `Never` default. Every stored record
//! keeps a positive remaining amount — a record drained to zero is
//! deleted, so zero and absent are indistinguishable.

use vstd::prelude::*;
use crate::expiration::Expiration;

verus! {

/// The answer to an allowance query: how much the spender may still
/// move from the owner, and until when.
#[derive(Clone, Copy, Debug, PartialEq, Eq, Structural)]
pub struct AllowanceResponse {
    pub allowance: u128,
    pub expires: Expiration,
}

impl AllowanceResponse {
    /// What an absent record reads as.
    pub open spec fn spec_default() -> AllowanceResponse {
        AllowanceResponse { allowance: 0, expires: Expiration::Never }
    }
}

impl Default for AllowanceResponse {
    fn default() -> (r: Self)
        ensures
            r == AllowanceResponse::spec_default(),
    {
        AllowanceResponse { allowance: 0, expires: Expiration::Never }
    }
}

/// One stored grant: the (owner, spender) key and its live record.
#[derive(Clone, Debug)]
pub struct AllowanceEntry {
    pub owner: String,
    pub spender: String,
    pub record: AllowanceResponse,
}

/// The entry is keyed by exactly this pair.
pub open spec fn entry_matches(e: AllowanceEntry, owner: Seq<char>, spender: Seq<char>) -> bool {
    e.owner@ == owner && e.spender@ == spender
}

/// The record stored for a pair, reading the first matching entry, or
/// the default where none matches.
pub open spec fn lookup(s: Seq<AllowanceEntry>, owner: Seq<char>, spender: Seq<char>) -> AllowanceResponse
    decreases s.len(),
{
    if s.len() == 0 {
        AllowanceResponse::spec_default()
    } else if entry_matches(s[0], owner, spender) {
        s[0].record
    } else {
        lookup(s.drop_first(), owner, spender)
    }
}

/// Some entry is keyed by this pair.
pub open spec fn contains_pair(s: Seq<AllowanceEntry>, owner: Seq<char>, spender: Seq<char>) -> bool
    decreases s.len(),
{
    if s.len() == 0 {
        false
    } else {
        entry_matches(s[0], owner, spender) || contains_pair(s.drop_first(), owner, spender)
    }
}

pub proof fn lemma_contains_iff_exists(s: Seq<AllowanceEntry>, owner: Seq<char>, spender: Seq<char>)
    ensures
        contains_pair(s, owner, spender) <==> (exists|i: int|
            0 <= i < s.len() && entry_matches(s[i], owner, spender)),
    decreases s.len(),
{
    if s.len() > 0 {
        lemma_contains_iff_exists(s.drop_first(), owner, spender);
        if entry_matches(s[0], owner, spender) {
            assert(entry_matches(s[0], owner, spender));
        } else {
            if contains_pair(s, owner, spender) {
                let j = choose|j: int|
                    0 <= j < s.drop_first().len() && entry_matches(s.drop_first()[j], owner, spender);
                assert(entry_matches(s[j + 1], owner, spender));
            }
            if exists|i: int| 0 <= i < s.len() && entry_matches(s[i], owner, spender) {
                let i = choose|i: int| 0 <= i < s.len() && entry_matches(s[i], owner, spender);
                assert(i >= 1);
                assert(entry_matches(s.drop_first()[i - 1], owner, spender));
            }
        }
    }
}

pub proof fn lemma_lookup_absent(s: Seq<AllowanceEntry>, owner: Seq<char>, spender: Seq<char>)
    requires
        !contains_pair(s, owner, spender),
    ensures
        lookup(s, owner, spender) == AllowanceResponse::spec_default(),
    decreases s.len(),
{
    if s.len() > 0 {
        lemma_lookup_absent(s.drop_first(), owner, spender);
    }
}

pub proof fn lemma_lookup_found(s: Seq<AllowanceEntry>, i: int, owner: Seq<char>, spender: Seq<char>)
    requires
        0 <= i < s.len(),
        entry_matches(s[i], owner, spender),
        forall|j: int| 0 <= j < i ==> !entry_matches(s[j], owner, spender),
    ensures
        lookup(s, owner, spender) == s[i].record,
    decreases i,
{
    if i > 0 {
        lemma_lookup_found(s.drop_first(), i - 1, owner, spender);
    }
}

pub proof fn lemma_lookup_push(
    s: Seq<AllowanceEntry>,
    e: AllowanceEntry,
    owner: Seq<char>,
    spender: Seq<char>,
)
    requires
        !contains_pair(s, e.owner@, e.spender@),
    ensures
        lookup(s.push(e), owner, spender) == (if entry_matches(e, owner, spender) {
            e.record
        } else {
            lookup(s, owner, spender)
        }),
    decreases s.len(),
{
    if s.len() == 0 {
        assert(s.push(e)[0] == e);
        assert(s.push(e).drop_first() =~= Seq::<AllowanceEntry>::empty());
        assert(lookup(Seq::<AllowanceEntry>::empty(), owner, spender)
            == AllowanceResponse::spec_default());
    } else {
        assert(s.push(e)[0] == s[0]);
        assert(s.push(e).drop_first() =~= s.drop_first().push(e));
        lemma_lookup_push(s.drop_first(), e, owner, spender);
    }
}

pub proof fn lemma_lookup_update(
    s: Seq<AllowanceEntry>,
    i: int,
    e: AllowanceEntry,
    owner: Seq<char>,
    spender: Seq<char>,
)
    requires
        0 <= i < s.len(),
        entry_matches(s[i], e.owner@, e.spender@),
        forall|j: int| 0 <= j < s.len() && j != i ==> !entry_matches(s[j], e.owner@, e.spender@),
    ensures
        lookup(s.update(i, e), owner, spender) == (if entry_matches(e, owner, spender) {
            e.record
        } else {
            lookup(s, owner, spender)
        }),
    decreases i,
{
    if i == 0 {
        assert(s.update(0, e)[0] == e);
        assert(s.update(0, e).drop_first() =~= s.drop_first());
    } else {
        assert(s.update(i, e)[0] == s[0]);
        assert(s.update(i, e).drop_first() =~= s.drop_first().update(i - 1, e));
        assert(forall|j: int|
            0 <= j < s.drop_first().len() && j != i - 1
                ==> !entry_matches(#[trigger] s.drop_first()[j], e.owner@, e.spender@));
        lemma_lookup_update(s.drop_first(), i - 1, e, owner, spender);
    }
}

pub proof fn lemma_lookup_remove(s: Seq<AllowanceEntry>, i: int, owner: Seq<char>, spender: Seq<char>)
    requires
        0 <= i < s.len(),
        forall|j: int|
            0 <= j < s.len() && j != i ==> !entry_matches(s[j], s[i].owner@, s[i].spender@),
    ensures
        lookup(s.remove(i), owner, spender) == (if entry_matches(s[i], owner, spender) {
            AllowanceResponse::spec_default()
        } else {
            lookup(s, owner, spender)
        }),
    decreases i,
{
    if i == 0 {
        assert(s.remove(0) =~= s.drop_first());
        if entry_matches(s[0], owner, spender) {
            assert(forall|j: int|
                0 <= j < s.drop_first().len()
                    ==> !entry_matches(#[trigger] s.drop_first()[j], owner, spender));
            lemma_contains_iff_exists(s.drop_first(), owner, spender);
            lemma_lookup_absent(s.drop_first(), owner, spender);
        }
    } else {
        assert(s.remove(i)[0] == s[0]);
        assert(s.remove(i).drop_first() =~= s.drop_first().remove(i - 1));
        assert(forall|j: int|
            0 <= j < s.drop_first().len() && j != i - 1
                ==> !entry_matches(
                #[trigger] s.drop_first()[j],
                s.drop_first()[i - 1].owner@,
                s.drop_first()[i - 1].spender@,
            ));
        lemma_lookup_remove(s.drop_first(), i - 1, owner, spender);
    }
}

/// The allowance store. Well-formedness: no pair is stored twice, and
/// no stored record has a zero remaining amount.
pub struct AllowanceStore {
    pub entries: Vec<AllowanceEntry>,
}

impl AllowanceStore {
    pub open spec fn wf(self) -> bool {
        &&& forall|i: int, j: int|
            #![trigger self.entries@[i], self.entries@[j]]
            0 <= i < j < self.entries@.len()
                ==> !entry_matches(
                self.entries@[i],
                self.entries@[j].owner@,
                self.entries@[j].spender@,
            )
        &&& forall|i: int|
            0 <= i < self.entries@.len() ==> (#[trigger] self.entries@[i]).record.allowance > 0
    }

    /// The record stored for the pair, or the default where none is.
    pub open spec fn allowance_of(self, owner: Seq<char>, spender: Seq<char>) -> AllowanceResponse {
        lookup(self.entries@, owner, spender)
    }

    /// A record is stored for the pair.
    pub open spec fn contains(self, owner: Seq<char>, spender: Seq<char>) -> bool {
        contains_pair(self.entries@, owner, spender)
    }

    /// An empty store: every pair reads as the default.
    pub fn new() -> (r: Self)
        ensures
            r.wf(),
            r.entries@.len() == 0,
            forall|o: Seq<char>, s: Seq<char>|
                #[trigger] r.allowance_of(o, s) == AllowanceResponse::spec_default(),
    {
        AllowanceStore { entries: Vec::new() }
    }

    /// The index of the entry keyed by the pair, if one is stored.
    fn find(&self, owner: &String, spender: &String) -> (r: Option<usize>)
        ensures
            match r {
                Some(i) => i < self.entries@.len() && entry_matches(
                    self.entries@[i as int],
                    owner@,
                    spender@,
                ) && forall|j: int| 0 <= j < i ==> !entry_matches(self.entries@[j], owner@, spender@),
                None => !contains_pair(self.entries@, owner@, spender@),
            },
    {
        let n = self.entries.len();
        let mut i: usize = 0;
        while i < n
            invariant
                n == self.entries@.len(),
                i <= n,
                forall|j: int| 0 <= j < i ==> !entry_matches(self.entries@[j], owner@, spender@),
            decreases n - i,
        {
            let e = &self.entries[i];
            if e.owner == *owner && e.spender == *spender {
                return Some(i);
            }
            i += 1;
        }
        proof {
            lemma_contains_iff_exists(self.entries@, owner@, spender@);
        }
        None
    }

    /// Total point lookup: the stored record, or the default.
    pub fn get(&self, owner: &String, spender: &String) -> (r: AllowanceResponse)
        ensures
            r == self.allowance_of(owner@, spender@),
    {
        match self.find(owner, spender) {
            Some(i) => {
                proof {
                    lemma_lookup_found(self.entries@, i as int, owner@, spender@);
                }
                self.entries[i].record
            }
            None => {
                proof {
                    lemma_lookup_absent(self.entries@, owner@, spender@);
                }
                AllowanceResponse { allowance: 0, expires: Expiration::Never }
            }
        }
    }

    /// Writes the record for the pair, inserting or overwriting; no
    /// other pair is touched.
    pub(crate) fn set(&mut self, owner: &String, spender: &String, record: AllowanceResponse)
        requires
            old(self).wf(),
            record.allowance > 0,
        ensures
            final(self).wf(),
            final(self).allowance_of(owner@, spender@) == record,
            forall|o: Seq<char>, s: Seq<char>|
                !(o == owner@ && s == spender@)
                    ==> #[trigger] final(self).allowance_of(o, s) == old(self).allowance_of(o, s),
    {
        let entry = AllowanceEntry { owner: owner.clone(), spender: spender.clone(), record };
        match self.find(owner, spender) {
            Some(i) => {
                proof {
                    let s = self.entries@;
                    assert forall|j: int| 0 <= j < s.len() && j != i
                        implies !entry_matches(s[j], entry.owner@, entry.spender@) by {
                        if j > i {
                            assert(!entry_matches(s[i as int], s[j].owner@, s[j].spender@));
                        }
                    };
                }
                let ghost prior = self.entries@;
                self.entries[i] = entry;
                proof {
                    assert forall|o: Seq<char>, s2: Seq<char>|
                        !(o == owner@ && s2 == spender@)
                        implies final(self).allowance_of(o, s2) == lookup(prior, o, s2) by {
                        lemma_lookup_update(prior, i as int, entry, o, s2);
                    };
                    lemma_lookup_update(prior, i as int, entry, owner@, spender@);
                    assert forall|x: int, y: int| 0 <= x < y < self.entries@.len()
                        implies !entry_matches(
                        self.entries@[x],
                        self.entries@[y].owner@,
                        self.entries@[y].spender@,
                    ) by {
                        assert(!entry_matches(prior[x], prior[y].owner@, prior[y].spender@));
                    };
                }
            }
            None => {
                let ghost prior = self.entries@;
                self.entries.push(entry);
                proof {
                    lemma_contains_iff_exists(prior, owner@, spender@);
                    assert forall|o: Seq<char>, s2: Seq<char>|
                        !(o == owner@ && s2 == spender@)
                        implies final(self).allowance_of(o, s2) == lookup(prior, o, s2) by {
                        lemma_lookup_push(prior, entry, o, s2);
                    };
                    lemma_lookup_push(prior, entry, owner@, spender@);
                    assert forall|x: int, y: int| 0 <= x < y < self.entries@.len()
                        implies !entry_matches(
                        self.entries@[x],
                        self.entries@[y].owner@,
                        self.entries@[y].spender@,
                    ) by {
                        if y < prior.len() {
                            assert(!entry_matches(prior[x], prior[y].owner@, prior[y].spender@));
                        }
                    };
                }
            }
        }
    }

    /// Deletes the record for the pair, if any; the pair then reads as
    /// the default, and no other pair is touched.
    pub(crate) fn remove_key(&mut self, owner: &String, spender: &String)
        requires
            old(self).wf(),
        ensures
            final(self).wf(),
            final(self).allowance_of(owner@, spender@) == AllowanceResponse::spec_default(),
            forall|o: Seq<char>, s: Seq<char>|
                !(o == owner@ && s == spender@)
                    ==> #[trigger] final(self).allowance_of(o, s) == old(self).allowance_of(o, s),
    {
        match self.find(owner, spender) {
            Some(i) => {
                proof {
                    let s = self.entries@;
                    assert forall|j: int| 0 <= j < s.len() && j != i
                        implies !entry_matches(s[j], s[i as int].owner@, s[i as int].spender@) by {
                        if j > i {
                            assert(!entry_matches(s[i as int], s[j].owner@, s[j].spender@));
                        }
                    };
                }
                let ghost prior = self.entries@;
                let _ = self.entries.remove(i);
                proof {
                    assert forall|o: Seq<char>, s2: Seq<char>|
                        !(o == owner@ && s2 == spender@)
                        implies final(self).allowance_of(o, s2) == lookup(prior, o, s2) by {
                        lemma_lookup_remove(prior, i as int, o, s2);
                    };
                    lemma_lookup_remove(prior, i as int, owner@, spender@);
                    assert(forall|x: int|
                        0 <= x < self.entries@.len() ==> #[trigger] self.entries@[x] == (if x < i {
                            prior[x]
                        } else {
                            prior[x + 1]
                        }));
                    assert forall|x: int, y: int| 0 <= x < y < self.entries@.len()
                        implies !entry_matches(
                        self.entries@[x],
                        self.entries@[y].owner@,
                        self.entries@[y].spender@,
                    ) by {
                        let px: int = if x < i { x } else { x + 1 };
                        let py: int = if y < i { y } else { y + 1 };
                        assert(!entry_matches(prior[px], prior[py].owner@, prior[py].spender@));
                    };
                }
            }
            None => {
                proof {
                    lemma_lookup_absent(self.entries@, owner@, spender@);
                }
            }
        }
    }
}

} // verus!
