//! The balance ledger: an unsigned amount per address, absent meaning
//! zero. Increments and decrements are checked — a move that would
//! underflow a balance or overflow the integer width is rejected, never
//! saturated.

use vstd::prelude::*;

verus! {

/// One account's balance.
#[derive(Clone, Debug)]
pub struct BalanceEntry {
    pub address: String,
    pub amount: u128,
}

/// The entry belongs to exactly this address.
pub open spec fn balance_entry_matches(e: BalanceEntry, address: Seq<char>) -> bool {
    e.address@ == address
}

/// The amount held by an address: the first matching entry, or zero.
pub open spec fn balance_lookup(s: Seq<BalanceEntry>, address: Seq<char>) -> u128
    decreases s.len(),
{
    if s.len() == 0 {
        0
    } else if balance_entry_matches(s[0], address) {
        s[0].amount
    } else {
        balance_lookup(s.drop_first(), address)
    }
}

/// Some entry belongs to this address.
pub open spec fn contains_address(s: Seq<BalanceEntry>, address: Seq<char>) -> bool
    decreases s.len(),
{
    if s.len() == 0 {
        false
    } else {
        balance_entry_matches(s[0], address) || contains_address(s.drop_first(), address)
    }
}

pub proof fn lemma_balance_contains_iff_exists(s: Seq<BalanceEntry>, address: Seq<char>)
    ensures
        contains_address(s, address) <==> (exists|i: int|
            0 <= i < s.len() && balance_entry_matches(s[i], address)),
    decreases s.len(),
{
    if s.len() > 0 {
        lemma_balance_contains_iff_exists(s.drop_first(), address);
        if !balance_entry_matches(s[0], address) {
            if contains_address(s, address) {
                let j = choose|j: int|
                    0 <= j < s.drop_first().len() && balance_entry_matches(s.drop_first()[j], address);
                assert(balance_entry_matches(s[j + 1], address));
            }
            if exists|i: int| 0 <= i < s.len() && balance_entry_matches(s[i], address) {
                let i = choose|i: int| 0 <= i < s.len() && balance_entry_matches(s[i], address);
                assert(balance_entry_matches(s.drop_first()[i - 1], address));
            }
        }
    }
}

pub proof fn lemma_balance_lookup_absent(s: Seq<BalanceEntry>, address: Seq<char>)
    requires
        !contains_address(s, address),
    ensures
        balance_lookup(s, address) == 0,
    decreases s.len(),
{
    if s.len() > 0 {
        lemma_balance_lookup_absent(s.drop_first(), address);
    }
}

pub proof fn lemma_balance_lookup_found(s: Seq<BalanceEntry>, i: int, address: Seq<char>)
    requires
        0 <= i < s.len(),
        balance_entry_matches(s[i], address),
        forall|j: int| 0 <= j < i ==> !balance_entry_matches(s[j], address),
    ensures
        balance_lookup(s, address) == s[i].amount,
    decreases i,
{
    if i > 0 {
        lemma_balance_lookup_found(s.drop_first(), i - 1, address);
    }
}

pub proof fn lemma_balance_lookup_push(s: Seq<BalanceEntry>, e: BalanceEntry, address: Seq<char>)
    requires
        !contains_address(s, e.address@),
    ensures
        balance_lookup(s.push(e), address) == (if balance_entry_matches(e, address) {
            e.amount
        } else {
            balance_lookup(s, address)
        }),
    decreases s.len(),
{
    if s.len() == 0 {
        assert(s.push(e)[0] == e);
        assert(s.push(e).drop_first() =~= Seq::<BalanceEntry>::empty());
        assert(balance_lookup(Seq::<BalanceEntry>::empty(), address) == 0);
    } else {
        assert(s.push(e)[0] == s[0]);
        assert(s.push(e).drop_first() =~= s.drop_first().push(e));
        lemma_balance_lookup_push(s.drop_first(), e, address);
    }
}

pub proof fn lemma_balance_lookup_update(s: Seq<BalanceEntry>, i: int, e: BalanceEntry, address: Seq<char>)
    requires
        0 <= i < s.len(),
        balance_entry_matches(s[i], e.address@),
        forall|j: int| 0 <= j < s.len() && j != i ==> !balance_entry_matches(s[j], e.address@),
    ensures
        balance_lookup(s.update(i, e), address) == (if balance_entry_matches(e, address) {
            e.amount
        } else {
            balance_lookup(s, address)
        }),
    decreases i,
{
    if i == 0 {
        assert(s.update(0, e)[0] == e);
        assert(s.update(0, e).drop_first() =~= s.drop_first());
    } else {
        assert(s.update(i, e)[0] == s[0]);
        assert(s.update(i, e).drop_first() =~= s.drop_first().update(i - 1, e));
        assert(forall|j: int|
            0 <= j < s.drop_first().len() && j != i - 1
                ==> !balance_entry_matches(#[trigger] s.drop_first()[j], e.address@));
        lemma_balance_lookup_update(s.drop_first(), i - 1, e, address);
    }
}

/// The ledger. Well-formedness: no address is stored twice.
pub struct BalanceLedger {
    pub entries: Vec<BalanceEntry>,
}

impl BalanceLedger {
    pub open spec fn wf(self) -> bool {
        forall|i: int, j: int|
            #![trigger self.entries@[i], self.entries@[j]]
            0 <= i < j < self.entries@.len()
                ==> !balance_entry_matches(self.entries@[i], self.entries@[j].address@)
    }

    /// The amount held by an address; an address never written holds
    /// zero.
    pub open spec fn balance_of(self, address: Seq<char>) -> u128 {
        balance_lookup(self.entries@, address)
    }

    /// An empty ledger: every address holds zero.
    pub fn new() -> (r: Self)
        ensures
            r.wf(),
            forall|a: Seq<char>| #[trigger] r.balance_of(a) == 0,
    {
        BalanceLedger { entries: Vec::new() }
    }

    fn find(&self, address: &String) -> (r: Option<usize>)
        ensures
            match r {
                Some(i) => i < self.entries@.len() && balance_entry_matches(
                    self.entries@[i as int],
                    address@,
                ) && forall|j: int| 0 <= j < i ==> !balance_entry_matches(self.entries@[j], address@),
                None => !contains_address(self.entries@, address@),
            },
    {
        let n = self.entries.len();
        let mut i: usize = 0;
        while i < n
            invariant
                n == self.entries@.len(),
                i <= n,
                forall|j: int| 0 <= j < i ==> !balance_entry_matches(self.entries@[j], address@),
            decreases n - i,
        {
            if self.entries[i].address == *address {
                return Some(i);
            }
            i += 1;
        }
        proof {
            lemma_balance_contains_iff_exists(self.entries@, address@);
        }
        None
    }

    /// Total point lookup: the stored amount, or zero.
    pub fn query_balance(&self, address: &String) -> (r: u128)
        ensures
            r == self.balance_of(address@),
    {
        match self.find(address) {
            Some(i) => {
                proof {
                    lemma_balance_lookup_found(self.entries@, i as int, address@);
                }
                self.entries[i].amount
            }
            None => {
                proof {
                    lemma_balance_lookup_absent(self.entries@, address@);
                }
                0
            }
        }
    }

    /// Writes an address's amount outright; no other address is touched.
    fn put(&mut self, address: &String, amount: u128)
        requires
            old(self).wf(),
        ensures
            final(self).wf(),
            final(self).balance_of(address@) == amount,
            forall|a: Seq<char>|
                a != address@ ==> #[trigger] final(self).balance_of(a) == old(self).balance_of(a),
    {
        let entry = BalanceEntry { address: address.clone(), amount };
        match self.find(address) {
            Some(i) => {
                proof {
                    let s = self.entries@;
                    assert forall|j: int| 0 <= j < s.len() && j != i
                        implies !balance_entry_matches(s[j], entry.address@) by {
                        if j > i {
                            assert(!balance_entry_matches(s[i as int], s[j].address@));
                        }
                    };
                }
                let ghost prior = self.entries@;
                self.entries[i] = entry;
                proof {
                    assert forall|a: Seq<char>| a != address@
                        implies final(self).balance_of(a) == balance_lookup(prior, a) by {
                        lemma_balance_lookup_update(prior, i as int, entry, a);
                    };
                    lemma_balance_lookup_update(prior, i as int, entry, address@);
                    assert forall|x: int, y: int| 0 <= x < y < self.entries@.len()
                        implies !balance_entry_matches(self.entries@[x], self.entries@[y].address@) by {
                        assert(!balance_entry_matches(prior[x], prior[y].address@));
                    };
                }
            }
            None => {
                let ghost prior = self.entries@;
                self.entries.push(entry);
                proof {
                    lemma_balance_contains_iff_exists(prior, address@);
                    assert forall|a: Seq<char>| a != address@
                        implies final(self).balance_of(a) == balance_lookup(prior, a) by {
                        lemma_balance_lookup_push(prior, entry, a);
                    };
                    lemma_balance_lookup_push(prior, entry, address@);
                    assert forall|x: int, y: int| 0 <= x < y < self.entries@.len()
                        implies !balance_entry_matches(self.entries@[x], self.entries@[y].address@) by {
                        if y < prior.len() {
                            assert(!balance_entry_matches(prior[x], prior[y].address@));
                        }
                    };
                }
            }
        }
    }

    /// Adds to an address's balance; the sum is known to fit.
    pub(crate) fn add_to(&mut self, address: &String, amount: u128)
        requires
            old(self).wf(),
            old(self).balance_of(address@) + amount <= u128::MAX,
        ensures
            final(self).wf(),
            final(self).balance_of(address@) == old(self).balance_of(address@) + amount,
            forall|a: Seq<char>|
                a != address@ ==> #[trigger] final(self).balance_of(a) == old(self).balance_of(a),
    {
        let held = self.query_balance(address);
        self.put(address, held + amount);
    }

    /// Subtracts from an address's balance; the balance is known to
    /// cover it.
    pub(crate) fn sub_from(&mut self, address: &String, amount: u128)
        requires
            old(self).wf(),
            old(self).balance_of(address@) >= amount,
        ensures
            final(self).wf(),
            final(self).balance_of(address@) == old(self).balance_of(address@) - amount,
            forall|a: Seq<char>|
                a != address@ ==> #[trigger] final(self).balance_of(a) == old(self).balance_of(a),
    {
        let held = self.query_balance(address);
        self.put(address, held - amount);
    }

    /// Checked increment: rejected, with nothing changed, exactly when
    /// the sum would not fit the integer width.
    pub fn credit(&mut self, address: &String, amount: u128) -> (r: Result<(), crate::errors::ContractError>)
        requires
            old(self).wf(),
        ensures
            final(self).wf(),
            match r {
                Ok(()) => {
                    &&& old(self).balance_of(address@) + amount <= u128::MAX
                    &&& final(self).balance_of(address@) == old(self).balance_of(address@) + amount
                    &&& forall|a: Seq<char>|
                        a != address@
                            ==> #[trigger] final(self).balance_of(a) == old(self).balance_of(a)
                },
                Err(e) => {
                    &&& old(self).balance_of(address@) + amount > u128::MAX
                    &&& e == crate::errors::ContractError::Overflow
                    &&& *final(self) == *old(self)
                },
            },
    {
        let held = self.query_balance(address);
        match held.checked_add(amount) {
            Some(sum) => {
                self.put(address, sum);
                Ok(())
            }
            None => Err(crate::errors::ContractError::Overflow),
        }
    }

    /// Checked decrement: rejected, with nothing changed, exactly when
    /// the balance is too small — a debit fails closed, it never floors.
    pub fn debit(&mut self, address: &String, amount: u128) -> (r: Result<(), crate::errors::ContractError>)
        requires
            old(self).wf(),
        ensures
            final(self).wf(),
            match r {
                Ok(()) => {
                    &&& old(self).balance_of(address@) >= amount
                    &&& final(self).balance_of(address@) == old(self).balance_of(address@) - amount
                    &&& forall|a: Seq<char>|
                        a != address@
                            ==> #[trigger] final(self).balance_of(a) == old(self).balance_of(a)
                },
                Err(e) => {
                    &&& old(self).balance_of(address@) < amount
                    &&& e == crate::errors::ContractError::Overflow
                    &&& *final(self) == *old(self)
                },
            },
    {
        let held = self.query_balance(address);
        match held.checked_sub(amount) {
            Some(rest) => {
                self.put(address, rest);
                Ok(())
            }
            None => Err(crate::errors::ContractError::Overflow),
        }
    }
}

} // verus!
