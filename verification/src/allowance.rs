//! The allowance store: (owner, spender) → expiring spending grant.

use vstd::prelude::*;

use crate::address::Address;
use crate::errors::TokenError;

verus! {

/// One spending grant: `spender` may move up to `amount` of `owner`'s
/// tokens while the current ledger number is at most `live_until_ledger`.
#[derive(Clone, Copy, PartialEq, Eq, Structural, Debug)]
pub struct AllowanceRecord {
    pub owner: Address,
    pub spender: Address,
    pub amount: i128,
    pub live_until_ledger: u32,
}

/// Maps each (owner, spender) pair to its stored grant.
///
/// Expiration is lazy: a record past its `live_until_ledger` stays in
/// storage and merely reads as zero; nothing ever scans for or purges
/// expired entries.
pub struct AllowanceStore {
    entries: Vec<AllowanceRecord>,
}

impl AllowanceStore {
    /// The stored records, in insertion order.
    pub closed spec fn entries_seq(self) -> Seq<AllowanceRecord> {
        self.entries@
    }

    /// Well-formed: at most one record per (owner, spender) pair, and no
    /// negative amount.
    pub open spec fn wf(self) -> bool {
        &&& forall|i: int, j: int|
            0 <= i < j < self.entries_seq().len() ==> !((#[trigger] self.entries_seq()[i]).owner
                == (#[trigger] self.entries_seq()[j]).owner && self.entries_seq()[i].spender
                == self.entries_seq()[j].spender)
        &&& forall|i: int|
            0 <= i < self.entries_seq().len() ==> (#[trigger] self.entries_seq()[i]).amount >= 0
    }

    /// Whether a record for the pair exists.
    pub open spec fn spec_has(self, owner: Address, spender: Address) -> bool {
        exists|i: int|
            0 <= i < self.entries_seq().len() && (#[trigger] self.entries_seq()[i]).owner == owner
                && self.entries_seq()[i].spender == spender
    }

    /// The index of the pair's record, where one exists.
    pub open spec fn spec_index_of(self, owner: Address, spender: Address) -> int {
        choose|i: int|
            0 <= i < self.entries_seq().len() && (#[trigger] self.entries_seq()[i]).owner == owner
                && self.entries_seq()[i].spender == spender
    }

    /// The stored record for the pair, expiration not yet applied.
    pub open spec fn spec_record(self, owner: Address, spender: Address) -> Option<
        AllowanceRecord,
    > {
        if self.spec_has(owner, spender) {
            Some(self.entries_seq()[self.spec_index_of(owner, spender)])
        } else {
            None
        }
    }

    /// The effective allowance at `current_ledger`: the stored amount while
    /// the record is live, and zero once `current_ledger` has passed
    /// `live_until_ledger` or when no record exists.
    pub open spec fn spec_effective(
        self,
        owner: Address,
        spender: Address,
        current_ledger: u32,
    ) -> int {
        match self.spec_record(owner, spender) {
            Some(rec) => if current_ledger <= rec.live_until_ledger {
                rec.amount as int
            } else {
                0
            },
            None => 0,
        }
    }

    /// In a well-formed store, a record's index is the index the specs
    /// speak of.
    proof fn lemma_found_index(self, owner: Address, spender: Address, i: int)
        requires
            self.wf(),
            0 <= i < self.entries_seq().len(),
            self.entries_seq()[i].owner == owner,
            self.entries_seq()[i].spender == spender,
        ensures
            self.spec_has(owner, spender),
            self.spec_index_of(owner, spender) == i,
            self.spec_record(owner, spender) == Some(self.entries_seq()[i]),
    {
        assert(self.spec_has(owner, spender));
        let k = self.spec_index_of(owner, spender);
        assert(0 <= k < self.entries_seq().len() && self.entries_seq()[k].owner == owner
            && self.entries_seq()[k].spender == spender);
        if k < i {
            assert(!(self.entries_seq()[k].owner == self.entries_seq()[i].owner
                && self.entries_seq()[k].spender == self.entries_seq()[i].spender));
        }
        if i < k {
            assert(!(self.entries_seq()[i].owner == self.entries_seq()[k].owner
                && self.entries_seq()[i].spender == self.entries_seq()[k].spender));
        }
    }

    /// How overwriting the record at `i` changes every pair's record.
    proof fn lemma_update_entry(pre: AllowanceStore, post: AllowanceStore, i: int, rec: AllowanceRecord)
        requires
            pre.wf(),
            0 <= i < pre.entries_seq().len(),
            pre.entries_seq()[i].owner == rec.owner,
            pre.entries_seq()[i].spender == rec.spender,
            rec.amount >= 0,
            post.entries_seq() == pre.entries_seq().update(i, rec),
        ensures
            post.wf(),
            post.spec_record(rec.owner, rec.spender) == Some(rec),
            forall|o2: Address, s2: Address|
                !(o2 == rec.owner && s2 == rec.spender) ==> #[trigger] post.spec_record(o2, s2)
                    == pre.spec_record(o2, s2),
    {
        let s = pre.entries_seq();
        let t = post.entries_seq();
        assert(forall|j: int|
            0 <= j < s.len() ==> (#[trigger] t[j]).owner == s[j].owner && t[j].spender
                == s[j].spender);
        assert(post.wf());
        post.lemma_found_index(rec.owner, rec.spender, i);
        assert forall|o2: Address, s2: Address|
            !(o2 == rec.owner && s2 == rec.spender) implies #[trigger] post.spec_record(o2, s2)
            == pre.spec_record(o2, s2) by {
            if pre.spec_has(o2, s2) {
                let k = pre.spec_index_of(o2, s2);
                assert(0 <= k < s.len() && s[k].owner == o2 && s[k].spender == s2);
                assert(k != i);
                pre.lemma_found_index(o2, s2, k);
                post.lemma_found_index(o2, s2, k);
            } else {
                if post.spec_has(o2, s2) {
                    let k = post.spec_index_of(o2, s2);
                    assert(t[k].owner == o2 && t[k].spender == s2);
                    assert(s[k].owner == o2 && s[k].spender == s2);
                }
            }
        }
    }

    /// How appending a record for a fresh pair changes every pair's record.
    proof fn lemma_push_entry(pre: AllowanceStore, post: AllowanceStore, rec: AllowanceRecord)
        requires
            pre.wf(),
            !pre.spec_has(rec.owner, rec.spender),
            rec.amount >= 0,
            post.entries_seq() == pre.entries_seq().push(rec),
        ensures
            post.wf(),
            post.spec_record(rec.owner, rec.spender) == Some(rec),
            forall|o2: Address, s2: Address|
                !(o2 == rec.owner && s2 == rec.spender) ==> #[trigger] post.spec_record(o2, s2)
                    == pre.spec_record(o2, s2),
    {
        let s = pre.entries_seq();
        let t = post.entries_seq();
        assert forall|i: int, j: int|
            0 <= i < j < t.len() implies !((#[trigger] t[i]).owner == (#[trigger] t[j]).owner
            && t[i].spender == t[j].spender) by {
            if j == s.len() {
                assert(t[i] == s[i]);
                assert(!(s[i].owner == rec.owner && s[i].spender == rec.spender));
            }
        }
        assert(post.wf());
        post.lemma_found_index(rec.owner, rec.spender, s.len() as int);
        assert forall|o2: Address, s2: Address|
            !(o2 == rec.owner && s2 == rec.spender) implies #[trigger] post.spec_record(o2, s2)
            == pre.spec_record(o2, s2) by {
            if pre.spec_has(o2, s2) {
                let k = pre.spec_index_of(o2, s2);
                assert(0 <= k < s.len() && s[k].owner == o2 && s[k].spender == s2);
                pre.lemma_found_index(o2, s2, k);
                post.lemma_found_index(o2, s2, k);
            } else {
                if post.spec_has(o2, s2) {
                    let k = post.spec_index_of(o2, s2);
                    assert(t[k].owner == o2 && t[k].spender == s2);
                    assert(k != s.len());
                    assert(s[k].owner == o2 && s[k].spender == s2);
                }
            }
        }
    }

    /// An empty store: no pair holds a grant.
    pub fn new() -> (r: AllowanceStore)
        ensures
            r.wf(),
            forall|o: Address, s: Address| #[trigger] r.spec_record(o, s) is None,
    {
        AllowanceStore { entries: Vec::new() }
    }

    /// The index of the pair's record, if one exists.
    fn find(&self, owner: Address, spender: Address) -> (r: Option<usize>)
        ensures
            match r {
                Some(i) => i < self.entries_seq().len() && self.entries_seq()[i as int].owner
                    == owner && self.entries_seq()[i as int].spender == spender,
                None => !self.spec_has(owner, spender),
            },
    {
        let n = self.entries.len();
        let mut i: usize = 0;
        while i < n
            invariant
                n == self.entries_seq().len(),
                i <= n,
                forall|j: int|
                    0 <= j < i ==> !((#[trigger] self.entries_seq()[j]).owner == owner
                        && self.entries_seq()[j].spender == spender),
            decreases n - i,
        {
            if self.entries[i].owner == owner && self.entries[i].spender == spender {
                return Some(i);
            }
            i += 1;
        }
        None
    }

    /// The effective allowance of the pair at `current_ledger`; storage is
    /// not mutated, even for an expired record. Never fails.
    pub fn get(&self, owner: Address, spender: Address, current_ledger: u32) -> (r: i128)
        requires
            self.wf(),
        ensures
            r as int == self.spec_effective(owner, spender, current_ledger),
            r >= 0,
    {
        match self.find(owner, spender) {
            Some(i) => {
                proof {
                    self.lemma_found_index(owner, spender, i as int);
                }
                let rec = self.entries[i];
                if current_ledger <= rec.live_until_ledger {
                    rec.amount
                } else {
                    0
                }
            },
            None => 0,
        }
    }

    /// Replaces the pair's grant wholesale with `(amount, live_until_ledger)`.
    ///
    /// A positive amount whose expiration lies below `current_ledger` is
    /// refused; a zero amount may carry any expiration, including one
    /// already in the past.
    pub fn set(
        &mut self,
        owner: Address,
        spender: Address,
        amount: i128,
        live_until_ledger: u32,
        current_ledger: u32,
    ) -> (r: Result<(), TokenError>)
        requires
            old(self).wf(),
            amount >= 0,
        ensures
            final(self).wf(),
            r is Ok <==> (amount == 0 || live_until_ledger
                >= current_ledger),
            r is Err ==> r == Err::<(), TokenError>(TokenError::InvalidExpirationLedger) && *final(self) == *old(self),
            r is Ok ==> final(self).spec_record(owner, spender) == Some(
                AllowanceRecord { owner, spender, amount, live_until_ledger },
            ),
            r is Ok ==> forall|o2: Address, s2: Address|
                !(o2 == owner && s2 == spender) ==> #[trigger] final(self).spec_record(o2, s2)
                    == old(self).spec_record(o2, s2),
    {
        if amount > 0 && live_until_ledger < current_ledger {
            return Err(TokenError::InvalidExpirationLedger);
        }
        let rec = AllowanceRecord { owner, spender, amount, live_until_ledger };
        match self.find(owner, spender) {
            Some(i) => {
                proof {
                    self.lemma_found_index(owner, spender, i as int);
                }
                self.entries[i] = rec;
                proof {
                    AllowanceStore::lemma_update_entry(*old(self), *self, i as int, rec);
                }
            },
            None => {
                self.entries.push(rec);
                proof {
                    AllowanceStore::lemma_push_entry(*old(self), *self, rec);
                }
            },
        }
        Ok(())
    }

    /// Decrements the pair's stored amount by `amount`, reading the grant
    /// through the same expiration rule as [`AllowanceStore::get`]; the
    /// expiration field is left unchanged. This is the only decrement path,
    /// and there is no increment path other than [`AllowanceStore::set`].
    pub fn consume(
        &mut self,
        owner: Address,
        spender: Address,
        amount: i128,
        current_ledger: u32,
    ) -> (r: Result<(), TokenError>)
        requires
            old(self).wf(),
            amount > 0,
        ensures
            final(self).wf(),
            r is Ok <==> old(self).spec_effective(
                owner,
                spender,
                current_ledger,
            ) >= amount,
            r is Err ==> r == Err::<(), TokenError>(TokenError::InsufficientAllowance) && *final(self) == *old(self),
            r is Ok ==> final(self).spec_effective(owner, spender, current_ledger) == old(
                self,
            ).spec_effective(owner, spender, current_ledger) - amount,
            r is Ok ==> (match old(self).spec_record(owner, spender) {
                Some(rec) => final(self).spec_record(owner, spender) == Some(
                    AllowanceRecord {
                        owner,
                        spender,
                        amount: (rec.amount - amount) as i128,
                        live_until_ledger: rec.live_until_ledger,
                    },
                ),
                None => false,
            }),
            r is Ok ==> forall|o2: Address, s2: Address|
                !(o2 == owner && s2 == spender) ==> #[trigger] final(self).spec_record(o2, s2)
                    == old(self).spec_record(o2, s2),
    {
        match self.find(owner, spender) {
            Some(i) => {
                proof {
                    self.lemma_found_index(owner, spender, i as int);
                }
                let rec = self.entries[i];
                if current_ledger > rec.live_until_ledger || rec.amount < amount {
                    return Err(TokenError::InsufficientAllowance);
                }
                let updated = AllowanceRecord {
                    owner,
                    spender,
                    amount: rec.amount - amount,
                    live_until_ledger: rec.live_until_ledger,
                };
                self.entries[i] = updated;
                proof {
                    AllowanceStore::lemma_update_entry(*old(self), *self, i as int, updated);
                }
                Ok(())
            },
            None => Err(TokenError::InsufficientAllowance),
        }
    }
}

} // verus!
