//! The balance store: address → non-negative token amount.

use vstd::prelude::*;

use crate::address::Address;
use crate::errors::TokenError;

verus! {

/// The amounts held by a sequence of balance entries, summed.
pub open spec fn sum_amounts(s: Seq<(Address, i128)>) -> int
    decreases s.len(),
{
    if s.len() == 0 {
        0
    } else {
        sum_amounts(s.drop_last()) + s.last().1
    }
}

/// Replacing one entry moves the sum by the difference of the amounts.
proof fn lemma_sum_update(s: Seq<(Address, i128)>, i: int, p: (Address, i128))
    requires
        0 <= i < s.len(),
    ensures
        sum_amounts(s.update(i, p)) == sum_amounts(s) - s[i].1 + p.1,
    decreases s.len(),
{
    let t = s.update(i, p);
    if i == s.len() - 1 {
        assert(t.drop_last() =~= s.drop_last());
    } else {
        lemma_sum_update(s.drop_last(), i, p);
        assert(t.drop_last() =~= s.drop_last().update(i, p));
        assert(t.last() == s.last());
    }
}

/// Appending an entry adds its amount to the sum.
proof fn lemma_sum_push(s: Seq<(Address, i128)>, p: (Address, i128))
    ensures
        sum_amounts(s.push(p)) == sum_amounts(s) + p.1,
{
    assert(s.push(p).drop_last() =~= s);
    assert(s.push(p).last() == p);
}

/// Maps each address to a non-negative amount of tokens.
///
/// An address with no entry holds zero. Entries are created implicitly on
/// first credit and never removed: a zero balance is an ordinary stored
/// state, not a deletion.
pub struct BalanceStore {
    entries: Vec<(Address, i128)>,
}

impl BalanceStore {
    /// The stored entries, in insertion order.
    pub closed spec fn entries_seq(self) -> Seq<(Address, i128)> {
        self.entries@
    }

    /// Well-formed: at most one entry per address, and no negative amount.
    pub open spec fn wf(self) -> bool {
        &&& forall|i: int, j: int|
            0 <= i < j < self.entries_seq().len() ==> (#[trigger] self.entries_seq()[i]).0 != (
            #[trigger] self.entries_seq()[j]).0
        &&& forall|i: int|
            0 <= i < self.entries_seq().len() ==> (#[trigger] self.entries_seq()[i]).1 >= 0
    }

    /// Whether an entry for `a` exists.
    pub open spec fn spec_has(self, a: Address) -> bool {
        exists|i: int|
            0 <= i < self.entries_seq().len() && (#[trigger] self.entries_seq()[i]).0 == a
    }

    /// The index of the entry for `a`, where one exists.
    pub open spec fn spec_index_of(self, a: Address) -> int {
        choose|i: int|
            0 <= i < self.entries_seq().len() && (#[trigger] self.entries_seq()[i]).0 == a
    }

    /// The balance of `a`: the stored amount, or zero without an entry.
    pub open spec fn spec_balance(self, a: Address) -> int {
        if self.spec_has(a) {
            self.entries_seq()[self.spec_index_of(a)].1 as int
        } else {
            0
        }
    }

    /// The sum of all balances: the amount of tokens in circulation.
    pub open spec fn spec_total(self) -> int {
        sum_amounts(self.entries_seq())
    }

    /// In a well-formed store, an entry's index is the index the specs
    /// speak of, and its amount is the address's balance.
    proof fn lemma_found_index(self, a: Address, i: int)
        requires
            self.wf(),
            0 <= i < self.entries_seq().len(),
            self.entries_seq()[i].0 == a,
        ensures
            self.spec_has(a),
            self.spec_index_of(a) == i,
            self.spec_balance(a) == self.entries_seq()[i].1 as int,
    {
        assert(self.spec_has(a));
        let k = self.spec_index_of(a);
        assert(0 <= k < self.entries_seq().len() && self.entries_seq()[k].0 == a);
        if k < i {
            assert(self.entries_seq()[k].0 != self.entries_seq()[i].0);
        }
        if i < k {
            assert(self.entries_seq()[i].0 != self.entries_seq()[k].0);
        }
    }

    /// How overwriting the entry at `i` changes every balance and the total.
    proof fn lemma_update_entry(pre: BalanceStore, post: BalanceStore, i: int, a: Address, v: i128)
        requires
            pre.wf(),
            0 <= i < pre.entries_seq().len(),
            pre.entries_seq()[i].0 == a,
            v >= 0,
            post.entries_seq() == pre.entries_seq().update(i, (a, v)),
        ensures
            post.wf(),
            post.spec_balance(a) == v as int,
            forall|b: Address| b != a ==> post.spec_balance(b) == pre.spec_balance(b),
            post.spec_total() == pre.spec_total() - pre.entries_seq()[i].1 + v,
    {
        let s = pre.entries_seq();
        let t = post.entries_seq();
        assert(forall|j: int| 0 <= j < s.len() ==> (#[trigger] t[j]).0 == s[j].0);
        assert(post.wf());
        post.lemma_found_index(a, i);
        assert forall|b: Address| b != a implies post.spec_balance(b) == pre.spec_balance(b) by {
            if pre.spec_has(b) {
                let k = pre.spec_index_of(b);
                assert(0 <= k < s.len() && s[k].0 == b);
                assert(k != i);
                pre.lemma_found_index(b, k);
                post.lemma_found_index(b, k);
            } else {
                if post.spec_has(b) {
                    let k = post.spec_index_of(b);
                    assert(t[k].0 == b);
                    assert(s[k].0 == b);
                }
            }
        }
        lemma_sum_update(s, i, (a, v));
    }

    /// How appending an entry for a fresh address changes every balance and
    /// the total.
    proof fn lemma_push_entry(pre: BalanceStore, post: BalanceStore, a: Address, v: i128)
        requires
            pre.wf(),
            !pre.spec_has(a),
            v >= 0,
            post.entries_seq() == pre.entries_seq().push((a, v)),
        ensures
            post.wf(),
            post.spec_balance(a) == v as int,
            forall|b: Address| b != a ==> post.spec_balance(b) == pre.spec_balance(b),
            post.spec_total() == pre.spec_total() + v,
    {
        let s = pre.entries_seq();
        let t = post.entries_seq();
        assert forall|i: int, j: int|
            0 <= i < j < t.len() implies (#[trigger] t[i]).0 != (#[trigger] t[j]).0 by {
            if j == s.len() {
                assert(t[i] == s[i]);
                assert(s[i].0 != a);
            }
        }
        assert(post.wf());
        post.lemma_found_index(a, s.len() as int);
        assert forall|b: Address| b != a implies post.spec_balance(b) == pre.spec_balance(b) by {
            if pre.spec_has(b) {
                let k = pre.spec_index_of(b);
                assert(0 <= k < s.len() && s[k].0 == b);
                pre.lemma_found_index(b, k);
                post.lemma_found_index(b, k);
            } else {
                if post.spec_has(b) {
                    let k = post.spec_index_of(b);
                    assert(t[k].0 == b);
                    assert(k != s.len());
                    assert(s[k].0 == b);
                }
            }
        }
        lemma_sum_push(s, (a, v));
    }

    /// An empty store: every address holds zero.
    pub fn new() -> (r: BalanceStore)
        ensures
            r.wf(),
            forall|a: Address| r.spec_balance(a) == 0,
            r.spec_total() == 0,
    {
        BalanceStore { entries: Vec::new() }
    }

    /// The index of the entry for `a`, if one exists.
    fn find(&self, a: Address) -> (r: Option<usize>)
        ensures
            match r {
                Some(i) => i < self.entries_seq().len() && self.entries_seq()[i as int].0 == a,
                None => !self.spec_has(a),
            },
    {
        let n = self.entries.len();
        let mut i: usize = 0;
        while i < n
            invariant
                n == self.entries_seq().len(),
                i <= n,
                forall|j: int| 0 <= j < i ==> (#[trigger] self.entries_seq()[j]).0 != a,
            decreases n - i,
        {
            if self.entries[i].0 == a {
                return Some(i);
            }
            i += 1;
        }
        None
    }

    /// The balance of `a`; zero for an address with no entry. Never fails.
    pub fn balance_of(&self, id: Address) -> (r: i128)
        requires
            self.wf(),
        ensures
            r as int == self.spec_balance(id),
            r >= 0,
    {
        match self.find(id) {
            Some(i) => {
                proof {
                    self.lemma_found_index(id, i as int);
                }
                self.entries[i].1
            },
            None => 0,
        }
    }

    /// Adds `amount` to `id`'s balance, refusing a result beyond the
    /// representable range.
    pub fn credit(&mut self, id: Address, amount: i128) -> (r: Result<(), TokenError>)
        requires
            old(self).wf(),
            amount > 0,
        ensures
            final(self).wf(),
            r is Ok <==> old(self).spec_balance(id) + amount <= i128::MAX,
            r is Err ==> r == Err::<(), TokenError>(TokenError::Overflow) && *final(self) == *old(
                self,
            ),
            r is Ok ==> final(self).spec_balance(id) == old(self).spec_balance(id) + amount,
            r is Ok ==> forall|b: Address|
                b != id ==> final(self).spec_balance(b) == old(self).spec_balance(b),
            r is Ok ==> final(self).spec_total() == old(self).spec_total() + amount,
    {
        match self.find(id) {
            Some(i) => {
                proof {
                    self.lemma_found_index(id, i as int);
                }
                let cur = self.entries[i].1;
                if cur > i128::MAX - amount {
                    return Err(TokenError::Overflow);
                }
                let updated = cur + amount;
                self.entries[i] = (id, updated);
                proof {
                    BalanceStore::lemma_update_entry(*old(self), *self, i as int, id, updated);
                }
                Ok(())
            },
            None => {
                self.entries.push((id, amount));
                proof {
                    BalanceStore::lemma_push_entry(*old(self), *self, id, amount);
                }
                Ok(())
            },
        }
    }

    /// Subtracts `amount` from `id`'s balance, refusing a debit beyond the
    /// held amount.
    pub fn debit(&mut self, id: Address, amount: i128) -> (r: Result<(), TokenError>)
        requires
            old(self).wf(),
            amount > 0,
        ensures
            final(self).wf(),
            r is Ok <==> old(self).spec_balance(id) >= amount,
            r is Err ==> r == Err::<(), TokenError>(TokenError::InsufficientBalance) && *final(self)
                == *old(self),
            r is Ok ==> final(self).spec_balance(id) == old(self).spec_balance(id) - amount,
            r is Ok ==> forall|b: Address|
                b != id ==> final(self).spec_balance(b) == old(self).spec_balance(b),
            r is Ok ==> final(self).spec_total() == old(self).spec_total() - amount,
    {
        match self.find(id) {
            Some(i) => {
                proof {
                    self.lemma_found_index(id, i as int);
                }
                let cur = self.entries[i].1;
                if cur < amount {
                    return Err(TokenError::InsufficientBalance);
                }
                let updated = cur - amount;
                self.entries[i] = (id, updated);
                proof {
                    BalanceStore::lemma_update_entry(*old(self), *self, i as int, id, updated);
                }
                Ok(())
            },
            None => Err(TokenError::InsufficientBalance),
        }
    }
}

} // verus!
