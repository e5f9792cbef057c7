//! Ledger-wide laws of the token core.

use vstd::prelude::*;

use crate::address::Address;
use crate::allowance::AllowanceRecord;
use crate::engine::TransferEngine;
use crate::Token;

verus! {

/// Law: no balance is ever negative.
///
/// Every operation of the core keeps the token well-formed, so by induction
/// over any sequence of operations, every address's balance — stored or
/// implicit — stays at least zero.
pub proof fn lemma_balance_never_negative(t: TransferEngine, a: Address)
    requires
        t.wf(),
    ensures
        t.spec_balance(a) >= 0,
{
    let bs = t.spec_balances();
    if bs.spec_has(a) {
        let k = bs.spec_index_of(a);
        assert(0 <= k < bs.entries_seq().len() && bs.entries_seq()[k].0 == a);
        assert(bs.entries_seq()[k].1 >= 0);
    }
}

/// Law: an allowance read right after a successful
/// `approve(from, spender, amount, live_until_ledger)` — that is, in any
/// state whose stored grant for the pair is exactly the record that call
/// installs — returns `amount` at every current ledger up to the
/// expiration, and zero at every current ledger past it.
///
/// Because `approve` installs its record wholesale, the stored grant never
/// combines with an earlier one: a second approval fully overrides the
/// first, and the read sees only the newest record.
pub proof fn lemma_approve_then_allowance(
    t: TransferEngine,
    from: Address,
    spender: Address,
    amount: i128,
    live_until_ledger: u32,
    read_ledger: u32,
)
    requires
        t.spec_allowance_record(from, spender) == Some(
            AllowanceRecord { owner: from, spender, amount, live_until_ledger },
        ),
    ensures
        read_ledger <= live_until_ledger ==> t.spec_allowance(from, spender, read_ledger)
            == amount,
        read_ledger > live_until_ledger ==> t.spec_allowance(from, spender, read_ledger) == 0,
{
}

} // verus!
