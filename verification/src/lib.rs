//! Core of a fungible-token ledger: the balance and allowance accounting
//! state machine behind a standard token interface on a ledger-sequence-
//! numbered platform.
//!
//! The verified core keeps three pieces of state — per-address balances,
//! per-(owner, spender) allowances with lazy expiration, and an append-only
//! log of event records — and moves tokens only through the operations of
//! the [`Token`] trait. The host platform's primitives (its clock, its
//! authorization capability, its durable event sink) enter only as plain
//! values: the current ledger number, an [`auth::AuthorizationGate`], and an
//! [`events::EventLog`] handed to each operation.

use vstd::prelude::*;

pub mod address;
pub mod allowance;
pub mod auth;
pub mod balance;
pub mod engine;
pub mod errors;
pub mod events;
pub mod laws;
pub mod metadata;

use crate::address::Address;
use crate::auth::AuthorizationGate;
use crate::errors::TokenError;
use crate::events::Event;
use crate::events::EventLog;

verus! {

/// The standard token interface: every conforming token exposes balance
/// queries, direct transfers, delegated (allowance-based) transfers,
/// burning and static metadata with these signatures, and its behavior is
/// pinned by the contracts below, independent of how it stores its state.
///
/// `current_ledger` is the platform's sequence number at the time of the
/// call; `gate` answers whether an address authorized the call; `events`
/// receives exactly one record per successful mutating operation and none
/// on failure. A failed operation leaves the token exactly as it found it.
pub trait Token: Sized {
    /// Well-formedness of the token's own state; every operation preserves
    /// it.
    spec fn wf(&self) -> bool;

    /// The balance of `a`: zero for an address the token has never seen.
    spec fn spec_balance(&self, a: Address) -> int;

    /// The effective allowance of `spender` on `owner`'s balance at
    /// `current_ledger`: zero once the stored grant has expired.
    spec fn spec_allowance(&self, owner: Address, spender: Address, current_ledger: u32) -> int;

    /// The sum of all balances: the token amount in circulation.
    spec fn spec_total_supply(&self) -> int;

    /// The number of decimals used to represent amounts.
    spec fn spec_decimals(&self) -> u32;

    /// The name of the token.
    spec fn spec_name(&self) -> Seq<char>;

    /// The symbol of the token.
    spec fn spec_symbol(&self) -> Seq<char>;

    /// Returns the allowance for `spender` to transfer from `from`,
    /// projected through expiration: an entry past `current_ledger` reads
    /// as zero.
    fn allowance(&self, from: Address, spender: Address, current_ledger: u32) -> (r: i128)
        requires
            self.wf(),
        ensures
            r as int == self.spec_allowance(from, spender, current_ledger),
            r >= 0,
    ;

    /// Set the allowance for `spender` to transfer or burn out of `from`'s
    /// balance, replacing any existing grant between the pair wholesale:
    /// afterwards the pair's allowance reads `amount` at every current
    /// ledger up to `live_until_ledger` and zero past it, whatever was
    /// granted before.
    fn approve(
        &mut self,
        gate: &AuthorizationGate,
        events: &mut EventLog,
        from: Address,
        spender: Address,
        amount: i128,
        live_until_ledger: u32,
        current_ledger: u32,
    ) -> (r: Result<(), TokenError>)
        requires
            old(self).wf(),
            amount >= 0,
        ensures
            final(self).wf(),
            !gate.spec_authorized(from) ==> r == Err::<(), TokenError>(TokenError::Unauthorized),
            gate.spec_authorized(from) && amount > 0 && live_until_ledger < current_ledger ==> r
                == Err::<(), TokenError>(TokenError::InvalidExpirationLedger),
            r is Err ==> *final(self) == *old(self) && final(events)@ == old(events)@,
            r is Ok <==> gate.spec_authorized(from) && (amount == 0 || live_until_ledger
                >= current_ledger),
            r is Ok ==> forall|l: u32|
                #[trigger] final(self).spec_allowance(from, spender, l) == if l
                    <= live_until_ledger {
                    amount as int
                } else {
                    0
                },
            r is Ok ==> forall|o2: Address, s2: Address, l: u32|
                !(o2 == from && s2 == spender) ==> #[trigger] final(self).spec_allowance(o2, s2, l)
                    == old(self).spec_allowance(o2, s2, l),
            forall|a: Address| final(self).spec_balance(a) == old(self).spec_balance(a),
            final(self).spec_total_supply() == old(self).spec_total_supply(),
            final(self).spec_decimals() == old(self).spec_decimals() && final(self).spec_name()
                == old(self).spec_name() && final(self).spec_symbol() == old(self).spec_symbol(),
            r is Ok ==> final(events)@ == old(events)@.push(
                Event::Approve { from, spender, amount, live_until_ledger },
            ),
    ;

    /// Returns the balance of `id`; an address with no record holds zero.
    fn balance(&self, id: Address) -> (r: i128)
        requires
            self.wf(),
        ensures
            r as int == self.spec_balance(id),
            r >= 0,
    ;

    /// Transfer `amount` from `from` to `to`: debit `from`, credit `to`,
    /// touching no allowance and conserving the total supply.
    fn transfer(
        &mut self,
        gate: &AuthorizationGate,
        events: &mut EventLog,
        from: Address,
        to: Address,
        amount: i128,
    ) -> (r: Result<(), TokenError>)
        requires
            old(self).wf(),
            amount > 0,
        ensures
            final(self).wf(),
            !gate.spec_authorized(from) ==> r == Err::<(), TokenError>(TokenError::Unauthorized),
            gate.spec_authorized(from) && old(self).spec_balance(from) < amount ==> r == Err::<
                (),
                TokenError,
            >(TokenError::InsufficientBalance),
            gate.spec_authorized(from) && old(self).spec_balance(from) >= amount && from != to
                && old(self).spec_balance(to) + amount > i128::MAX ==> r == Err::<
                (),
                TokenError,
            >(TokenError::Overflow),
            r is Err ==> *final(self) == *old(self) && final(events)@ == old(events)@,
            r is Ok <==> gate.spec_authorized(from) && old(self).spec_balance(from) >= amount && (
            from == to || old(self).spec_balance(to) + amount <= i128::MAX),
            r is Ok ==> forall|x: Address|
                final(self).spec_balance(x) == old(self).spec_balance(x) + (
                if x == to {
                    amount as int
                } else {
                    0
                }) - (
                if x == from {
                    amount as int
                } else {
                    0
                }),
            forall|o2: Address, s2: Address, l: u32| #[trigger]
                final(self).spec_allowance(o2, s2, l) == old(self).spec_allowance(o2, s2, l),
            final(self).spec_total_supply() == old(self).spec_total_supply(),
            final(self).spec_decimals() == old(self).spec_decimals() && final(self).spec_name()
                == old(self).spec_name() && final(self).spec_symbol() == old(self).spec_symbol(),
            r is Ok ==> final(events)@ == old(events)@.push(Event::Transfer { from, to, amount }),
    ;

    /// Transfer `amount` from `from` to `to`, consuming exactly `amount` of
    /// `spender`'s effective allowance and no more; the total supply is
    /// conserved.
    fn transfer_from(
        &mut self,
        gate: &AuthorizationGate,
        events: &mut EventLog,
        spender: Address,
        from: Address,
        to: Address,
        amount: i128,
        current_ledger: u32,
    ) -> (r: Result<(), TokenError>)
        requires
            old(self).wf(),
            amount > 0,
        ensures
            final(self).wf(),
            !gate.spec_authorized(spender) ==> r == Err::<(), TokenError>(
                TokenError::Unauthorized,
            ),
            gate.spec_authorized(spender) && old(self).spec_allowance(
                from,
                spender,
                current_ledger,
            ) < amount ==> r == Err::<(), TokenError>(TokenError::InsufficientAllowance),
            gate.spec_authorized(spender) && old(self).spec_allowance(
                from,
                spender,
                current_ledger,
            ) >= amount && old(self).spec_balance(from) < amount ==> r == Err::<(), TokenError>(
                TokenError::InsufficientBalance,
            ),
            gate.spec_authorized(spender) && old(self).spec_allowance(
                from,
                spender,
                current_ledger,
            ) >= amount && old(self).spec_balance(from) >= amount && from != to && old(
                self,
            ).spec_balance(to) + amount > i128::MAX ==> r == Err::<(), TokenError>(
                TokenError::Overflow,
            ),
            r is Err ==> *final(self) == *old(self) && final(events)@ == old(events)@,
            r is Ok <==> gate.spec_authorized(spender) && old(self).spec_allowance(
                from,
                spender,
                current_ledger,
            ) >= amount && old(self).spec_balance(from) >= amount && (from == to || old(
                self,
            ).spec_balance(to) + amount <= i128::MAX),
            r is Ok ==> forall|x: Address|
                final(self).spec_balance(x) == old(self).spec_balance(x) + (
                if x == to {
                    amount as int
                } else {
                    0
                }) - (
                if x == from {
                    amount as int
                } else {
                    0
                }),
            r is Ok ==> final(self).spec_allowance(from, spender, current_ledger) == old(
                self,
            ).spec_allowance(from, spender, current_ledger) - amount,
            r is Ok ==> forall|o2: Address, s2: Address, l: u32|
                !(o2 == from && s2 == spender) ==> #[trigger] final(self).spec_allowance(o2, s2, l)
                    == old(self).spec_allowance(o2, s2, l),
            final(self).spec_total_supply() == old(self).spec_total_supply(),
            final(self).spec_decimals() == old(self).spec_decimals() && final(self).spec_name()
                == old(self).spec_name() && final(self).spec_symbol() == old(self).spec_symbol(),
            r is Ok ==> final(events)@ == old(events)@.push(Event::Transfer { from, to, amount }),
    ;

    /// Burn `amount` out of `from`'s balance: the total supply decreases by
    /// exactly `amount`.
    fn burn(
        &mut self,
        gate: &AuthorizationGate,
        events: &mut EventLog,
        from: Address,
        amount: i128,
    ) -> (r: Result<(), TokenError>)
        requires
            old(self).wf(),
            amount > 0,
        ensures
            final(self).wf(),
            !gate.spec_authorized(from) ==> r == Err::<(), TokenError>(TokenError::Unauthorized),
            gate.spec_authorized(from) && old(self).spec_balance(from) < amount ==> r == Err::<
                (),
                TokenError,
            >(TokenError::InsufficientBalance),
            r is Err ==> *final(self) == *old(self) && final(events)@ == old(events)@,
            r is Ok <==> gate.spec_authorized(from) && old(self).spec_balance(from) >= amount,
            r is Ok ==> forall|x: Address|
                final(self).spec_balance(x) == old(self).spec_balance(x) - (
                if x == from {
                    amount as int
                } else {
                    0
                }),
            forall|o2: Address, s2: Address, l: u32| #[trigger]
                final(self).spec_allowance(o2, s2, l) == old(self).spec_allowance(o2, s2, l),
            r is Ok ==> final(self).spec_total_supply() == old(self).spec_total_supply() - amount,
            r is Err ==> final(self).spec_total_supply() == old(self).spec_total_supply(),
            final(self).spec_decimals() == old(self).spec_decimals() && final(self).spec_name()
                == old(self).spec_name() && final(self).spec_symbol() == old(self).spec_symbol(),
            r is Ok ==> final(events)@ == old(events)@.push(Event::Burn { from, amount }),
    ;

    /// Burn `amount` out of `from`'s balance, consuming exactly `amount` of
    /// `spender`'s effective allowance; the total supply decreases by
    /// exactly `amount`.
    fn burn_from(
        &mut self,
        gate: &AuthorizationGate,
        events: &mut EventLog,
        spender: Address,
        from: Address,
        amount: i128,
        current_ledger: u32,
    ) -> (r: Result<(), TokenError>)
        requires
            old(self).wf(),
            amount > 0,
        ensures
            final(self).wf(),
            !gate.spec_authorized(spender) ==> r == Err::<(), TokenError>(
                TokenError::Unauthorized,
            ),
            gate.spec_authorized(spender) && old(self).spec_allowance(
                from,
                spender,
                current_ledger,
            ) < amount ==> r == Err::<(), TokenError>(TokenError::InsufficientAllowance),
            gate.spec_authorized(spender) && old(self).spec_allowance(
                from,
                spender,
                current_ledger,
            ) >= amount && old(self).spec_balance(from) < amount ==> r == Err::<(), TokenError>(
                TokenError::InsufficientBalance,
            ),
            r is Err ==> *final(self) == *old(self) && final(events)@ == old(events)@,
            r is Ok <==> gate.spec_authorized(spender) && old(self).spec_allowance(
                from,
                spender,
                current_ledger,
            ) >= amount && old(self).spec_balance(from) >= amount,
            r is Ok ==> forall|x: Address|
                final(self).spec_balance(x) == old(self).spec_balance(x) - (
                if x == from {
                    amount as int
                } else {
                    0
                }),
            r is Ok ==> final(self).spec_allowance(from, spender, current_ledger) == old(
                self,
            ).spec_allowance(from, spender, current_ledger) - amount,
            r is Ok ==> forall|o2: Address, s2: Address, l: u32|
                !(o2 == from && s2 == spender) ==> #[trigger] final(self).spec_allowance(o2, s2, l)
                    == old(self).spec_allowance(o2, s2, l),
            r is Ok ==> final(self).spec_total_supply() == old(self).spec_total_supply() - amount,
            r is Err ==> final(self).spec_total_supply() == old(self).spec_total_supply(),
            final(self).spec_decimals() == old(self).spec_decimals() && final(self).spec_name()
                == old(self).spec_name() && final(self).spec_symbol() == old(self).spec_symbol(),
            r is Ok ==> final(events)@ == old(events)@.push(Event::Burn { from, amount }),
    ;

    /// Returns the number of decimals used to represent amounts.
    fn decimals(&self) -> (r: u32)
        requires
            self.wf(),
        ensures
            r == self.spec_decimals(),
    ;

    /// Returns the name of the token.
    fn name(&self) -> (r: String)
        requires
            self.wf(),
        ensures
            r@ == self.spec_name(),
    ;

    /// Returns the symbol of the token.
    fn symbol(&self) -> (r: String)
        requires
            self.wf(),
        ensures
            r@ == self.spec_symbol(),
    ;
}

} // verus!
