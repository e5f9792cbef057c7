//! The transfer engine: the token itself.

use vstd::prelude::*;

use crate::address::Address;
use crate::allowance::AllowanceRecord;
use crate::allowance::AllowanceStore;
use crate::auth::AuthorizationGate;
use crate::balance::BalanceStore;
use crate::errors::TokenError;
use crate::events::EventLog;
use crate::events::TokenEvents;
use crate::metadata::TokenMetadata;
use crate::Token;

verus! {

/// A token: balances, allowances and static metadata, moved only through
/// the operations of the [`Token`] trait.
///
/// Every operation runs in a fixed order — authorization check, allowance
/// consumption (if any), balance mutation, event emission — and on any
/// failure returns with the state exactly as it found it and nothing
/// published.
pub struct TransferEngine {
    balances: BalanceStore,
    allowances: AllowanceStore,
    metadata: TokenMetadata,
}

impl TransferEngine {
    /// The balance store.
    pub closed spec fn spec_balances(self) -> BalanceStore {
        self.balances
    }

    /// The allowance store.
    pub closed spec fn spec_allowances(self) -> AllowanceStore {
        self.allowances
    }

    /// The metadata.
    pub closed spec fn spec_metadata(self) -> TokenMetadata {
        self.metadata
    }

    /// The stored grant of the pair, expiration not yet applied.
    pub open spec fn spec_allowance_record(self, owner: Address, spender: Address) -> Option<
        AllowanceRecord,
    > {
        self.spec_allowances().spec_record(owner, spender)
    }

    /// A token with the given metadata and no balances or allowances.
    pub fn new(metadata: TokenMetadata) -> (r: TransferEngine)
        ensures
            r.wf(),
            forall|a: Address| r.spec_balance(a) == 0,
            forall|o: Address, s: Address| #[trigger] r.spec_allowance_record(o, s) is None,
            r.spec_total_supply() == 0,
            r.spec_metadata() == metadata,
    {
        TransferEngine {
            balances: BalanceStore::new(),
            allowances: AllowanceStore::new(),
            metadata,
        }
    }

    /// A token over existing stores.
    ///
    /// This is the hook for token-specific extensions (minting policy,
    /// administrative clawback) and tests, which prepare balances through
    /// [`BalanceStore::credit`] and pair the change with the matching
    /// record from [`TokenEvents`].
    pub fn from_parts(
        balances: BalanceStore,
        allowances: AllowanceStore,
        metadata: TokenMetadata,
    ) -> (r: TransferEngine)
        ensures
            r.spec_balances() == balances,
            r.spec_allowances() == allowances,
            r.spec_metadata() == metadata,
    {
        TransferEngine { balances, allowances, metadata }
    }
}

impl Token for TransferEngine {
    /// Both stores are well-formed.
    open spec fn wf(&self) -> bool {
        self.spec_balances().wf() && self.spec_allowances().wf()
    }

    open spec fn spec_balance(&self, a: Address) -> int {
        self.spec_balances().spec_balance(a)
    }

    open spec fn spec_allowance(
        &self,
        owner: Address,
        spender: Address,
        current_ledger: u32,
    ) -> int {
        self.spec_allowances().spec_effective(owner, spender, current_ledger)
    }

    open spec fn spec_total_supply(&self) -> int {
        self.spec_balances().spec_total()
    }

    open spec fn spec_decimals(&self) -> u32 {
        self.spec_metadata().decimals
    }

    open spec fn spec_name(&self) -> Seq<char> {
        self.spec_metadata().name@
    }

    open spec fn spec_symbol(&self) -> Seq<char> {
        self.spec_metadata().symbol@
    }

    fn allowance(&self, from: Address, spender: Address, current_ledger: u32) -> (r: i128) {
        self.allowances.get(from, spender, current_ledger)
    }

    fn approve(
        &mut self,
        gate: &AuthorizationGate,
        events: &mut EventLog,
        from: Address,
        spender: Address,
        amount: i128,
        live_until_ledger: u32,
        current_ledger: u32,
    ) -> (r: Result<(), TokenError>)
        ensures
            r is Ok ==> final(self).spec_allowance_record(from, spender) == Some(
                AllowanceRecord { owner: from, spender, amount, live_until_ledger },
            ),
            r is Ok ==> forall|o2: Address, s2: Address|
                !(o2 == from && s2 == spender) ==> #[trigger] final(self).spec_allowance_record(
                    o2,
                    s2,
                ) == old(self).spec_allowance_record(o2, s2),
            final(self).spec_metadata() == old(self).spec_metadata(),
    {
        match gate.require_authorized(from) {
            Ok(()) => {},
            Err(e) => {
                return Err(e);
            },
        }
        match self.allowances.set(from, spender, amount, live_until_ledger, current_ledger) {
            Ok(()) => {},
            Err(e) => {
                return Err(e);
            },
        }
        TokenEvents::approve(events, from, spender, amount, live_until_ledger);
        Ok(())
    }

    fn balance(&self, id: Address) -> (r: i128) {
        self.balances.balance_of(id)
    }

    fn transfer(
        &mut self,
        gate: &AuthorizationGate,
        events: &mut EventLog,
        from: Address,
        to: Address,
        amount: i128,
    ) -> (r: Result<(), TokenError>)
        ensures
            forall|o2: Address, s2: Address| #[trigger]
                final(self).spec_allowance_record(o2, s2) == old(self).spec_allowance_record(
                    o2,
                    s2,
                ),
            final(self).spec_metadata() == old(self).spec_metadata(),
    {
        match gate.require_authorized(from) {
            Ok(()) => {},
            Err(e) => {
                return Err(e);
            },
        }
        let from_balance = self.balances.balance_of(from);
        if from_balance < amount {
            return Err(TokenError::InsufficientBalance);
        }
        if from != to {
            let to_balance = self.balances.balance_of(to);
            if to_balance > i128::MAX - amount {
                return Err(TokenError::Overflow);
            }
        }
        match self.balances.debit(from, amount) {
            Ok(()) => {},
            Err(e) => {
                return Err(e);
            },
        }
        match self.balances.credit(to, amount) {
            Ok(()) => {},
            Err(e) => {
                return Err(e);
            },
        }
        TokenEvents::transfer(events, from, to, amount);
        Ok(())
    }

    fn transfer_from(
        &mut self,
        gate: &AuthorizationGate,
        events: &mut EventLog,
        spender: Address,
        from: Address,
        to: Address,
        amount: i128,
        current_ledger: u32,
    ) -> (r: Result<(), TokenError>)
        ensures
            r is Ok ==> (match old(self).spec_allowance_record(from, spender) {
                Some(rec) => final(self).spec_allowance_record(from, spender) == Some(
                    AllowanceRecord {
                        owner: from,
                        spender,
                        amount: (rec.amount - amount) as i128,
                        live_until_ledger: rec.live_until_ledger,
                    },
                ),
                None => false,
            }),
            r is Ok ==> forall|o2: Address, s2: Address|
                !(o2 == from && s2 == spender) ==> #[trigger] final(self).spec_allowance_record(
                    o2,
                    s2,
                ) == old(self).spec_allowance_record(o2, s2),
            final(self).spec_metadata() == old(self).spec_metadata(),
    {
        match gate.require_authorized(spender) {
            Ok(()) => {},
            Err(e) => {
                return Err(e);
            },
        }
        let effective = self.allowances.get(from, spender, current_ledger);
        if effective < amount {
            return Err(TokenError::InsufficientAllowance);
        }
        let from_balance = self.balances.balance_of(from);
        if from_balance < amount {
            return Err(TokenError::InsufficientBalance);
        }
        if from != to {
            let to_balance = self.balances.balance_of(to);
            if to_balance > i128::MAX - amount {
                return Err(TokenError::Overflow);
            }
        }
        match self.allowances.consume(from, spender, amount, current_ledger) {
            Ok(()) => {},
            Err(e) => {
                return Err(e);
            },
        }
        match self.balances.debit(from, amount) {
            Ok(()) => {},
            Err(e) => {
                return Err(e);
            },
        }
        match self.balances.credit(to, amount) {
            Ok(()) => {},
            Err(e) => {
                return Err(e);
            },
        }
        TokenEvents::transfer(events, from, to, amount);
        Ok(())
    }

    fn burn(
        &mut self,
        gate: &AuthorizationGate,
        events: &mut EventLog,
        from: Address,
        amount: i128,
    ) -> (r: Result<(), TokenError>)
        ensures
            forall|o2: Address, s2: Address| #[trigger]
                final(self).spec_allowance_record(o2, s2) == old(self).spec_allowance_record(
                    o2,
                    s2,
                ),
            final(self).spec_metadata() == old(self).spec_metadata(),
    {
        match gate.require_authorized(from) {
            Ok(()) => {},
            Err(e) => {
                return Err(e);
            },
        }
        match self.balances.debit(from, amount) {
            Ok(()) => {},
            Err(e) => {
                return Err(e);
            },
        }
        TokenEvents::burn(events, from, amount);
        Ok(())
    }

    fn burn_from(
        &mut self,
        gate: &AuthorizationGate,
        events: &mut EventLog,
        spender: Address,
        from: Address,
        amount: i128,
        current_ledger: u32,
    ) -> (r: Result<(), TokenError>)
        ensures
            r is Ok ==> (match old(self).spec_allowance_record(from, spender) {
                Some(rec) => final(self).spec_allowance_record(from, spender) == Some(
                    AllowanceRecord {
                        owner: from,
                        spender,
                        amount: (rec.amount - amount) as i128,
                        live_until_ledger: rec.live_until_ledger,
                    },
                ),
                None => false,
            }),
            r is Ok ==> forall|o2: Address, s2: Address|
                !(o2 == from && s2 == spender) ==> #[trigger] final(self).spec_allowance_record(
                    o2,
                    s2,
                ) == old(self).spec_allowance_record(o2, s2),
            final(self).spec_metadata() == old(self).spec_metadata(),
    {
        match gate.require_authorized(spender) {
            Ok(()) => {},
            Err(e) => {
                return Err(e);
            },
        }
        let effective = self.allowances.get(from, spender, current_ledger);
        if effective < amount {
            return Err(TokenError::InsufficientAllowance);
        }
        let from_balance = self.balances.balance_of(from);
        if from_balance < amount {
            return Err(TokenError::InsufficientBalance);
        }
        match self.allowances.consume(from, spender, amount, current_ledger) {
            Ok(()) => {},
            Err(e) => {
                return Err(e);
            },
        }
        match self.balances.debit(from, amount) {
            Ok(()) => {},
            Err(e) => {
                return Err(e);
            },
        }
        TokenEvents::burn(events, from, amount);
        Ok(())
    }

    fn decimals(&self) -> (r: u32) {
        self.metadata.decimals
    }

    fn name(&self) -> (r: String) {
        self.metadata.name.clone()
    }

    fn symbol(&self) -> (r: String) {
        self.metadata.symbol.clone()
    }
}

} // verus!
