//! Event records and the append-only log they are published to.

use vstd::prelude::*;

use crate::address::Address;

verus! {

/// A structured event record, `(topics, data)` in wire order.
///
/// Each variant lists its topic addresses first, in topic order, and its
/// data fields after them, in data order; the variant name is the leading
/// topic symbol. External indexers match on exactly this shape, so field
/// order is part of the contract.
#[derive(Clone, Copy, PartialEq, Eq, Structural, Debug)]
pub enum Event {
    /// topics `["approve", from, spender]`, data `[amount, live_until_ledger]`.
    Approve { from: Address, spender: Address, amount: i128, live_until_ledger: u32 },
    /// topics `["transfer", from, to]`, data `[amount]`.
    Transfer { from: Address, to: Address, amount: i128 },
    /// topics `["mint", admin, to]`, data `[amount]`.
    Mint { admin: Address, to: Address, amount: i128 },
    /// topics `["clawback", admin, from]`, data `[amount]`.
    Clawback { admin: Address, from: Address, amount: i128 },
    /// topics `["set_authorized", admin, id]`, data `[authorize]`.
    SetAuthorized { admin: Address, id: Address, authorize: bool },
    /// topics `["set_admin", admin]`, data `[new_admin]`.
    SetAdmin { admin: Address, new_admin: Address },
    /// topics `["burn", from]`, data `[amount]`.
    Burn { from: Address, amount: i128 },
}

/// An append-only log of event records.
///
/// The core publishes exactly one record per successful mutating operation
/// and none on failure; durability and indexing of the records belong to
/// the host platform, which drains the log at the call boundary.
pub struct EventLog {
    records: Vec<Event>,
}

impl View for EventLog {
    type V = Seq<Event>;

    closed spec fn view(&self) -> Seq<Event> {
        self.records@
    }
}

impl EventLog {
    /// An empty log.
    pub fn new() -> (r: EventLog)
        ensures
            r@ == Seq::<Event>::empty(),
    {
        EventLog { records: Vec::new() }
    }

    /// Appends one record.
    pub fn publish(&mut self, e: Event)
        ensures
            final(self)@ == old(self)@.push(e),
    {
        self.records.push(e);
    }

    /// The number of records published so far.
    pub fn len(&self) -> (r: usize)
        ensures
            r == self@.len(),
    {
        self.records.len()
    }

    /// The `i`-th record, oldest first.
    pub fn get(&self, i: usize) -> (r: Event)
        requires
            i < self@.len(),
        ensures
            r == self@[i as int],
    {
        self.records[i]
    }
}

/// Constructors for the protocol's event vocabulary: each method builds the
/// record for one event kind, with the topic and data fields in wire order,
/// and appends it to the log.
pub struct TokenEvents {}

impl TokenEvents {
    /// Publishes the record of an approval.
    pub fn approve(
        log: &mut EventLog,
        from: Address,
        to: Address,
        amount: i128,
        expiration_ledger: u32,
    )
        ensures
            final(log)@ == old(log)@.push(
                Event::Approve { from, spender: to, amount, live_until_ledger: expiration_ledger },
            ),
    {
        log.publish(
            Event::Approve { from, spender: to, amount, live_until_ledger: expiration_ledger },
        );
    }

    /// Publishes the record of a transfer.
    pub fn transfer(log: &mut EventLog, from: Address, to: Address, amount: i128)
        ensures
            final(log)@ == old(log)@.push(Event::Transfer { from, to, amount }),
    {
        log.publish(Event::Transfer { from, to, amount });
    }

    /// Publishes the record of a mint.
    pub fn mint(log: &mut EventLog, admin: Address, to: Address, amount: i128)
        ensures
            final(log)@ == old(log)@.push(Event::Mint { admin, to, amount }),
    {
        log.publish(Event::Mint { admin, to, amount });
    }

    /// Publishes the record of an administrative clawback.
    pub fn clawback(log: &mut EventLog, admin: Address, from: Address, amount: i128)
        ensures
            final(log)@ == old(log)@.push(Event::Clawback { admin, from, amount }),
    {
        log.publish(Event::Clawback { admin, from, amount });
    }

    /// Publishes the record of an authorization flag change.
    pub fn set_authorized(log: &mut EventLog, admin: Address, id: Address, authorize: bool)
        ensures
            final(log)@ == old(log)@.push(Event::SetAuthorized { admin, id, authorize }),
    {
        log.publish(Event::SetAuthorized { admin, id, authorize });
    }

    /// Publishes the record of an administrator change.
    pub fn set_admin(log: &mut EventLog, admin: Address, new_admin: Address)
        ensures
            final(log)@ == old(log)@.push(Event::SetAdmin { admin, new_admin }),
    {
        log.publish(Event::SetAdmin { admin, new_admin });
    }

    /// Publishes the record of a burn.
    pub fn burn(log: &mut EventLog, from: Address, amount: i128)
        ensures
            final(log)@ == old(log)@.push(Event::Burn { from, amount }),
    {
        log.publish(Event::Burn { from, amount });
    }
}

} // verus!
