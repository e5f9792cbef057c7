//! End-to-end behavior of the token core through its public interface.

use sep_41::address::Address;
use sep_41::allowance::AllowanceStore;
use sep_41::auth::AuthorizationGate;
use sep_41::balance::BalanceStore;
use sep_41::engine::TransferEngine;
use sep_41::errors::TokenError;
use sep_41::events::Event;
use sep_41::events::EventLog;
use sep_41::metadata::TokenMetadata;
use sep_41::Token;
use sep_41::events::TokenEvents;

fn metadata() -> TokenMetadata {
    TokenMetadata::new(7, "Example Token".to_string(), "EXT".to_string())
}

/// A token whose balances are exactly the given (address, amount) pairs.
fn token_with_balances(funded: &[(Address, i128)]) -> TransferEngine {
    let mut balances = BalanceStore::new();
    for (addr, amount) in funded {
        if *amount > 0 {
            balances.credit(*addr, *amount).unwrap();
        }
    }
    TransferEngine::from_parts(balances, AllowanceStore::new(), metadata())
}

/// A gate on which every listed address has authorized the call.
fn gate_for(addresses: &[Address]) -> AuthorizationGate {
    let mut gate = AuthorizationGate::new();
    for addr in addresses {
        gate.grant(*addr);
    }
    gate
}

#[test]
fn transfer_scenario() {
    let a = Address::new(1);
    let b = Address::new(2);
    let c = Address::new(3);
    let ledger: u32 = 20;
    let mut token = token_with_balances(&[(a, 1000), (b, 0)]);
    let gate = gate_for(&[a, b, c]);
    let mut log = EventLog::new();

    assert_eq!(token.transfer(&gate, &mut log, a, b, 400), Ok(()));
    assert_eq!(token.balance(a), 600);
    assert_eq!(token.balance(b), 400);
    assert_eq!(log.len(), 1);
    assert_eq!(log.get(0), Event::Transfer { from: a, to: b, amount: 400 });

    assert_eq!(token.approve(&gate, &mut log, a, c, 300, ledger + 10, ledger), Ok(()));
    assert_eq!(token.allowance(a, c, ledger), 300);

    assert_eq!(token.transfer_from(&gate, &mut log, c, a, b, 300, ledger), Ok(()));
    assert_eq!(token.balance(a), 300);
    assert_eq!(token.balance(b), 700);
    assert_eq!(token.allowance(a, c, ledger), 0);

    assert_eq!(
        token.transfer_from(&gate, &mut log, c, a, b, 1, ledger),
        Err(TokenError::InsufficientAllowance)
    );
    assert_eq!(token.balance(a), 300);
    assert_eq!(token.balance(b), 700);
    assert_eq!(log.len(), 3);
    assert_eq!(
        log.get(1),
        Event::Approve { from: a, spender: c, amount: 300, live_until_ledger: ledger + 10 }
    );
    assert_eq!(log.get(2), Event::Transfer { from: a, to: b, amount: 300 });
}

#[test]
fn allowance_reads_amount_until_expiration_then_zero() {
    let a = Address::new(1);
    let b = Address::new(2);
    let mut token = token_with_balances(&[(a, 500)]);
    let gate = gate_for(&[a]);
    let mut log = EventLog::new();

    assert_eq!(token.approve(&gate, &mut log, a, b, 250, 100, 50), Ok(()));
    assert_eq!(token.allowance(a, b, 50), 250);
    assert_eq!(token.allowance(a, b, 100), 250);
    assert_eq!(token.allowance(a, b, 101), 0);
}

#[test]
fn second_approve_overrides_first() {
    let a = Address::new(1);
    let b = Address::new(2);
    let ledger: u32 = 10;
    let mut token = token_with_balances(&[(a, 500)]);
    let gate = gate_for(&[a]);
    let mut log = EventLog::new();

    assert_eq!(token.approve(&gate, &mut log, a, b, 100, 200, ledger), Ok(()));
    assert_eq!(token.approve(&gate, &mut log, a, b, 50, 300, ledger), Ok(()));
    assert_eq!(token.allowance(a, b, ledger), 50);
    assert_eq!(token.allowance(a, b, 250), 50);
    assert_eq!(token.allowance(a, b, 301), 0);
}

#[test]
fn transfer_from_decrements_allowance_exactly() {
    let a = Address::new(1);
    let b = Address::new(2);
    let c = Address::new(3);
    let ledger: u32 = 10;
    let mut token = token_with_balances(&[(a, 1000)]);
    let gate = gate_for(&[a, b]);
    let mut log = EventLog::new();

    assert_eq!(token.approve(&gate, &mut log, a, b, 100, 500, ledger), Ok(()));
    assert_eq!(token.transfer_from(&gate, &mut log, b, a, c, 30, ledger), Ok(()));
    assert_eq!(token.allowance(a, b, ledger), 70);
    assert_eq!(token.balance(a), 970);
    assert_eq!(token.balance(c), 30);
}

#[test]
fn zero_amount_approve_with_past_expiration_succeeds() {
    let a = Address::new(1);
    let b = Address::new(2);
    let mut token = token_with_balances(&[]);
    let gate = gate_for(&[a]);
    let mut log = EventLog::new();

    assert_eq!(token.approve(&gate, &mut log, a, b, 0, 0, 5), Ok(()));
    assert_eq!(token.allowance(a, b, 5), 0);
    assert_eq!(log.len(), 1);
    assert_eq!(log.get(0), Event::Approve { from: a, spender: b, amount: 0, live_until_ledger: 0 });
}

#[test]
fn positive_approve_with_past_expiration_is_rejected() {
    let a = Address::new(1);
    let b = Address::new(2);
    let mut token = token_with_balances(&[]);
    let gate = gate_for(&[a]);
    let mut log = EventLog::new();

    assert_eq!(
        token.approve(&gate, &mut log, a, b, 10, 4, 5),
        Err(TokenError::InvalidExpirationLedger)
    );
    assert_eq!(token.allowance(a, b, 5), 0);
    assert_eq!(log.len(), 0);
}

#[test]
fn burn_reduces_balance_and_rejects_excess() {
    let a = Address::new(1);
    let mut token = token_with_balances(&[(a, 100)]);
    let gate = gate_for(&[a]);
    let mut log = EventLog::new();

    assert_eq!(token.burn(&gate, &mut log, a, 40), Ok(()));
    assert_eq!(token.balance(a), 60);
    assert_eq!(log.get(0), Event::Burn { from: a, amount: 40 });

    assert_eq!(token.burn(&gate, &mut log, a, 61), Err(TokenError::InsufficientBalance));
    assert_eq!(token.balance(a), 60);
    assert_eq!(log.len(), 1);
}

#[test]
fn burn_from_consumes_allowance_and_balance() {
    let a = Address::new(1);
    let b = Address::new(2);
    let ledger: u32 = 30;
    let mut token = token_with_balances(&[(a, 100)]);
    let gate = gate_for(&[b]);
    let mut log = EventLog::new();

    // The owner approves in a separate invocation that it authorized.
    let owner_gate = gate_for(&[a]);
    assert_eq!(token.approve(&owner_gate, &mut log, a, b, 80, 100, ledger), Ok(()));

    assert_eq!(token.burn_from(&gate, &mut log, b, a, 50, ledger), Ok(()));
    assert_eq!(token.balance(a), 50);
    assert_eq!(token.allowance(a, b, ledger), 30);
    assert_eq!(log.get(1), Event::Burn { from: a, amount: 50 });

    assert_eq!(
        token.burn_from(&gate, &mut log, b, a, 31, ledger),
        Err(TokenError::InsufficientAllowance)
    );
    assert_eq!(token.balance(a), 50);
}

#[test]
fn unauthorized_transfer_leaves_balances_unchanged() {
    let a = Address::new(1);
    let b = Address::new(2);
    let mut token = token_with_balances(&[(a, 1000), (b, 5)]);
    let gate = gate_for(&[b]);
    let mut log = EventLog::new();

    assert_eq!(token.transfer(&gate, &mut log, a, b, 10), Err(TokenError::Unauthorized));
    assert_eq!(token.balance(a), 1000);
    assert_eq!(token.balance(b), 5);
    assert_eq!(log.len(), 0);
}

#[test]
fn unauthorized_spender_cannot_transfer_from() {
    let a = Address::new(1);
    let b = Address::new(2);
    let c = Address::new(3);
    let ledger: u32 = 1;
    let mut token = token_with_balances(&[(a, 100)]);
    let owner_gate = gate_for(&[a]);
    let mut log = EventLog::new();
    assert_eq!(token.approve(&owner_gate, &mut log, a, b, 100, 100, ledger), Ok(()));

    let gate = gate_for(&[a, c]);
    assert_eq!(
        token.transfer_from(&gate, &mut log, b, a, c, 10, ledger),
        Err(TokenError::Unauthorized)
    );
    assert_eq!(token.balance(a), 100);
}

#[test]
fn expired_allowance_reads_zero_and_blocks_spending() {
    let a = Address::new(1);
    let b = Address::new(2);
    let c = Address::new(3);
    let mut token = token_with_balances(&[(a, 100)]);
    let gate = gate_for(&[a, b]);
    let mut log = EventLog::new();

    assert_eq!(token.approve(&gate, &mut log, a, b, 100, 60, 50), Ok(()));
    assert_eq!(token.allowance(a, b, 61), 0);
    assert_eq!(
        token.transfer_from(&gate, &mut log, b, a, c, 1, 61),
        Err(TokenError::InsufficientAllowance)
    );
    assert_eq!(token.balance(a), 100);
}

#[test]
fn balance_of_unknown_address_is_zero() {
    let token = token_with_balances(&[(Address::new(1), 10)]);
    assert_eq!(token.balance(Address::new(99)), 0);
}

#[test]
fn credit_past_representable_range_overflows() {
    let a = Address::new(1);
    let mut balances = BalanceStore::new();
    assert_eq!(balances.credit(a, i128::MAX), Ok(()));
    assert_eq!(balances.credit(a, 1), Err(TokenError::Overflow));
    assert_eq!(balances.balance_of(a), i128::MAX);
}

#[test]
fn transfer_onto_saturated_balance_overflows() {
    let a = Address::new(1);
    let b = Address::new(2);
    let mut token = token_with_balances(&[(a, 5), (b, i128::MAX)]);
    let gate = gate_for(&[a]);
    let mut log = EventLog::new();

    assert_eq!(token.transfer(&gate, &mut log, a, b, 1), Err(TokenError::Overflow));
    assert_eq!(token.balance(a), 5);
    assert_eq!(token.balance(b), i128::MAX);
    assert_eq!(log.len(), 0);
}

#[test]
fn transfer_to_self_leaves_balance_unchanged() {
    let a = Address::new(1);
    let mut token = token_with_balances(&[(a, 10)]);
    let gate = gate_for(&[a]);
    let mut log = EventLog::new();

    assert_eq!(token.transfer(&gate, &mut log, a, a, 7), Ok(()));
    assert_eq!(token.balance(a), 10);
    assert_eq!(log.get(0), Event::Transfer { from: a, to: a, amount: 7 });
}

#[test]
fn metadata_is_static_and_queryable() {
    let token = token_with_balances(&[]);
    assert_eq!(token.decimals(), 7);
    assert_eq!(token.name(), "Example Token".to_string());
    assert_eq!(token.symbol(), "EXT".to_string());
}

#[test]
fn event_vocabulary_covers_administrative_records() {
    let admin = Address::new(9);
    let user = Address::new(4);
    let other = Address::new(5);
    let mut log = EventLog::new();

    TokenEvents::mint(&mut log, admin, user, 1000);
    TokenEvents::clawback(&mut log, admin, user, 200);
    TokenEvents::set_authorized(&mut log, admin, user, true);
    TokenEvents::set_admin(&mut log, admin, other);
    TokenEvents::transfer(&mut log, user, other, 3);
    TokenEvents::approve(&mut log, user, other, 10, 99);
    TokenEvents::burn(&mut log, user, 1);

    assert_eq!(log.len(), 7);
    assert_eq!(log.get(0), Event::Mint { admin, to: user, amount: 1000 });
    assert_eq!(log.get(1), Event::Clawback { admin, from: user, amount: 200 });
    assert_eq!(log.get(2), Event::SetAuthorized { admin, id: user, authorize: true });
    assert_eq!(log.get(3), Event::SetAdmin { admin, new_admin: other });
    assert_eq!(log.get(4), Event::Transfer { from: user, to: other, amount: 3 });
    assert_eq!(log.get(5), Event::Approve { from: user, spender: other, amount: 10, live_until_ledger: 99 });
    assert_eq!(log.get(6), Event::Burn { from: user, amount: 1 });
}

#[test]
fn transfers_conserve_the_total_supply() {
    let a = Address::new(1);
    let b = Address::new(2);
    let c = Address::new(3);
    let ledger: u32 = 5;
    let mut token = token_with_balances(&[(a, 600), (b, 400)]);
    let gate = gate_for(&[a, b, c]);
    let mut log = EventLog::new();

    assert_eq!(token.transfer(&gate, &mut log, a, c, 150), Ok(()));
    assert_eq!(token.approve(&gate, &mut log, b, c, 300, 100, ledger), Ok(()));
    assert_eq!(token.transfer_from(&gate, &mut log, c, b, a, 250, ledger), Ok(()));
    assert_eq!(token.balance(a) + token.balance(b) + token.balance(c), 1000);
}
