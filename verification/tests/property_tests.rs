//! Scenario checks for the ledger's stated guarantees, on concrete values.

use payment_engine::{Amount, PaymentEngine, TxType, UserTransactions};

fn event(tx_type: TxType, client_id: u16, tx_id: u32, amount: Option<i64>) -> UserTransactions {
    UserTransactions { tx_type, client_id, tx_id, amount: amount.map(Amount::from_units) }
}

/// `total == available + held` for every account, checked after each step
/// of a mixed sequence of all five event kinds.
#[test]
fn total_equals_available_plus_held_after_each_event() {
    let events = vec![
        event(TxType::Deposit, 1, 1, Some(100_000)),
        event(TxType::Withdrawal, 1, 2, Some(25_000)),
        event(TxType::Dispute, 1, 1, None),
        event(TxType::Resolve, 1, 1, None),
        event(TxType::Deposit, 1, 5, Some(200_000)),
        event(TxType::Deposit, 2, 3, Some(50_000)),
        event(TxType::Dispute, 2, 3, None),
        event(TxType::Chargeback, 2, 3, None),
        event(TxType::Deposit, 3, 4, Some(1_000_000)),
        event(TxType::Withdrawal, 3, 6, Some(500_000)),
        event(TxType::Dispute, 3, 6, None),
    ];
    let mut engine = PaymentEngine::new();
    for ev in events {
        engine.process_action(ev);
        for account in engine.accounts.values() {
            assert_eq!(
                account.total.units(),
                account.available.units() + account.held.units()
            );
        }
    }
    assert_eq!(engine.accounts.get(&1).unwrap().available, Amount::from_units(275_000));
    assert_eq!(engine.accounts.get(&2).unwrap().available, Amount::from_units(-50_000));
    assert!(engine.accounts.get(&2).unwrap().locked);
    assert_eq!(engine.accounts.get(&3).unwrap().available, Amount::from_units(0));
    assert_eq!(engine.accounts.get(&3).unwrap().held, Amount::from_units(500_000));
}

/// Once a chargeback locks an account, no later event unlocks it.
#[test]
fn locked_is_never_reset() {
    let mut engine = PaymentEngine::new();
    engine.process_action(event(TxType::Deposit, 1, 1, Some(1_000_000)));
    engine.process_action(event(TxType::Dispute, 1, 1, None));
    engine.process_action(event(TxType::Chargeback, 1, 1, None));
    assert!(engine.accounts.get(&1).unwrap().locked);

    engine.process_action(event(TxType::Deposit, 1, 2, Some(500_000)));
    assert!(engine.accounts.get(&1).unwrap().locked);
    engine.process_action(event(TxType::Withdrawal, 1, 3, Some(100_000)));
    assert!(engine.accounts.get(&1).unwrap().locked);
    engine.process_action(event(TxType::Dispute, 1, 2, None));
    assert!(engine.accounts.get(&1).unwrap().locked);
    engine.process_action(event(TxType::Resolve, 1, 2, None));
    assert!(engine.accounts.get(&1).unwrap().locked);
}

/// A lock is advisory: later deposits and withdrawals still apply.
#[test]
fn locked_account_still_accepts_events() {
    let mut engine = PaymentEngine::new();
    engine.process_action(event(TxType::Deposit, 1, 1, Some(1_000_000)));
    engine.process_action(event(TxType::Dispute, 1, 1, None));
    engine.process_action(event(TxType::Chargeback, 1, 1, None));
    engine.process_action(event(TxType::Deposit, 1, 2, Some(3_000_000)));
    engine.process_action(event(TxType::Withdrawal, 1, 3, Some(500_000)));

    let account = engine.accounts.get(&1).unwrap();
    assert_eq!(account.available, Amount::from_units(1_500_000));
    assert!(account.locked);
}

/// An exact-balance withdrawal applies; going one unit further does not,
/// so `available` never goes negative through a withdrawal alone.
#[test]
fn withdrawal_stops_at_zero() {
    let mut engine = PaymentEngine::new();
    engine.process_action(event(TxType::Deposit, 1, 1, Some(400_000)));
    engine.process_action(event(TxType::Withdrawal, 1, 2, Some(400_000)));
    assert_eq!(engine.accounts.get(&1).unwrap().available, Amount::from_units(0));

    engine.process_action(event(TxType::Withdrawal, 1, 3, Some(1)));
    assert_eq!(engine.accounts.get(&1).unwrap().available, Amount::from_units(0));
}

/// A resolve or chargeback naming a transaction with no history bucket
/// leaves the account untouched.
#[test]
fn unknown_reference_leaves_account_unchanged() {
    let mut engine = PaymentEngine::new();
    engine.process_action(event(TxType::Deposit, 1, 1, Some(1_000_000)));
    engine.process_action(event(TxType::Resolve, 1, 42, None));
    engine.process_action(event(TxType::Chargeback, 1, 43, None));

    let account = engine.accounts.get(&1).unwrap();
    assert_eq!(account.available, Amount::from_units(1_000_000));
    assert_eq!(account.held, Amount::from_units(0));
    assert_eq!(account.total, Amount::from_units(1_000_000));
    assert!(!account.locked);
}

/// A bucket created by reference events alone holds no posted deposit or
/// withdrawal, so a second dispute on it is still a full no-op: it must
/// not conjure an account row.
#[test]
fn repeated_dispute_on_unknown_tx_creates_no_account() {
    let mut engine = PaymentEngine::new();
    engine.process_action(event(TxType::Dispute, 5, 99, None));
    engine.process_action(event(TxType::Dispute, 5, 99, None));

    assert!(engine.accounts.get(&5).is_none());
}

/// A chargeback whose bucket holds only reference events (a stray dispute
/// on an unposted transaction) is a full no-op: it must not lock the
/// account.
#[test]
fn chargeback_on_unposted_tx_does_not_lock() {
    let mut engine = PaymentEngine::new();
    engine.process_action(event(TxType::Deposit, 1, 1, Some(1_000_000)));
    engine.process_action(event(TxType::Dispute, 1, 99, None));
    engine.process_action(event(TxType::Chargeback, 1, 99, None));

    let account = engine.accounts.get(&1).unwrap();
    assert_eq!(account.available, Amount::from_units(1_000_000));
    assert_eq!(account.held, Amount::from_units(0));
    assert_eq!(account.total, Amount::from_units(1_000_000));
    assert!(!account.locked);
}

/// A chargeback without a preceding dispute on the same transaction
/// leaves the account untouched.
#[test]
fn chargeback_without_dispute_does_nothing() {
    let mut engine = PaymentEngine::new();
    engine.process_action(event(TxType::Deposit, 1, 1, Some(1_000_000)));
    engine.process_action(event(TxType::Chargeback, 1, 1, None));

    let account = engine.accounts.get(&1).unwrap();
    assert_eq!(account.available, Amount::from_units(1_000_000));
    assert_eq!(account.held, Amount::from_units(0));
    assert!(!account.locked);
}

/// Deposit, dispute, then resolve restores the starting balances.
#[test]
fn dispute_then_resolve_round_trip() {
    let mut engine = PaymentEngine::new();
    engine.process_action(event(TxType::Deposit, 1, 1, Some(1_000_000)));
    engine.process_action(event(TxType::Dispute, 1, 1, None));
    engine.process_action(event(TxType::Resolve, 1, 1, None));

    let account = engine.accounts.get(&1).unwrap();
    assert_eq!(account.available, Amount::from_units(1_000_000));
    assert_eq!(account.held, Amount::from_units(0));
    assert_eq!(account.total, Amount::from_units(1_000_000));
    assert!(!account.locked);
}

/// Deposit, dispute, then chargeback removes the amount for good and
/// locks the account; `held` returns to zero.
#[test]
fn dispute_then_chargeback_takes_funds_and_locks() {
    let mut engine = PaymentEngine::new();
    engine.process_action(event(TxType::Deposit, 1, 1, Some(1_000_000)));
    engine.process_action(event(TxType::Dispute, 1, 1, None));
    engine.process_action(event(TxType::Chargeback, 1, 1, None));

    let account = engine.accounts.get(&1).unwrap();
    assert_eq!(account.held, Amount::from_units(0));
    assert_eq!(account.available, Amount::from_units(-1_000_000));
    assert_eq!(account.total, Amount::from_units(-1_000_000));
    assert!(account.locked);
}

/// A dispute may reference a withdrawal; it freezes that amount.
#[test]
fn dispute_on_withdrawal_freezes_its_amount() {
    let mut engine = PaymentEngine::new();
    engine.process_action(event(TxType::Deposit, 1, 1, Some(1_000_000)));
    engine.process_action(event(TxType::Withdrawal, 1, 2, Some(500_000)));
    engine.process_action(event(TxType::Dispute, 1, 2, None));

    let account = engine.accounts.get(&1).unwrap();
    assert_eq!(account.available, Amount::from_units(0));
    assert_eq!(account.held, Amount::from_units(500_000));
    assert_eq!(account.total, Amount::from_units(500_000));
}

/// A missing amount is read as zero, so the deposit still creates the
/// account and the dispute freezes nothing.
#[test]
fn missing_amount_is_read_as_zero() {
    let mut engine = PaymentEngine::new();
    engine.process_action(event(TxType::Deposit, 1, 1, None));
    assert_eq!(engine.accounts.get(&1).unwrap().available, Amount::from_units(0));

    engine.process_action(event(TxType::Deposit, 1, 2, Some(1_000_000)));
    engine.process_action(event(TxType::Dispute, 1, 1, None));
    let account = engine.accounts.get(&1).unwrap();
    assert_eq!(account.available, Amount::from_units(1_000_000));
    assert_eq!(account.held, Amount::from_units(0));
}

/// Two clients may reuse the same transaction id; their histories stay
/// apart and a dispute touches only its own client.
#[test]
fn clients_sharing_tx_ids_stay_apart() {
    let mut engine = PaymentEngine::new();
    engine.process_action(event(TxType::Deposit, 1, 7, Some(100_000)));
    engine.process_action(event(TxType::Deposit, 2, 7, Some(200_000)));
    engine.process_action(event(TxType::Dispute, 1, 7, None));

    let first = engine.accounts.get(&1).unwrap();
    assert_eq!(first.available, Amount::from_units(0));
    assert_eq!(first.held, Amount::from_units(100_000));
    let second = engine.accounts.get(&2).unwrap();
    assert_eq!(second.available, Amount::from_units(200_000));
    assert_eq!(second.held, Amount::from_units(0));
}

/// The `accounts()` view is the same map the engine mutates.
#[test]
fn accounts_getter_matches_state() {
    let mut engine = PaymentEngine::new();
    engine.process_action(event(TxType::Deposit, 9, 1, Some(123_456)));

    let accounts = engine.accounts();
    assert_eq!(accounts.len(), 1);
    assert_eq!(accounts.get(&9).unwrap().available, Amount::from_units(123_456));
    assert_eq!(accounts.get(&9).unwrap().client_id, 9);
}

/// An amount remembers the exact count of ten-thousandths it was built
/// from, four fractional digits of the decimal input.
#[test]
fn amount_keeps_its_units() {
    assert_eq!(Amount::from_units(12_345).units(), 12_345);
    assert_eq!(Amount::from_units(-1).units(), -1);
    assert_eq!(Amount::zero(), Amount::from_units(0));
    assert_eq!(payment_engine::UNITS_PER_WHOLE, 10_000);
}
