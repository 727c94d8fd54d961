//! Mathematical model of the ledger.
//!
//! The engine's behaviour is specified by a pure transition function,
//! [`apply_event`], over [`LedgerModel`]: a map of account snapshots and a
//! map from a per-client, per-transaction bucket key to the ordered history
//! of events seen for that transaction. Every balance is an unbounded
//! integer count of ten-thousandths of a currency unit; a mutation whose
//! result would not fit a signed 64-bit count leaves the account untouched,
//! so the executable engine never overflows and never panics.

use vstd::prelude::*;

use crate::TxType;

verus! {

/// The smallest and largest balances the executable engine can store.
pub open spec fn fits_i64(x: int) -> bool {
    i64::MIN <= x <= i64::MAX
}

/// A transaction event as the model sees it: the kind, the client it
/// belongs to, the transaction it posts or references, and the amount in
/// ten-thousandths where one is given.
#[verifier::ext_equal]
pub ghost struct EventModel {
    pub tx_type: TxType,
    pub client_id: u16,
    pub tx_id: u32,
    pub amount: Option<int>,
}

/// An account snapshot: spendable funds, funds frozen under dispute, their
/// sum, and the permanent chargeback flag. Balances are in ten-thousandths.
#[verifier::ext_equal]
pub ghost struct AccountModel {
    pub client_id: u16,
    pub available: int,
    pub held: int,
    pub total: int,
    pub locked: bool,
}

impl AccountModel {
    /// The derived field is in step with its components.
    pub open spec fn balanced(self) -> bool {
        self.total == self.available + self.held
    }

    /// Every stored balance fits the executable representation.
    pub open spec fn in_range(self) -> bool {
        fits_i64(self.available) && fits_i64(self.held) && fits_i64(self.total)
    }
}

/// The full engine state: one account per client seen so far, and the
/// append-only history of events keyed by client and transaction.
#[verifier::ext_equal]
pub ghost struct LedgerModel {
    pub accounts: Map<u16, AccountModel>,
    pub history: Map<u64, Seq<EventModel>>,
}

/// A fresh account for `client_id` with zeroed balances.
pub open spec fn new_account(client_id: u16) -> AccountModel {
    AccountModel { client_id, available: 0, held: 0, total: 0, locked: false }
}

/// One history bucket per `(client, transaction)` pair: the client id in
/// the upper half of the key keeps distinct clients' buckets apart.
pub open spec fn bucket_key(client_id: u16, tx_id: u32) -> u64 {
    (client_id as int * 0x1_0000_0000 + tx_id as int) as u64
}

/// The amount carried by an event, with a missing amount read as zero.
pub open spec fn amount_or_zero(ev: EventModel) -> int {
    match ev.amount {
        Some(a) => a,
        None => 0,
    }
}

/// Whether an event posts funds, i.e. is the kind a dispute can reference.
pub open spec fn is_funds_movement(ev: EventModel) -> bool {
    ev.tx_type == TxType::Deposit || ev.tx_type == TxType::Withdrawal
}

/// The amount of the first deposit or withdrawal in `bucket` at or after
/// position `i`, or zero if there is none.
pub open spec fn referenced_amount_from(bucket: Seq<EventModel>, i: int) -> int
    decreases bucket.len() - i,
{
    if i < 0 || i >= bucket.len() {
        0
    } else if is_funds_movement(bucket[i]) {
        amount_or_zero(bucket[i])
    } else {
        referenced_amount_from(bucket, i + 1)
    }
}

/// The amount a dispute, resolve or chargeback acts on: that of the first
/// deposit or withdrawal in the bucket, in insertion order, or zero.
pub open spec fn referenced_amount(bucket: Seq<EventModel>) -> int {
    referenced_amount_from(bucket, 0)
}

/// Whether the bucket already holds a dispute event.
pub open spec fn has_dispute(bucket: Seq<EventModel>) -> bool {
    exists|i: int| 0 <= i < bucket.len() && bucket[i].tx_type == TxType::Dispute
}

/// Whether the bucket holds a posted deposit or withdrawal at all. A
/// reference event on a transaction id that was never posted cannot act
/// on any amount and is a full no-op.
pub open spec fn has_funds_movement(bucket: Seq<EventModel>) -> bool {
    exists|i: int| 0 <= i < bucket.len() && is_funds_movement(bucket[i])
}

/// A deposit credits `available`, creating the account if absent. The
/// update is skipped when a new balance would not fit the representation.
pub open spec fn apply_deposit(accounts: Map<u16, AccountModel>, ev: EventModel) -> Map<
    u16,
    AccountModel,
> {
    let acct = if accounts.contains_key(ev.client_id) {
        accounts[ev.client_id]
    } else {
        new_account(ev.client_id)
    };
    let a = amount_or_zero(ev);
    let updated = if fits_i64(acct.available + a) && fits_i64(acct.available + a + acct.held) {
        AccountModel {
            available: acct.available + a,
            total: acct.available + a + acct.held,
            ..acct
        }
    } else {
        acct
    };
    accounts.insert(ev.client_id, updated)
}

/// A withdrawal debits `available` when the account exists and covers the
/// amount; otherwise it is a no-op. The update is also skipped when a new
/// balance would not fit the representation.
pub open spec fn apply_withdrawal(accounts: Map<u16, AccountModel>, ev: EventModel) -> Map<
    u16,
    AccountModel,
> {
    if !accounts.contains_key(ev.client_id) {
        accounts
    } else {
        let acct = accounts[ev.client_id];
        let a = amount_or_zero(ev);
        if acct.available >= a && fits_i64(acct.available - a) && fits_i64(
            acct.available - a + acct.held,
        ) {
            accounts.insert(
                ev.client_id,
                AccountModel {
                    available: acct.available - a,
                    total: acct.available - a + acct.held,
                    ..acct
                },
            )
        } else {
            accounts
        }
    }
}

/// A dispute freezes the referenced amount: `available` loses it and
/// `held` gains it. It requires a history bucket holding a posted deposit
/// or withdrawal, and is a full no-op without one; the account is created
/// if absent. Balance updates that would not fit the representation are
/// skipped.
pub open spec fn apply_dispute(state: LedgerModel, ev: EventModel) -> Map<u16, AccountModel> {
    let key = bucket_key(ev.client_id, ev.tx_id);
    if !state.history.contains_key(key) {
        state.accounts
    } else if !has_funds_movement(state.history[key]) {
        state.accounts
    } else {
        let a = referenced_amount(state.history[key]);
        let acct = if state.accounts.contains_key(ev.client_id) {
            state.accounts[ev.client_id]
        } else {
            new_account(ev.client_id)
        };
        let updated = if fits_i64(acct.available - a) && fits_i64(acct.held + a) && fits_i64(
            acct.available - a + (acct.held + a),
        ) {
            AccountModel {
                available: acct.available - a,
                held: acct.held + a,
                total: acct.available - a + (acct.held + a),
                ..acct
            }
        } else {
            acct
        };
        state.accounts.insert(ev.client_id, updated)
    }
}

/// A resolve releases the referenced amount back to `available`. It needs
/// an existing bucket holding a posted deposit or withdrawal and a prior
/// dispute, and an existing account. Balance updates that would not fit
/// the representation are skipped.
pub open spec fn apply_resolve(state: LedgerModel, ev: EventModel) -> Map<u16, AccountModel> {
    let key = bucket_key(ev.client_id, ev.tx_id);
    if !state.history.contains_key(key) {
        state.accounts
    } else if !has_funds_movement(state.history[key]) {
        state.accounts
    } else if !has_dispute(state.history[key]) {
        state.accounts
    } else if !state.accounts.contains_key(ev.client_id) {
        state.accounts
    } else {
        let a = referenced_amount(state.history[key]);
        let acct = state.accounts[ev.client_id];
        if fits_i64(acct.held - a) && fits_i64(acct.available + a) && fits_i64(
            acct.available + a + (acct.held - a),
        ) {
            state.accounts.insert(
                ev.client_id,
                AccountModel {
                    available: acct.available + a,
                    held: acct.held - a,
                    total: acct.available + a + (acct.held - a),
                    ..acct
                },
            )
        } else {
            state.accounts
        }
    }
}

/// A chargeback withdraws the referenced amount from both `held` and
/// `available` and locks the account for good. It needs an existing bucket
/// holding a posted deposit or withdrawal and a prior dispute, and an
/// existing account. Balance updates that would not fit the representation
/// are skipped.
pub open spec fn apply_chargeback(state: LedgerModel, ev: EventModel) -> Map<u16, AccountModel> {
    let key = bucket_key(ev.client_id, ev.tx_id);
    if !state.history.contains_key(key) {
        state.accounts
    } else if !has_funds_movement(state.history[key]) {
        state.accounts
    } else if !has_dispute(state.history[key]) {
        state.accounts
    } else if !state.accounts.contains_key(ev.client_id) {
        state.accounts
    } else {
        let a = referenced_amount(state.history[key]);
        let acct = state.accounts[ev.client_id];
        if fits_i64(acct.held - a) && fits_i64(acct.available - a) && fits_i64(
            acct.available - a + (acct.held - a),
        ) {
            state.accounts.insert(
                ev.client_id,
                AccountModel {
                    available: acct.available - a,
                    held: acct.held - a,
                    total: acct.available - a + (acct.held - a),
                    locked: true,
                    ..acct
                },
            )
        } else {
            state.accounts
        }
    }
}

/// Every event is appended to its bucket after being applied, whether or
/// not the apply step had any effect.
pub open spec fn append_event(history: Map<u64, Seq<EventModel>>, ev: EventModel) -> Map<
    u64,
    Seq<EventModel>,
> {
    let key = bucket_key(ev.client_id, ev.tx_id);
    let bucket = if history.contains_key(key) {
        history[key]
    } else {
        Seq::empty()
    };
    history.insert(key, bucket.push(ev))
}

/// The full effect of one event: the per-kind account rule followed by the
/// unconditional append to the history.
pub open spec fn apply_event(state: LedgerModel, ev: EventModel) -> LedgerModel {
    let accounts = match ev.tx_type {
        TxType::Deposit => apply_deposit(state.accounts, ev),
        TxType::Withdrawal => apply_withdrawal(state.accounts, ev),
        TxType::Dispute => apply_dispute(state, ev),
        TxType::Resolve => apply_resolve(state, ev),
        TxType::Chargeback => apply_chargeback(state, ev),
    };
    LedgerModel { accounts, history: append_event(state.history, ev) }
}

/// The state after a whole sequence of events, applied in order.
pub open spec fn apply_all(state: LedgerModel, evs: Seq<EventModel>) -> LedgerModel
    decreases evs.len(),
{
    if evs.len() == 0 {
        state
    } else {
        apply_all(apply_event(state, evs[0]), evs.subrange(1, evs.len() as int))
    }
}

impl LedgerModel {
    /// The state of a freshly built engine: no accounts, no history.
    pub open spec fn init() -> LedgerModel {
        LedgerModel { accounts: Map::empty(), history: Map::empty() }
    }

    /// Well-formedness: every account is keyed by its own client id, its
    /// `total` is exactly `available + held`, and its balances fit the
    /// executable representation.
    pub open spec fn wf(self) -> bool {
        forall|c: u16| #[trigger]
            self.accounts.contains_key(c) ==> self.accounts[c].client_id == c
                && self.accounts[c].balanced() && self.accounts[c].in_range()
    }
}

} // verus!
