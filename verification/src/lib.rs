//! A single-pass ledger over client payment events.
//!
//! The engine consumes an ordered stream of deposit, withdrawal, dispute,
//! resolve and chargeback events and maintains one account per client.
//! Monetary values are fixed-point decimals with four fractional digits,
//! held as an integer count of ten-thousandths in [`Amount`]. The engine's
//! behaviour is pinned down by the pure transition function
//! [`model::apply_event`]; [`PaymentEngine::process_action`] is proved to
//! follow it step by step, and the module [`laws`] proves the invariants
//! that hold along every event sequence.

use std::collections::HashMap;
use vstd::prelude::*;

mod amount;
pub mod data_sources;
pub mod laws;
pub mod model;

pub use amount::Amount;
pub use amount::UNITS_PER_WHOLE;

use model::{
    AccountModel, EventModel, LedgerModel, amount_or_zero, apply_chargeback, apply_deposit,
    apply_dispute, apply_event, apply_resolve, apply_withdrawal, bucket_key, fits_i64,
    has_dispute, has_funds_movement, is_funds_movement, new_account, referenced_amount,
    referenced_amount_from,
};

verus! {

broadcast use vstd::std_specs::hash::group_hash_axioms;

/// The kind of a transaction event.
#[derive(Debug, PartialEq, Eq, Structural, Clone, Copy)]
pub enum TxType {
    Deposit,
    Withdrawal,
    Dispute,
    Resolve,
    Chargeback,
}

/// One transaction event: its kind, the client it belongs to, the
/// transaction it posts or references, and the amount where one is given
/// (deposits and withdrawals carry one; the reference kinds do not).
#[derive(Debug, Clone)]
pub struct UserTransactions {
    pub tx_type: TxType,
    pub client_id: u16,
    pub tx_id: u32,
    pub amount: Option<Amount>,
}

impl View for UserTransactions {
    type V = EventModel;

    open spec fn view(&self) -> EventModel {
        EventModel {
            tx_type: self.tx_type,
            client_id: self.client_id,
            tx_id: self.tx_id,
            amount: match self.amount {
                Some(a) => Some(a@),
                None => None,
            },
        }
    }
}

/// One client's balances: spendable funds, funds frozen under dispute,
/// their sum, and the flag a chargeback sets for good.
#[derive(Debug, Clone)]
pub struct UserAccount {
    pub client_id: u16,
    pub available: Amount,
    pub held: Amount,
    pub total: Amount,
    pub locked: bool,
}

impl View for UserAccount {
    type V = AccountModel;

    open spec fn view(&self) -> AccountModel {
        AccountModel {
            client_id: self.client_id,
            available: self.available@,
            held: self.held@,
            total: self.total@,
            locked: self.locked,
        }
    }
}

impl UserAccount {
    /// A fresh account with zeroed balances.
    pub fn new(client_id: u16) -> (r: UserAccount)
        ensures
            r@ == new_account(client_id),
    {
        UserAccount {
            client_id,
            available: Amount::zero(),
            held: Amount::zero(),
            total: Amount::zero(),
            locked: false,
        }
    }

    /// Recomputes the derived `total` field as `available + held`.
    pub fn calculate_total(&mut self)
        requires
            fits_i64(old(self)@.available + old(self)@.held),
        ensures
            final(self)@ == (AccountModel {
                total: old(self)@.available + old(self)@.held,
                ..old(self)@
            }),
    {
        self.total = Amount::from_units(self.available.units() + self.held.units());
    }
}

/// The ledger engine: one account per client seen so far, and the
/// append-only history of events keyed by client and transaction.
pub struct PaymentEngine {
    pub accounts: HashMap<u16, UserAccount>,
    actions: HashMap<u64, Vec<UserTransactions>>,
}

impl View for PaymentEngine {
    type V = LedgerModel;

    closed spec fn view(&self) -> LedgerModel {
        LedgerModel {
            accounts: self.accounts@.map_values(|a: UserAccount| a@),
            history: Map::new(
                |k: u64| self.actions@.contains_key(k),
                |k: u64| self.actions@[k]@.map_values(|t: UserTransactions| t@),
            ),
        }
    }
}

impl PaymentEngine {
    /// An engine with no accounts and no history.
    pub fn new() -> (r: PaymentEngine)
        ensures
            r@ == LedgerModel::init(),
    {
        let r = PaymentEngine { accounts: HashMap::new(), actions: HashMap::new() };
        proof {
            assert(r@ =~~= LedgerModel::init());
        }
        r
    }

    /// The account map, as the sink renders it.
    pub fn accounts(&self) -> (r: &HashMap<u16, UserAccount>)
        ensures
            r@.map_values(|a: UserAccount| a@) == self@.accounts,
    {
        &self.accounts
    }

    /// Applies one event in arrival order: the per-kind balance rule,
    /// then the unconditional append of the event to its history bucket.
    /// Invalid references are silently ignored, never errors; the engine
    /// never panics and keeps every account well formed.
    pub fn process_action(&mut self, action: UserTransactions)
        ensures
            final(self)@ == apply_event(old(self)@, action@),
            old(self)@.wf() ==> final(self)@.wf(),
    {
        proof {
            if old(self)@.wf() {
                laws::lemma_apply_preserves_wf(old(self)@, action@);
            }
        }
        match action.tx_type {
            TxType::Deposit => self.process_deposit(&action),
            TxType::Withdrawal => self.process_withdrawal(&action),
            TxType::Dispute => self.process_dispute(&action),
            TxType::Resolve => self.process_resolve(&action),
            TxType::Chargeback => self.process_chargeback(&action),
        }
        let key = bucket_key_of(action.client_id, action.tx_id);
        let mut bucket = match self.actions.remove(&key) {
            Some(b) => b,
            None => Vec::new(),
        };
        let ghost ev = action@;
        bucket.push(action);
        self.actions.insert(key, bucket);
        proof {
            assert(self@.history =~~= apply_event(old(self)@, ev).history);
            assert(self@ =~~= apply_event(old(self)@, ev));
        }
    }

    /// Credits `available` with the event's amount, creating the account
    /// if absent; skipped when a new balance would not fit.
    fn process_deposit(&mut self, action: &UserTransactions)
        ensures
            final(self)@ == (LedgerModel {
                accounts: apply_deposit(old(self)@.accounts, action@),
                history: old(self)@.history,
            }),
    {
        let client_id = action.client_id;
        let mut acct = match self.accounts.remove(&client_id) {
            Some(a) => a,
            None => UserAccount::new(client_id),
        };
        let a = event_amount(action);
        if let Some(new_avail) = acct.available.units().checked_add(a) {
            if let Some(new_total) = new_avail.checked_add(acct.held.units()) {
                acct.available = Amount::from_units(new_avail);
                acct.total = Amount::from_units(new_total);
            }
        }
        self.accounts.insert(client_id, acct);
        proof {
            assert(self@.accounts =~= apply_deposit(old(self)@.accounts, action@));
            assert(self@ =~~= (LedgerModel {
                accounts: apply_deposit(old(self)@.accounts, action@),
                history: old(self)@.history,
            }));
        }
    }

    /// Debits `available` when the account exists and covers the amount;
    /// otherwise a no-op. Skipped when a new balance would not fit.
    fn process_withdrawal(&mut self, action: &UserTransactions)
        ensures
            final(self)@ == (LedgerModel {
                accounts: apply_withdrawal(old(self)@.accounts, action@),
                history: old(self)@.history,
            }),
    {
        let client_id = action.client_id;
        match self.accounts.remove(&client_id) {
            None => {
                proof {
                    assert(self@.accounts =~= apply_withdrawal(old(self)@.accounts, action@));
                }
            },
            Some(mut acct) => {
                let a = event_amount(action);
                if acct.available.units() >= a {
                    if let Some(new_avail) = acct.available.units().checked_sub(a) {
                        if let Some(new_total) = new_avail.checked_add(acct.held.units()) {
                            acct.available = Amount::from_units(new_avail);
                            acct.total = Amount::from_units(new_total);
                        }
                    }
                }
                self.accounts.insert(client_id, acct);
                proof {
                    assert(self@.accounts =~= apply_withdrawal(old(self)@.accounts, action@));
                }
            },
        }
        proof {
            assert(self@ =~~= (LedgerModel {
                accounts: apply_withdrawal(old(self)@.accounts, action@),
                history: old(self)@.history,
            }));
        }
    }

    /// Freezes the referenced amount: `available` loses it and `held`
    /// gains it. Needs a history bucket holding a posted deposit or
    /// withdrawal, and is a full no-op without one; the account is
    /// created if absent. Skipped when a new balance would not fit.
    fn process_dispute(&mut self, action: &UserTransactions)
        ensures
            final(self)@ == (LedgerModel {
                accounts: apply_dispute(old(self)@, action@),
                history: old(self)@.history,
            }),
    {
        let key = bucket_key_of(action.client_id, action.tx_id);
        let a: i64;
        match self.actions.get(&key) {
            Some(bucket) => {
                match referenced_amount_in(bucket) {
                    Some(amount) => {
                        a = amount;
                    },
                    None => {
                        proof {
                            assert(self@ =~~= (LedgerModel {
                                accounts: apply_dispute(old(self)@, action@),
                                history: old(self)@.history,
                            }));
                        }
                        return;
                    },
                }
            },
            None => {
                proof {
                    assert(self@ =~~= (LedgerModel {
                        accounts: apply_dispute(old(self)@, action@),
                        history: old(self)@.history,
                    }));
                }
                return;
            },
        }
        let client_id = action.client_id;
        let mut acct = match self.accounts.remove(&client_id) {
            Some(found) => found,
            None => UserAccount::new(client_id),
        };
        if let Some(new_avail) = acct.available.units().checked_sub(a) {
            if let Some(new_held) = acct.held.units().checked_add(a) {
                if let Some(new_total) = new_avail.checked_add(new_held) {
                    acct.available = Amount::from_units(new_avail);
                    acct.held = Amount::from_units(new_held);
                    acct.total = Amount::from_units(new_total);
                }
            }
        }
        self.accounts.insert(client_id, acct);
        proof {
            assert(self@.accounts =~= apply_dispute(old(self)@, action@));
            assert(self@ =~~= (LedgerModel {
                accounts: apply_dispute(old(self)@, action@),
                history: old(self)@.history,
            }));
        }
    }

    /// Releases the referenced amount from `held` back to `available`.
    /// Needs an existing bucket holding a posted deposit or withdrawal
    /// and a prior dispute, and an existing account. Skipped when a new
    /// balance would not fit.
    fn process_resolve(&mut self, action: &UserTransactions)
        ensures
            final(self)@ == (LedgerModel {
                accounts: apply_resolve(old(self)@, action@),
                history: old(self)@.history,
            }),
    {
        let key = bucket_key_of(action.client_id, action.tx_id);
        let a: i64;
        match self.actions.get(&key) {
            Some(bucket) => {
                match referenced_amount_in(bucket) {
                    Some(amount) => {
                        a = amount;
                    },
                    None => {
                        proof {
                            assert(self@ =~~= (LedgerModel {
                                accounts: apply_resolve(old(self)@, action@),
                                history: old(self)@.history,
                            }));
                        }
                        return;
                    },
                }
                if !bucket_has_dispute(bucket) {
                    proof {
                        assert(self@ =~~= (LedgerModel {
                            accounts: apply_resolve(old(self)@, action@),
                            history: old(self)@.history,
                        }));
                    }
                    return;
                }
            },
            None => {
                proof {
                    assert(self@ =~~= (LedgerModel {
                        accounts: apply_resolve(old(self)@, action@),
                        history: old(self)@.history,
                    }));
                }
                return;
            },
        }
        let client_id = action.client_id;
        match self.accounts.remove(&client_id) {
            None => {
                proof {
                    assert(self@.accounts =~= apply_resolve(old(self)@, action@));
                }
            },
            Some(mut acct) => {
                if let Some(new_held) = acct.held.units().checked_sub(a) {
                    if let Some(new_avail) = acct.available.units().checked_add(a) {
                        if let Some(new_total) = new_avail.checked_add(new_held) {
                            acct.available = Amount::from_units(new_avail);
                            acct.held = Amount::from_units(new_held);
                            acct.total = Amount::from_units(new_total);
                        }
                    }
                }
                self.accounts.insert(client_id, acct);
                proof {
                    assert(self@.accounts =~= apply_resolve(old(self)@, action@));
                }
            },
        }
        proof {
            assert(self@ =~~= (LedgerModel {
                accounts: apply_resolve(old(self)@, action@),
                history: old(self)@.history,
            }));
        }
    }

    /// Withdraws the referenced amount from both `held` and `available`
    /// and locks the account for good. Needs an existing bucket holding a
    /// posted deposit or withdrawal and a prior dispute, and an existing
    /// account. Skipped when a new balance would not fit.
    fn process_chargeback(&mut self, action: &UserTransactions)
        ensures
            final(self)@ == (LedgerModel {
                accounts: apply_chargeback(old(self)@, action@),
                history: old(self)@.history,
            }),
    {
        let key = bucket_key_of(action.client_id, action.tx_id);
        let a: i64;
        match self.actions.get(&key) {
            Some(bucket) => {
                match referenced_amount_in(bucket) {
                    Some(amount) => {
                        a = amount;
                    },
                    None => {
                        proof {
                            assert(self@ =~~= (LedgerModel {
                                accounts: apply_chargeback(old(self)@, action@),
                                history: old(self)@.history,
                            }));
                        }
                        return;
                    },
                }
                if !bucket_has_dispute(bucket) {
                    proof {
                        assert(self@ =~~= (LedgerModel {
                            accounts: apply_chargeback(old(self)@, action@),
                            history: old(self)@.history,
                        }));
                    }
                    return;
                }
            },
            None => {
                proof {
                    assert(self@ =~~= (LedgerModel {
                        accounts: apply_chargeback(old(self)@, action@),
                        history: old(self)@.history,
                    }));
                }
                return;
            },
        }
        let client_id = action.client_id;
        match self.accounts.remove(&client_id) {
            None => {
                proof {
                    assert(self@.accounts =~= apply_chargeback(old(self)@, action@));
                }
            },
            Some(mut acct) => {
                if let Some(new_held) = acct.held.units().checked_sub(a) {
                    if let Some(new_avail) = acct.available.units().checked_sub(a) {
                        if let Some(new_total) = new_avail.checked_add(new_held) {
                            acct.available = Amount::from_units(new_avail);
                            acct.held = Amount::from_units(new_held);
                            acct.total = Amount::from_units(new_total);
                            acct.locked = true;
                        }
                    }
                }
                self.accounts.insert(client_id, acct);
                proof {
                    assert(self@.accounts =~= apply_chargeback(old(self)@, action@));
                }
            },
        }
        proof {
            assert(self@ =~~= (LedgerModel {
                accounts: apply_chargeback(old(self)@, action@),
                history: old(self)@.history,
            }));
        }
    }
}

/// The amount of the first deposit or withdrawal in the bucket, in
/// insertion order (a missing amount reads as zero), or `None` when the
/// bucket holds no deposit or withdrawal at all.
fn referenced_amount_in(bucket: &Vec<UserTransactions>) -> (r: Option<i64>)
    ensures
        match r {
            Some(v) => has_funds_movement(bucket@.map_values(|t: UserTransactions| t@)) && v
                as int == referenced_amount(bucket@.map_values(|t: UserTransactions| t@)),
            None => !has_funds_movement(bucket@.map_values(|t: UserTransactions| t@)),
        },
{
    let ghost bmodel = bucket@.map_values(|t: UserTransactions| t@);
    let mut i: usize = 0;
    while i < bucket.len()
        invariant
            0 <= i <= bucket.len(),
            bmodel == bucket@.map_values(|t: UserTransactions| t@),
            referenced_amount(bmodel) == referenced_amount_from(bmodel, i as int),
            forall|j: int| 0 <= j < i as int ==> !is_funds_movement(#[trigger] bmodel[j]),
        decreases bucket.len() - i,
    {
        let t = &bucket[i];
        if t.tx_type == TxType::Deposit || t.tx_type == TxType::Withdrawal {
            proof {
                assert(is_funds_movement(bmodel[i as int]));
            }
            return Some(event_amount(t));
        }
        i = i + 1;
    }
    None
}

/// Whether the bucket already holds a dispute event.
fn bucket_has_dispute(bucket: &Vec<UserTransactions>) -> (r: bool)
    ensures
        r == has_dispute(bucket@.map_values(|t: UserTransactions| t@)),
{
    let ghost bmodel = bucket@.map_values(|t: UserTransactions| t@);
    let mut i: usize = 0;
    while i < bucket.len()
        invariant
            0 <= i <= bucket.len(),
            bmodel == bucket@.map_values(|t: UserTransactions| t@),
            forall|j: int| 0 <= j < i as int ==> #[trigger] bmodel[j].tx_type != TxType::Dispute,
        decreases bucket.len() - i,
    {
        if bucket[i].tx_type == TxType::Dispute {
            proof {
                assert(bmodel[i as int].tx_type == TxType::Dispute);
            }
            return true;
        }
        i = i + 1;
    }
    false
}

/// The amount carried by an event, with a missing amount read as zero.
fn event_amount(action: &UserTransactions) -> (r: i64)
    ensures
        r as int == amount_or_zero(action@),
{
    match action.amount {
        Some(a) => a.units(),
        None => 0,
    }
}

/// The history bucket key for a `(client, transaction)` pair.
fn bucket_key_of(client_id: u16, tx_id: u32) -> (r: u64)
    ensures
        r == bucket_key(client_id, tx_id),
{
    (client_id as u64) * 0x1_0000_0000u64 + (tx_id as u64)
}

} // verus!
