//! Invariants of the ledger, proved of the transition function.
//!
//! Each lemma here states a guarantee that holds of every event sequence
//! the engine can see, over the model that
//! [`PaymentEngine::process_action`](crate::PaymentEngine::process_action)
//! is proved to follow.

use vstd::prelude::*;

use crate::TxType;
use crate::model::{
    EventModel, LedgerModel, apply_all, apply_event, bucket_key, has_dispute,
    has_funds_movement,
};

verus! {

/// A freshly built engine is well formed: it has no accounts at all.
pub proof fn lemma_init_wf()
    ensures
        LedgerModel::init().wf(),
{
}

/// One step keeps every account well formed: keyed by its own client id,
/// `total` equal to `available + held`, and balances in range.
pub proof fn lemma_apply_preserves_wf(state: LedgerModel, ev: EventModel)
    requires
        state.wf(),
    ensures
        apply_event(state, ev).wf(),
{
    let post = apply_event(state, ev);
    assert forall|c: u16| #[trigger] post.accounts.contains_key(c) implies post.accounts[c].client_id
        == c && post.accounts[c].balanced() && post.accounts[c].in_range() by {
        if c != ev.client_id {
            assert(state.accounts.contains_key(c));
            assert(post.accounts[c] == state.accounts[c]);
        }
    }
}

/// Along any whole sequence of events, every account stays well formed,
/// so `total == available + held` holds after each application.
pub proof fn lemma_apply_all_preserves_wf(state: LedgerModel, evs: Seq<EventModel>)
    requires
        state.wf(),
    ensures
        apply_all(state, evs).wf(),
    decreases evs.len(),
{
    if evs.len() > 0 {
        lemma_apply_preserves_wf(state, evs[0]);
        lemma_apply_all_preserves_wf(apply_event(state, evs[0]), evs.subrange(1, evs.len() as int));
    }
}

/// `locked` is monotonic: no event ever takes a locked account back to
/// unlocked, and no event removes an account.
pub proof fn lemma_locked_monotonic(state: LedgerModel, ev: EventModel, client: u16)
    requires
        state.accounts.contains_key(client),
        state.accounts[client].locked,
    ensures
        apply_event(state, ev).accounts.contains_key(client),
        apply_event(state, ev).accounts[client].locked,
{
}

/// A withdrawal never drives `available` negative by itself: one that the
/// balance does not cover is a no-op.
pub proof fn lemma_withdrawal_keeps_available_nonnegative(state: LedgerModel, ev: EventModel)
    requires
        ev.tx_type == TxType::Withdrawal,
        state.accounts.contains_key(ev.client_id) ==> state.accounts[ev.client_id].available >= 0,
    ensures
        apply_event(state, ev).accounts.contains_key(ev.client_id)
            ==> apply_event(state, ev).accounts[ev.client_id].available >= 0,
{
}

/// A dispute, resolve or chargeback referencing a transaction id with no
/// posted deposit or withdrawal leaves every account field unchanged —
/// whether its history bucket is absent or was created by reference
/// events alone.
pub proof fn lemma_unknown_reference_is_noop(state: LedgerModel, ev: EventModel)
    requires
        ev.tx_type == TxType::Dispute || ev.tx_type == TxType::Resolve || ev.tx_type
            == TxType::Chargeback,
        state.history.contains_key(bucket_key(ev.client_id, ev.tx_id)) ==> !has_funds_movement(
            state.history[bucket_key(ev.client_id, ev.tx_id)],
        ),
    ensures
        apply_event(state, ev).accounts == state.accounts,
{
}

/// A resolve or chargeback without a preceding dispute on the same
/// transaction leaves every account field unchanged.
pub proof fn lemma_undisputed_reference_is_noop(state: LedgerModel, ev: EventModel)
    requires
        ev.tx_type == TxType::Resolve || ev.tx_type == TxType::Chargeback,
        state.history.contains_key(bucket_key(ev.client_id, ev.tx_id)) ==> !has_dispute(
            state.history[bucket_key(ev.client_id, ev.tx_id)],
        ),
    ensures
        apply_event(state, ev).accounts == state.accounts,
{
}

} // verus!
