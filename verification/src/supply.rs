//! Conservation of claim-token supply.
//!
//! Each settled deposit mints claim tokens to the depositor's account and
//! grows the ledger's supply counter by exactly the same amount; each
//! settled withdrawal burns tokens from the holder's account and shrinks
//! the counter by exactly the same amount. Abstracting the token service's
//! accounts to the total of user balances, every reachable state therefore
//! keeps that total equal to the supply counter. The model and the proof
//! live here; the per-operation halves of the argument are the contracts of
//! `settle_deposit` and `settle_withdrawal`.

use vstd::prelude::*;

verus! {

/// One settled economic operation, as the ledger and the token service
/// observe it together: a deposit minted this many tokens to a user, or a
/// withdrawal burned this many from one.
pub enum PoolEvent {
    /// A settled deposit and the tokens it minted.
    Deposit {
        /// Claim tokens minted to the depositor.
        minted: u64,
    },
    /// A settled withdrawal and the tokens it burned.
    Withdraw {
        /// Claim tokens burned from the holder.
        burned: u64,
    },
}

/// The two counters the conservation law relates: the ledger's supply
/// counter and the total of all user claim-token balances.
pub struct LedgerView {
    /// The ledger's outstanding-supply counter.
    pub supply: int,
    /// The sum of every user's claim-token balance.
    pub user_total: int,
}

/// How one settled operation moves both counters: a deposit adds its
/// minted amount to each, a withdrawal subtracts its burned amount from
/// each.
pub open spec fn spec_apply_event(st: LedgerView, e: PoolEvent) -> LedgerView {
    match e {
        PoolEvent::Deposit { minted } => LedgerView {
            supply: st.supply + minted,
            user_total: st.user_total + minted,
        },
        PoolEvent::Withdraw { burned } => LedgerView {
            supply: st.supply - burned,
            user_total: st.user_total - burned,
        },
    }
}

/// The state after a sequence of settled operations.
pub open spec fn spec_run_events(st: LedgerView, es: Seq<PoolEvent>) -> LedgerView
    decreases es.len(),
{
    if es.len() == 0 {
        st
    } else {
        spec_run_events(spec_apply_event(st, es[0]), es.drop_first())
    }
}

/// One settled operation preserves the balance-supply equality.
pub proof fn lemma_event_preserves_conservation(st: LedgerView, e: PoolEvent)
    requires
        st.user_total == st.supply,
    ensures
        spec_apply_event(st, e).user_total == spec_apply_event(st, e).supply,
{
}

/// For every sequence of deposits and withdrawals with no value entering
/// from outside, the total of user claim-token balances equals the
/// ledger's supply counter at every observation point: after any prefix of
/// the sequence, the two counters agree.
pub proof fn lemma_share_conservation(st: LedgerView, es: Seq<PoolEvent>, k: int)
    requires
        st.user_total == st.supply,
        0 <= k <= es.len(),
    ensures
        spec_run_events(st, es.take(k)).user_total == spec_run_events(st, es.take(k)).supply,
    decreases k,
{
    if k == 0 {
        assert(es.take(0) =~= Seq::<PoolEvent>::empty());
    } else {
        let st1 = spec_apply_event(st, es[0]);
        lemma_event_preserves_conservation(st, es[0]);
        lemma_share_conservation(st1, es.drop_first(), k - 1);
        assert(es.take(k)[0] == es[0]);
        assert(es.take(k).drop_first() =~= es.drop_first().take(k - 1));
    }
}

} // verus!
