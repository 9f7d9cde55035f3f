use vstd::prelude::*;
use crate::model::{
    count_owned, fresh_round, holds_id, init_result, lemma_count_owned_push, owner_of,
    window_ok, RoundView, TICKET_PRICE,
};
use crate::types::{LotteryError, LotteryStateEnum};

verus! {

/// One purchase attempt: (time, caller, ticket id).
pub type PurchaseStep = (u64, Seq<char>, Seq<char>);

/// The round after the purchase attempts `steps`, in order.
pub open spec fn run_purchases(m: RoundView, steps: Seq<PurchaseStep>) -> RoundView
    decreases steps.len(),
{
    if steps.len() == 0 {
        m
    } else {
        let s = steps.last();
        run_purchases(m, steps.drop_last()).after_purchase(s.0, s.1, s.2)
    }
}

/// Every purchase attempt of `steps`, in order from `m`, succeeds.
pub open spec fn purchases_ok(m: RoundView, steps: Seq<PurchaseStep>) -> bool
    decreases steps.len(),
{
    if steps.len() == 0 {
        true
    } else {
        let s = steps.last();
        purchases_ok(m, steps.drop_last()) && run_purchases(m, steps.drop_last()).purchase_result(
            s.0,
            s.1,
            s.2,
        ) is Ok
    }
}

/// A purchase attempt keeps the round's invariant.
pub proof fn lemma_purchase_wf(m: RoundView, now: u64, caller: Seq<char>, id: Seq<char>)
    requires
        m.wf(),
        m.total_tickets_sold < u32::MAX,
    ensures
        m.after_purchase(now, caller, id).wf(),
        m.after_purchase(now, caller, id).tickets.len() <= m.tickets.len() + 1,
{
    let n = m.after_purchase(now, caller, id);
    if !(m.phase == LotteryStateEnum::Open && now >= m.end_time) && m.purchase_result(now, caller, id) is Ok {
        let t = (id, caller);
        assert forall|who: Seq<char>| #[trigger] count_owned(n.tickets, who) <= n.max_tickets_per_user by {
            lemma_count_owned_push(m.tickets, t, who);
        }
        assert forall|i: int| 0 <= i < m.tickets.len() implies #[trigger] m.tickets[i].0 != id by {
            if m.tickets[i].0 == id {
                assert(holds_id(m.tickets, id));
            }
        }
        if let Some(w) = n.winner {
            let i = choose|i: int| 0 <= i < m.tickets.len() && #[trigger] m.tickets[i].0 == w;
            assert(n.tickets[i].0 == w);
        }
        let total = m.total_tickets_sold as int;
        assert(TICKET_PRICE * total + TICKET_PRICE == TICKET_PRICE * (total + 1)) by (nonlinear_arith);
        assert(TICKET_PRICE * (total + 1) <= TICKET_PRICE * 0x1_0000_0000) by (nonlinear_arith)
            requires total < 0x1_0000_0000 - 1;
    }
}

/// Over any sequence of purchase attempts that keeps the counter in range,
/// the invariant holds and the ticket count grows by at most one per attempt.
pub proof fn lemma_run_purchases_wf(m: RoundView, steps: Seq<PurchaseStep>)
    requires
        m.wf(),
        m.total_tickets_sold + steps.len() <= u32::MAX,
    ensures
        run_purchases(m, steps).wf(),
        run_purchases(m, steps).tickets.len() <= m.tickets.len() + steps.len(),
    decreases steps.len(),
{
    if steps.len() > 0 {
        lemma_run_purchases_wf(m, steps.drop_last());
        let s = steps.last();
        lemma_purchase_wf(run_purchases(m, steps.drop_last()), s.0, s.1, s.2);
    }
}

/// After any sequence of purchase attempts, the number of tickets sold is the
/// number of tickets held, and the prize pool is the ticket price times that
/// number (until the prize is paid out).
pub proof fn purchases_keep_accounting(m: RoundView, steps: Seq<PurchaseStep>)
    requires
        m.wf(),
        m.total_tickets_sold + steps.len() <= u32::MAX,
    ensures
        run_purchases(m, steps).total_tickets_sold == run_purchases(m, steps).tickets.len(),
        run_purchases(m, steps).phase != LotteryStateEnum::PrizeClaimed ==> run_purchases(m, steps).prize_pool
            == run_purchases(m, steps).ticket_price * run_purchases(m, steps).total_tickets_sold,
{
    lemma_run_purchases_wf(m, steps);
}

/// After any sequence of purchase attempts, nobody holds more than the
/// per-identity cap of tickets.
pub proof fn purchases_respect_cap(m: RoundView, steps: Seq<PurchaseStep>, who: Seq<char>)
    requires
        m.wf(),
        m.total_tickets_sold + steps.len() <= u32::MAX,
    ensures
        count_owned(run_purchases(m, steps).tickets, who) <= run_purchases(m, steps).max_tickets_per_user,
{
    lemma_run_purchases_wf(m, steps);
}

/// Closing succeeds only once sales have ended; before that it fails with
/// `StillOpen` and changes nothing.
pub proof fn close_needs_end(m: RoundView, now: u64, pick: int)
    ensures
        m.close_result(now) is Ok ==> now >= m.end_time,
        now < m.end_time ==> m.close_result(now) == Err::<(), LotteryError>(LotteryError::StillOpen)
            && m.after_close(now, pick) == m,
{
}

/// A successful close names as winner a ticket that was sold, and keeps the
/// invariant.
pub proof fn close_picks_sold_ticket(m: RoundView, now: u64, pick: int)
    requires
        m.wf(),
        m.close_result(now) is Ok,
        0 <= pick < m.tickets.len(),
    ensures
        m.after_close(now, pick).wf(),
        m.after_close(now, pick).tickets == m.tickets,
        m.after_close(now, pick).winner matches Some(w) && holds_id(m.tickets, w),
{
    assert(m.tickets[pick].0 == m.tickets[pick].0);
}

/// Only the buyer of the winning ticket can claim; any other caller of an
/// otherwise valid claim gets `NotWinner`; a claim after a successful one
/// fails with `NotClosed`.
pub proof fn claim_only_by_winner(m: RoundView, now: u64, caller: Seq<char>, later: u64, again: Seq<char>)
    ensures
        m.claim_result(now, caller) is Ok ==> m.winner is Some && caller == owner_of(
            m.tickets,
            m.winner->0,
        ),
        m.phase == LotteryStateEnum::Closed && now <= m.claim_deadline && m.winner is Some && caller
            != owner_of(m.tickets, m.winner->0) ==> m.claim_result(now, caller) == Err::<
            (),
            LotteryError,
        >(LotteryError::NotWinner),
        m.claim_result(now, caller) is Ok ==> m.after_claim(now, caller).claim_result(later, again)
            == Err::<(), LotteryError>(LotteryError::NotClosed),
{
}

/// Anyone but the owner is refused a reset with `Unauthorized`, whatever the
/// phase, and nothing changes.
pub proof fn reset_needs_owner(m: RoundView, now: u64, caller: Seq<char>, days: u64)
    requires
        caller != m.owner,
    ensures
        m.reset_result(now, caller, days) == Err::<(), LotteryError>(LotteryError::Unauthorized),
        m.after_reset(now, caller, days) == m,
{
}

/// A purchase at exactly the end of sales fails with `LotteryEnded` and
/// closes the round.
pub proof fn purchase_at_end_fails(m: RoundView, caller: Seq<char>, id: Seq<char>)
    requires
        m.phase == LotteryStateEnum::Open,
    ensures
        m.purchase_result(m.end_time, caller, id) == Err::<(), LotteryError>(LotteryError::LotteryEnded),
        m.after_purchase(m.end_time, caller, id).phase == LotteryStateEnum::Closed,
{
}

/// Successful purchases keep the round open and its owner and time window,
/// and add one ticket each.
pub proof fn lemma_purchases_ok_shape(m: RoundView, steps: Seq<PurchaseStep>)
    requires
        purchases_ok(m, steps),
        m.phase == LotteryStateEnum::Open,
    ensures
        run_purchases(m, steps).phase == LotteryStateEnum::Open,
        run_purchases(m, steps).tickets.len() == m.tickets.len() + steps.len(),
        run_purchases(m, steps).owner == m.owner,
        run_purchases(m, steps).token_canister == m.token_canister,
        run_purchases(m, steps).ticket_price == m.ticket_price,
        run_purchases(m, steps).max_tickets_per_user == m.max_tickets_per_user,
        run_purchases(m, steps).end_time == m.end_time,
        run_purchases(m, steps).claim_deadline == m.claim_deadline,
    decreases steps.len(),
{
    if steps.len() > 0 {
        lemma_purchases_ok_shape(m, steps.drop_last());
    }
}

/// A full round: open, sell at least one ticket, close after the end of
/// sales, let the winner claim, and reset; each step succeeds, and the reset
/// round equals a freshly opened one with the same owner.
pub proof fn full_round_resets_to_fresh(
    owner: Seq<char>,
    token_canister: Seq<char>,
    days: u64,
    start: u64,
    steps: Seq<PurchaseStep>,
    close_at: u64,
    pick: int,
    claim_at: u64,
    reset_at: u64,
    new_days: u64,
)
    requires
        init_result(owner, start, days) is Ok,
        purchases_ok(fresh_round(owner, token_canister, start, days), steps),
        0 <= pick < steps.len(),
        close_at >= fresh_round(owner, token_canister, start, days).end_time,
        claim_at <= fresh_round(owner, token_canister, start, days).claim_deadline,
        window_ok(reset_at, new_days),
    ensures
        ({
            let m0 = fresh_round(owner, token_canister, start, days);
            let sold = run_purchases(m0, steps);
            let closed = sold.after_close(close_at, pick);
            let winner = owner_of(closed.tickets, closed.winner->0);
            let claimed = closed.after_claim(claim_at, winner);
            &&& sold.close_result(close_at) is Ok
            &&& closed.claim_result(claim_at, winner) is Ok
            &&& claimed.reset_result(reset_at, owner, new_days) is Ok
            &&& claimed.after_reset(reset_at, owner, new_days) == fresh_round(
                owner,
                token_canister,
                reset_at,
                new_days,
            )
        }),
{
    let m0 = fresh_round(owner, token_canister, start, days);
    lemma_purchases_ok_shape(m0, steps);
}

} // verus!
