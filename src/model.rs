use vstd::prelude::*;
use crate::types::{EventView, LotteryError, LotteryStateEnum};

verus! {

/// Price of one ticket, in the smallest currency unit.
pub const TICKET_PRICE: u128 = 100_000_000;

/// Most tickets that one identity may hold in a round.
pub const MAX_TICKETS_PER_USER: u32 = 10;

/// Seconds in a day.
pub const SECONDS_PER_DAY: u64 = 86400;

/// Days between the end of sales and the claim deadline.
pub const CLAIM_WINDOW_DAYS: u64 = 7;

/// Sold tickets in order of sale: (ticket id, buyer identity).
pub type TicketsView = Seq<(Seq<char>, Seq<char>)>;

/// The mathematical state of a round.
pub struct RoundView {
    pub tickets: TicketsView,
    pub prize_pool: u128,
    pub phase: LotteryStateEnum,
    pub winner: Option<Seq<char>>,
    pub ticket_price: u128,
    pub max_tickets_per_user: u32,
    pub total_tickets_sold: u32,
    pub owner: Seq<char>,
    pub token_canister: Seq<char>,
    pub start_time: u64,
    pub end_time: u64,
    pub claim_deadline: u64,
}

/// Number of tickets held by `who`.
pub open spec fn count_owned(tickets: TicketsView, who: Seq<char>) -> nat
    decreases tickets.len(),
{
    if tickets.len() == 0 {
        0
    } else {
        count_owned(tickets.drop_last(), who) + if tickets.last().1 == who { 1nat } else { 0nat }
    }
}

/// Some sold ticket has identifier `id`.
pub open spec fn holds_id(tickets: TicketsView, id: Seq<char>) -> bool {
    exists|i: int| 0 <= i < tickets.len() && #[trigger] tickets[i].0 == id
}

/// No identifier is sold twice.
pub open spec fn ids_unique(tickets: TicketsView) -> bool {
    forall|i: int, j: int|
        0 <= i < tickets.len() && 0 <= j < tickets.len() && i != j ==> #[trigger] tickets[i].0
            != #[trigger] tickets[j].0
}

/// Buyer of the ticket with identifier `id` (meaningful when `holds_id`).
pub open spec fn owner_of(tickets: TicketsView, id: Seq<char>) -> Seq<char> {
    tickets[choose|i: int| 0 <= i < tickets.len() && #[trigger] tickets[i].0 == id].1
}

/// A round of `days` days starting at `now` ends, and its claim deadline
/// passes, within the range of `u64`.
pub open spec fn window_ok(now: u64, days: u64) -> bool {
    days > 0 && now + days * SECONDS_PER_DAY + CLAIM_WINDOW_DAYS * SECONDS_PER_DAY <= u64::MAX
}

/// The round that `init` creates.
pub open spec fn fresh_round(owner: Seq<char>, token_canister: Seq<char>, now: u64, days: u64) -> RoundView {
    RoundView {
        tickets: Seq::empty(),
        prize_pool: 0,
        phase: LotteryStateEnum::Open,
        winner: None,
        ticket_price: TICKET_PRICE,
        max_tickets_per_user: MAX_TICKETS_PER_USER,
        total_tickets_sold: 0,
        owner,
        token_canister,
        start_time: now,
        end_time: (now + days * SECONDS_PER_DAY) as u64,
        claim_deadline: (now + days * SECONDS_PER_DAY + CLAIM_WINDOW_DAYS * SECONDS_PER_DAY) as u64,
    }
}

/// Outcome of `init`.
pub open spec fn init_result(owner: Seq<char>, now: u64, days: u64) -> Result<(), LotteryError> {
    if owner.len() == 0 {
        Err(LotteryError::EmptyOwner)
    } else if !window_ok(now, days) {
        Err(LotteryError::InvalidDuration)
    } else {
        Ok(())
    }
}

impl RoundView {
    /// The round's invariant.
    pub open spec fn wf(self) -> bool {
        &&& ids_unique(self.tickets)
        &&& self.ticket_price == TICKET_PRICE
        &&& self.max_tickets_per_user == MAX_TICKETS_PER_USER
        &&& self.total_tickets_sold == self.tickets.len()
        &&& self.phase == LotteryStateEnum::PrizeClaimed ==> self.prize_pool == 0
        &&& self.phase != LotteryStateEnum::PrizeClaimed ==> self.prize_pool == self.ticket_price
            * self.total_tickets_sold
        &&& forall|who: Seq<char>| #[trigger]
            count_owned(self.tickets, who) <= self.max_tickets_per_user
        &&& self.winner matches Some(w) ==> holds_id(self.tickets, w)
        &&& self.phase == LotteryStateEnum::Open ==> self.winner is None
        &&& self.start_time < self.end_time < self.claim_deadline
    }

    /// Outcome of a purchase by `caller` at time `now` of the ticket `id`.
    pub open spec fn purchase_result(self, now: u64, caller: Seq<char>, id: Seq<char>) -> Result<(), LotteryError> {
        if self.phase != LotteryStateEnum::Open {
            Err(LotteryError::NotOpen)
        } else if now >= self.end_time {
            Err(LotteryError::LotteryEnded)
        } else if count_owned(self.tickets, caller) >= self.max_tickets_per_user {
            Err(LotteryError::TicketLimitReached)
        } else if holds_id(self.tickets, id) {
            Err(LotteryError::DuplicateTicket)
        } else {
            Ok(())
        }
    }

    /// State after that purchase: the ticket is added on success; a purchase
    /// after the end of sales closes the round.
    pub open spec fn after_purchase(self, now: u64, caller: Seq<char>, id: Seq<char>) -> RoundView {
        if self.phase == LotteryStateEnum::Open && now >= self.end_time {
            RoundView { phase: LotteryStateEnum::Closed, ..self }
        } else if self.purchase_result(now, caller, id) is Ok {
            RoundView {
                tickets: self.tickets.push((id, caller)),
                prize_pool: (self.prize_pool + self.ticket_price) as u128,
                total_tickets_sold: (self.total_tickets_sold + 1) as u32,
                ..self
            }
        } else {
            self
        }
    }

    /// Events of a successful purchase.
    pub open spec fn purchase_events(self, caller: Seq<char>, id: Seq<char>) -> Seq<EventView> {
        seq![EventView::TicketPurchased { ticket_id: id, participant: caller, amount: self.ticket_price }]
    }

    /// Outcome of closing the round at time `now`.
    pub open spec fn close_result(self, now: u64) -> Result<(), LotteryError> {
        if now < self.end_time {
            Err(LotteryError::StillOpen)
        } else if self.phase != LotteryStateEnum::Open {
            Err(LotteryError::NotOpen)
        } else if self.tickets.len() == 0 {
            Err(LotteryError::NoTickets)
        } else {
            Ok(())
        }
    }

    /// State after closing at `now`, the winner being the ticket at position `pick`.
    pub open spec fn after_close(self, now: u64, pick: int) -> RoundView {
        if now < self.end_time || self.phase != LotteryStateEnum::Open {
            self
        } else if self.tickets.len() == 0 {
            RoundView { phase: LotteryStateEnum::Closed, ..self }
        } else {
            RoundView {
                phase: LotteryStateEnum::Closed,
                winner: Some(self.tickets[pick].0),
                ..self
            }
        }
    }

    /// Events of a successful close with the ticket at position `pick` winning.
    pub open spec fn close_events(self, pick: int) -> Seq<EventView> {
        seq![
            EventView::LotteryClosed,
            EventView::WinnerSelected { ticket_id: self.tickets[pick].0, prize_pool: self.prize_pool },
        ]
    }

    /// Outcome of a prize claim by `caller` at time `now`.
    pub open spec fn claim_result(self, now: u64, caller: Seq<char>) -> Result<(), LotteryError> {
        if self.phase != LotteryStateEnum::Closed {
            Err(LotteryError::NotClosed)
        } else if now > self.claim_deadline {
            Err(LotteryError::DeadlinePassed)
        } else if self.winner is None {
            Err(LotteryError::NoWinner)
        } else if owner_of(self.tickets, self.winner->0) != caller {
            Err(LotteryError::NotWinner)
        } else {
            Ok(())
        }
    }

    /// State after that claim: on success the pool is paid out.
    pub open spec fn after_claim(self, now: u64, caller: Seq<char>) -> RoundView {
        if self.claim_result(now, caller) is Ok {
            RoundView { prize_pool: 0, phase: LotteryStateEnum::PrizeClaimed, ..self }
        } else {
            self
        }
    }

    /// Events of a successful claim.
    pub open spec fn claim_events(self) -> Seq<EventView> {
        seq![EventView::PrizeClaimed { winner: self.winner->0, amount: self.prize_pool }]
    }

    /// Outcome of a reset by `caller` at time `now` for a new round of `days` days.
    pub open spec fn reset_result(self, now: u64, caller: Seq<char>, days: u64) -> Result<(), LotteryError> {
        if caller != self.owner {
            Err(LotteryError::Unauthorized)
        } else if self.phase != LotteryStateEnum::PrizeClaimed {
            Err(LotteryError::PrizeNotClaimed)
        } else if !window_ok(now, days) {
            Err(LotteryError::InvalidDuration)
        } else {
            Ok(())
        }
    }

    /// State after that reset: on success tickets, pool, counter and winner
    /// are cleared, a new time window starts at `now` and sales reopen.
    pub open spec fn after_reset(self, now: u64, caller: Seq<char>, days: u64) -> RoundView {
        if self.reset_result(now, caller, days) is Ok {
            RoundView {
                tickets: Seq::empty(),
                prize_pool: 0,
                winner: None,
                total_tickets_sold: 0,
                phase: LotteryStateEnum::Open,
                start_time: now,
                end_time: (now + days * SECONDS_PER_DAY) as u64,
                claim_deadline: (now + days * SECONDS_PER_DAY + CLAIM_WINDOW_DAYS * SECONDS_PER_DAY) as u64,
                ..self
            }
        } else {
            self
        }
    }
}

/// Adding a ticket raises its buyer's count by one and leaves every other count.
pub proof fn lemma_count_owned_push(tickets: TicketsView, t: (Seq<char>, Seq<char>), who: Seq<char>)
    ensures
        count_owned(tickets.push(t), who) == count_owned(tickets, who) + if t.1 == who { 1nat } else { 0nat },
{
    assert(tickets.push(t).drop_last() =~= tickets);
}

/// Buyer counts of the first `i + 1` tickets, from those of the first `i`.
pub proof fn lemma_count_owned_take(tickets: TicketsView, i: int, who: Seq<char>)
    requires
        0 <= i < tickets.len(),
    ensures
        count_owned(tickets.subrange(0, i + 1), who) == count_owned(tickets.subrange(0, i), who)
            + if tickets[i].1 == who { 1nat } else { 0nat },
{
    assert(tickets.subrange(0, i + 1).drop_last() =~= tickets.subrange(0, i));
}

} // verus!
