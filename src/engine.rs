use vstd::prelude::*;
use crate::model::{
    count_owned, fresh_round, holds_id, ids_unique, init_result, lemma_count_owned_push,
    lemma_count_owned_take, owner_of, window_ok, RoundView, CLAIM_WINDOW_DAYS,
    MAX_TICKETS_PER_USER, SECONDS_PER_DAY, TICKET_PRICE,
};
use crate::ticket_id::{draw_entropy, random_index, ticket_id, ticket_id_of, ENTROPY_LEN};
use crate::types::{events_view, Event, LotteryError, LotteryStateEnum, Ticket};

verus! {

/// End of sales and claim deadline of a round of `days` days starting at `now`,
/// when both fit in `u64` and `days` is positive.
fn round_window(now: u64, days: u64) -> (r: Option<(u64, u64)>)
    ensures
        r is Some <==> window_ok(now, days),
        r matches Some((end, deadline)) ==> end == now + days * SECONDS_PER_DAY && deadline == end
            + CLAIM_WINDOW_DAYS * SECONDS_PER_DAY,
{
    if days == 0 {
        return None;
    }
    let span = match days.checked_mul(SECONDS_PER_DAY) {
        Some(s) => s,
        None => {
            assert(days * SECONDS_PER_DAY > u64::MAX);
            return None;
        },
    };
    let end = match now.checked_add(span) {
        Some(e) => e,
        None => return None,
    };
    match end.checked_add(CLAIM_WINDOW_DAYS * SECONDS_PER_DAY) {
        Some(deadline) => Some((end, deadline)),
        None => None,
    }
}

/// The state of one lottery round.
pub struct LotteryState {
    tickets: Vec<Ticket>,
    prize_pool: u128,
    lottery_state: LotteryStateEnum,
    winner: Option<String>,
    ticket_price: u128,
    max_tickets_per_user: u32,
    total_tickets_sold: u32,
    owner: String,
    icp_token_canister: String,
    lottery_start_time: u64,
    lottery_end_time: u64,
    claim_deadline: u64,
}

impl View for LotteryState {
    type V = RoundView;

    closed spec fn view(&self) -> RoundView {
        RoundView {
            tickets: self.tickets@.map_values(|t: Ticket| t@),
            prize_pool: self.prize_pool,
            phase: self.lottery_state,
            winner: match self.winner {
                Some(w) => Some(w@),
                None => None,
            },
            ticket_price: self.ticket_price,
            max_tickets_per_user: self.max_tickets_per_user,
            total_tickets_sold: self.total_tickets_sold,
            owner: self.owner@,
            token_canister: self.icp_token_canister@,
            start_time: self.lottery_start_time,
            end_time: self.lottery_end_time,
            claim_deadline: self.claim_deadline,
        }
    }
}

impl LotteryState {
    /// The round's invariant, over its view.
    pub open spec fn wf(&self) -> bool {
        self@.wf()
    }

    /// Opens a round owned by `owner`, selling tickets from `now` for
    /// `duration_days` days; the prize may be claimed for seven days after.
    pub fn init(owner: String, icp_token_canister: String, duration_days: u64, now: u64) -> (r: Result<LotteryState, LotteryError>)
        ensures
            r is Ok <==> init_result(owner@, now, duration_days) is Ok,
            r matches Err(e) ==> init_result(owner@, now, duration_days) == Err::<(), LotteryError>(e),
            r matches Ok(s) ==> s.wf() && s@ == fresh_round(owner@, icp_token_canister@, now, duration_days),
    {
        if owner.as_str().is_empty() {
            return Err(LotteryError::EmptyOwner);
        }
        let (end, deadline) = match round_window(now, duration_days) {
            Some(w) => w,
            None => return Err(LotteryError::InvalidDuration),
        };
        let s = LotteryState {
            tickets: Vec::new(),
            prize_pool: 0,
            lottery_state: LotteryStateEnum::Open,
            winner: None,
            ticket_price: TICKET_PRICE,
            max_tickets_per_user: MAX_TICKETS_PER_USER,
            total_tickets_sold: 0,
            owner,
            icp_token_canister,
            lottery_start_time: now,
            lottery_end_time: end,
            claim_deadline: deadline,
        };
        assert(s@.tickets =~= Seq::empty());
        assert forall|who: Seq<char>| #[trigger] count_owned(s@.tickets, who) <= s@.max_tickets_per_user by {}
        Ok(s)
    }

    /// Number of tickets held by `who`.
    pub fn count_tickets_of(&self, who: &String) -> (n: usize)
        ensures
            n == count_owned(self@.tickets, who@),
    {
        let ghost ts = self@.tickets;
        let mut n: usize = 0;
        let mut i: usize = 0;
        while i < self.tickets.len()
            invariant
                ts == self@.tickets,
                ts.len() == self.tickets@.len(),
                i <= ts.len(),
                n <= i,
                n == count_owned(ts.subrange(0, i as int), who@),
            decreases ts.len() - i,
        {
            proof {
                lemma_count_owned_take(ts, i as int, who@);
                assert(ts[i as int] == self.tickets@[i as int]@);
            }
            if self.tickets[i].owner == *who {
                n = n + 1;
            }
            i = i + 1;
        }
        assert(ts.subrange(0, ts.len() as int) =~= ts);
        n
    }

    /// Position of the ticket with identifier `id`, if one was sold.
    fn find_ticket(&self, id: &String) -> (r: Option<usize>)
        ensures
            r matches Some(i) ==> i < self@.tickets.len() && self@.tickets[i as int].0 == id@,
            r is None ==> !holds_id(self@.tickets, id@),
    {
        let mut i: usize = 0;
        while i < self.tickets.len()
            invariant
                i <= self.tickets@.len(),
                self@.tickets.len() == self.tickets@.len(),
                forall|j: int| 0 <= j < i ==> #[trigger] self@.tickets[j].0 != id@,
            decreases self.tickets@.len() - i,
        {
            assert(self@.tickets[i as int] == self.tickets@[i as int]@);
            if self.tickets[i].id == *id {
                return Some(i);
            }
            i = i + 1;
        }
        None
    }

    /// Buys a ticket for `caller` at time `now`, its identifier derived from
    /// the caller and the random bytes `entropy`. An attempt at or after the
    /// end of sales fails and closes the round.
    pub fn purchase_ticket_with_entropy(&mut self, now: u64, caller: &String, entropy: &[u8]) -> (r: Result<Vec<Event>, LotteryError>)
        requires
            old(self).wf(),
            old(self)@.total_tickets_sold < u32::MAX,
        ensures
            final(self).wf(),
            final(self)@ == old(self)@.after_purchase(now, caller@, ticket_id_of(caller@, entropy@)),
            r is Ok <==> old(self)@.purchase_result(now, caller@, ticket_id_of(caller@, entropy@)) is Ok,
            r matches Err(e) ==> old(self)@.purchase_result(now, caller@, ticket_id_of(caller@, entropy@))
                == Err::<(), LotteryError>(e),
            r matches Ok(evs) ==> events_view(evs@) == old(self)@.purchase_events(
                caller@,
                ticket_id_of(caller@, entropy@),
            ),
    {
        if self.lottery_state != LotteryStateEnum::Open {
            return Err(LotteryError::NotOpen);
        }
        if now >= self.lottery_end_time {
            self.lottery_state = LotteryStateEnum::Closed;
            return Err(LotteryError::LotteryEnded);
        }
        let held = self.count_tickets_of(caller);
        if held >= self.max_tickets_per_user as usize {
            return Err(LotteryError::TicketLimitReached);
        }
        let id = ticket_id(caller.as_str(), entropy);
        if self.find_ticket(&id).is_some() {
            return Err(LotteryError::DuplicateTicket);
        }
        let ghost old_view = self@;
        let ghost t = (id@, caller@);
        self.tickets.push(Ticket { id: id.clone(), owner: caller.clone() });
        proof {
            assert(self@.tickets =~= old_view.tickets.push(t));
            assert forall|who: Seq<char>| #[trigger] count_owned(self@.tickets, who) <= self@.max_tickets_per_user by {
                lemma_count_owned_push(old_view.tickets, t, who);
            }
            let total = self.total_tickets_sold as int;
            assert(TICKET_PRICE * total + TICKET_PRICE <= TICKET_PRICE * 0x1_0000_0000) by (nonlinear_arith)
                requires total < 0x1_0000_0000 - 1;
        }
        self.prize_pool = self.prize_pool + self.ticket_price;
        self.total_tickets_sold = self.total_tickets_sold + 1;
        let evs = vec![Event::TicketPurchased { ticket_id: id, participant: caller.clone(), amount: self.ticket_price }];
        proof {
            assert(self@.tickets =~= old_view.tickets.push(t));
            assert(events_view(evs@) =~= old_view.purchase_events(caller@, id@));
        }
        Ok(evs)
    }

    /// Buys a ticket for `caller` at time `now`, its identifier derived from
    /// the caller and freshly drawn random bytes.
    pub fn purchase_ticket(&mut self, now: u64, caller: &String) -> (r: Result<Vec<Event>, LotteryError>)
        requires
            old(self).wf(),
            old(self)@.total_tickets_sold < u32::MAX,
        ensures
            final(self).wf(),
            exists|entropy: Seq<u8>|
                #![trigger ticket_id_of(caller@, entropy)]
                {
                    let id = ticket_id_of(caller@, entropy);
                    &&& entropy.len() == ENTROPY_LEN
                    &&& final(self)@ == old(self)@.after_purchase(now, caller@, id)
                    &&& (r is Ok <==> old(self)@.purchase_result(now, caller@, id) is Ok)
                    &&& (r matches Err(e) ==> old(self)@.purchase_result(now, caller@, id) == Err::<(), LotteryError>(e))
                    &&& (r matches Ok(evs) ==> events_view(evs@) == old(self)@.purchase_events(caller@, id))
                },
    {
        let entropy = draw_entropy();
        let r = self.purchase_ticket_with_entropy(now, caller, entropy.as_slice());
        assert({
            let id = ticket_id_of(caller@, entropy@);
            &&& entropy@.len() == ENTROPY_LEN
            &&& self@ == old(self)@.after_purchase(now, caller@, id)
        });
        r
    }
    /// Ends sales at time `now` and makes the ticket at position `pick` the winner.
    /// A round with no tickets is left `Closed` without a winner and the call
    /// fails with `NoTickets`.
    pub fn close_lottery_with_pick(&mut self, now: u64, pick: usize) -> (r: Result<Vec<Event>, LotteryError>)
        requires
            old(self).wf(),
            old(self)@.tickets.len() > 0 ==> pick < old(self)@.tickets.len(),
        ensures
            final(self).wf(),
            final(self)@ == old(self)@.after_close(now, pick as int),
            r is Ok <==> old(self)@.close_result(now) is Ok,
            r matches Err(e) ==> old(self)@.close_result(now) == Err::<(), LotteryError>(e),
            r matches Ok(evs) ==> events_view(evs@) == old(self)@.close_events(pick as int),
    {
        if now < self.lottery_end_time {
            return Err(LotteryError::StillOpen);
        }
        if self.lottery_state != LotteryStateEnum::Open {
            return Err(LotteryError::NotOpen);
        }
        self.lottery_state = LotteryStateEnum::Closed;
        if self.tickets.len() == 0 {
            return Err(LotteryError::NoTickets);
        }
        let winner_id = self.tickets[pick].id.clone();
        assert(self@.tickets[pick as int] == self.tickets@[pick as int]@);
        self.winner = Some(winner_id.clone());
        let evs = vec![
            Event::LotteryClosed,
            Event::WinnerSelected { ticket_id: winner_id, prize_pool: self.prize_pool },
        ];
        assert(events_view(evs@) =~= old(self)@.close_events(pick as int));
        Ok(evs)
    }

    /// Ends sales at time `now` and draws the winner uniformly among the sold tickets.
    pub fn close_lottery(&mut self, now: u64) -> (r: Result<Vec<Event>, LotteryError>)
        requires
            old(self).wf(),
        ensures
            final(self).wf(),
            exists|pick: int|
                {
                    &&& old(self)@.tickets.len() > 0 ==> 0 <= pick < old(self)@.tickets.len()
                    &&& final(self)@ == #[trigger] old(self)@.after_close(now, pick)
                    &&& (r matches Ok(evs) ==> events_view(evs@) == old(self)@.close_events(pick))
                },
            r is Ok <==> old(self)@.close_result(now) is Ok,
            r matches Err(e) ==> old(self)@.close_result(now) == Err::<(), LotteryError>(e),
    {
        let n = self.tickets.len();
        let pick = if n > 0 && now >= self.lottery_end_time && self.lottery_state == LotteryStateEnum::Open {
            random_index(n)
        } else {
            0
        };
        let r = self.close_lottery_with_pick(now, pick);
        assert(self@ == old(self)@.after_close(now, pick as int));
        r
    }

    /// Fails with `Unauthorized` unless `caller` owns the round.
    fn ensure_owner(&self, caller: &String) -> (r: Result<(), LotteryError>)
        ensures
            r is Ok <==> caller@ == self@.owner,
            r matches Err(e) ==> e == LotteryError::Unauthorized,
    {
        if *caller != self.owner {
            return Err(LotteryError::Unauthorized);
        }
        Ok(())
    }

    /// Pays the prize to `caller` at time `now` when `caller` bought the winning ticket.
    pub fn claim_prize(&mut self, now: u64, caller: &String) -> (r: Result<Vec<Event>, LotteryError>)
        requires
            old(self).wf(),
        ensures
            final(self).wf(),
            final(self)@ == old(self)@.after_claim(now, caller@),
            r is Ok <==> old(self)@.claim_result(now, caller@) is Ok,
            r matches Err(e) ==> old(self)@.claim_result(now, caller@) == Err::<(), LotteryError>(e),
            r matches Ok(evs) ==> events_view(evs@) == old(self)@.claim_events(),
    {
        if self.lottery_state != LotteryStateEnum::Closed {
            return Err(LotteryError::NotClosed);
        }
        if now > self.claim_deadline {
            return Err(LotteryError::DeadlinePassed);
        }
        let winner_id = match &self.winner {
            Some(w) => w.clone(),
            None => return Err(LotteryError::NoWinner),
        };
        let i = match self.find_ticket(&winner_id) {
            Some(i) => i,
            None => return Err(LotteryError::NoWinner),
        };
        proof {
            let ts = self@.tickets;
            let j = choose|j: int| 0 <= j < ts.len() && #[trigger] ts[j].0 == winner_id@;
            assert(ids_unique(ts));
            assert(ts[j].0 == ts[i as int].0);
            assert(self@.tickets[i as int] == self.tickets@[i as int]@);
        }
        if self.tickets[i].owner != *caller {
            return Err(LotteryError::NotWinner);
        }
        let evs = vec![Event::PrizeClaimed { winner: winner_id, amount: self.prize_pool }];
        assert(events_view(evs@) =~= old(self)@.claim_events());
        self.prize_pool = 0;
        self.lottery_state = LotteryStateEnum::PrizeClaimed;
        Ok(evs)
    }

    /// Starts a new round of `duration_days` days at time `now`, on behalf of
    /// `caller`, once the prize of the current one has been claimed.
    pub fn reset_lottery(&mut self, now: u64, caller: &String, duration_days: u64) -> (r: Result<Vec<Event>, LotteryError>)
        requires
            old(self).wf(),
        ensures
            final(self).wf(),
            final(self)@ == old(self)@.after_reset(now, caller@, duration_days),
            r is Ok <==> old(self)@.reset_result(now, caller@, duration_days) is Ok,
            r matches Err(e) ==> old(self)@.reset_result(now, caller@, duration_days) == Err::<(), LotteryError>(e),
            r matches Ok(evs) ==> events_view(evs@) == seq![crate::types::EventView::LotteryReset],
    {
        match self.ensure_owner(caller) {
            Ok(()) => {},
            Err(e) => return Err(e),
        }
        if self.lottery_state != LotteryStateEnum::PrizeClaimed {
            return Err(LotteryError::PrizeNotClaimed);
        }
        let (end, deadline) = match round_window(now, duration_days) {
            Some(w) => w,
            None => return Err(LotteryError::InvalidDuration),
        };
        self.tickets = Vec::new();
        self.prize_pool = 0;
        self.winner = None;
        self.total_tickets_sold = 0;
        self.lottery_state = LotteryStateEnum::Open;
        self.lottery_start_time = now;
        self.lottery_end_time = end;
        self.claim_deadline = deadline;
        assert(self@.tickets =~= Seq::empty());
        assert forall|who: Seq<char>| #[trigger] count_owned(self@.tickets, who) <= self@.max_tickets_per_user by {}
        let evs = vec![Event::LotteryReset];
        assert(events_view(evs@) =~= seq![crate::types::EventView::LotteryReset]);
        Ok(evs)
    }
    /// Current phase.
    pub fn phase(&self) -> (r: LotteryStateEnum)
        ensures
            r == self@.phase,
    {
        self.lottery_state
    }

    /// Accumulated stake.
    pub fn prize_pool(&self) -> (r: u128)
        ensures
            r == self@.prize_pool,
    {
        self.prize_pool
    }

    /// Identifier of the winning ticket, once drawn.
    pub fn winner(&self) -> (r: Option<String>)
        ensures
            r is None <==> self@.winner is None,
            r matches Some(w) ==> self@.winner == Some(w@),
    {
        match &self.winner {
            Some(w) => Some(w.clone()),
            None => None,
        }
    }

    /// Price of one ticket.
    pub fn ticket_price(&self) -> (r: u128)
        ensures
            r == self@.ticket_price,
    {
        self.ticket_price
    }

    /// Most tickets one identity may hold.
    pub fn max_tickets_per_user(&self) -> (r: u32)
        ensures
            r == self@.max_tickets_per_user,
    {
        self.max_tickets_per_user
    }

    /// Number of tickets sold in this round.
    pub fn total_tickets_sold(&self) -> (r: u32)
        ensures
            r == self@.total_tickets_sold,
    {
        self.total_tickets_sold
    }

    /// Identity that administers the round.
    pub fn owner(&self) -> (r: String)
        ensures
            r@ == self@.owner,
    {
        self.owner.clone()
    }

    /// Token account the round was opened with.
    pub fn icp_token_canister(&self) -> (r: String)
        ensures
            r@ == self@.token_canister,
    {
        self.icp_token_canister.clone()
    }

    /// Start of sales.
    pub fn lottery_start_time(&self) -> (r: u64)
        ensures
            r == self@.start_time,
    {
        self.lottery_start_time
    }

    /// End of sales: purchases need a time strictly before it.
    pub fn lottery_end_time(&self) -> (r: u64)
        ensures
            r == self@.end_time,
    {
        self.lottery_end_time
    }

    /// Last moment at which the prize may be claimed.
    pub fn claim_deadline(&self) -> (r: u64)
        ensures
            r == self@.claim_deadline,
    {
        self.claim_deadline
    }

    /// Identifiers of the sold tickets, in order of sale.
    pub fn ticket_ids(&self) -> (r: Vec<String>)
        ensures
            r@.len() == self@.tickets.len(),
            forall|i: int| 0 <= i < r@.len() ==> #[trigger] r@[i]@ == self@.tickets[i].0,
    {
        let mut r: Vec<String> = Vec::new();
        let mut i: usize = 0;
        while i < self.tickets.len()
            invariant
                i <= self.tickets@.len(),
                self@.tickets.len() == self.tickets@.len(),
                r@.len() == i,
                forall|j: int| 0 <= j < i ==> #[trigger] r@[j]@ == self@.tickets[j].0,
            decreases self.tickets@.len() - i,
        {
            assert(self@.tickets[i as int] == self.tickets@[i as int]@);
            r.push(self.tickets[i].id.clone());
            i = i + 1;
        }
        r
    }

    /// Buyer of the ticket with identifier `id`, if it was sold.
    pub fn ticket_owner(&self, id: &String) -> (r: Option<String>)
        requires
            self.wf(),
        ensures
            r is None <==> !holds_id(self@.tickets, id@),
            r matches Some(o) ==> o@ == owner_of(self@.tickets, id@),
    {
        match self.find_ticket(id) {
            Some(i) => {
                proof {
                    let ts = self@.tickets;
                    let j = choose|j: int| 0 <= j < ts.len() && #[trigger] ts[j].0 == id@;
                    assert(ts[j].0 == ts[i as int].0);
                    assert(self@.tickets[i as int] == self.tickets@[i as int]@);
                }
                Some(self.tickets[i].owner.clone())
            },
            None => None,
        }
    }
}

} // verus!
