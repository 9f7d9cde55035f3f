use vstd::prelude::*;

verus! {

/// Lifecycle phase of a round. A successful close leaves the round `Closed`
/// with its winner set: `WinnerSelected` names that step and is never stored.
#[derive(Clone, Copy, Debug, PartialEq, Eq, Structural)]
pub enum LotteryStateEnum {
    Open,
    Closed,
    WinnerSelected,
    PrizeClaimed,
}

/// Why an operation on the round was refused.
#[derive(Clone, Copy, Debug, PartialEq, Eq, Structural)]
pub enum LotteryError {
    /// The owner identity given to `init` is empty.
    EmptyOwner,
    /// The duration is zero, or the round's time window does not fit in `u64`.
    InvalidDuration,
    NotOpen,
    LotteryEnded,
    TicketLimitReached,
    DuplicateTicket,
    StillOpen,
    NoTickets,
    NotClosed,
    DeadlinePassed,
    NoWinner,
    NotWinner,
    Unauthorized,
    PrizeNotClaimed,
}

/// Lifecycle notification produced by an operation, for the host to deliver.
#[derive(Clone, Debug)]
pub enum Event {
    LotteryOpened { start_time: u64, end_time: u64 },
    TicketPurchased { ticket_id: String, participant: String, amount: u128 },
    LotteryClosed,
    WinnerSelected { ticket_id: String, prize_pool: u128 },
    PrizeClaimed { winner: String, amount: u128 },
    LotteryReset,
}

/// An `Event` with its strings seen as character sequences.
pub enum EventView {
    LotteryOpened { start_time: u64, end_time: u64 },
    TicketPurchased { ticket_id: Seq<char>, participant: Seq<char>, amount: u128 },
    LotteryClosed,
    WinnerSelected { ticket_id: Seq<char>, prize_pool: u128 },
    PrizeClaimed { winner: Seq<char>, amount: u128 },
    LotteryReset,
}

impl View for Event {
    type V = EventView;

    open spec fn view(&self) -> EventView {
        match self {
            Event::LotteryOpened { start_time, end_time } => EventView::LotteryOpened {
                start_time: *start_time,
                end_time: *end_time,
            },
            Event::TicketPurchased { ticket_id, participant, amount } => EventView::TicketPurchased {
                ticket_id: ticket_id@,
                participant: participant@,
                amount: *amount,
            },
            Event::LotteryClosed => EventView::LotteryClosed,
            Event::WinnerSelected { ticket_id, prize_pool } => EventView::WinnerSelected {
                ticket_id: ticket_id@,
                prize_pool: *prize_pool,
            },
            Event::PrizeClaimed { winner, amount } => EventView::PrizeClaimed {
                winner: winner@,
                amount: *amount,
            },
            Event::LotteryReset => EventView::LotteryReset,
        }
    }
}

/// The events of a list, seen one by one.
pub open spec fn events_view(evs: Seq<Event>) -> Seq<EventView> {
    evs.map_values(|e: Event| e@)
}

/// One sold ticket: its identifier and the identity that bought it.
#[derive(Clone, Debug)]
pub struct Ticket {
    pub id: String,
    pub owner: String,
}

impl View for Ticket {
    type V = (Seq<char>, Seq<char>);

    open spec fn view(&self) -> (Seq<char>, Seq<char>) {
        (self.id@, self.owner@)
    }
}

} // verus!
