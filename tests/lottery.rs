use lottery::engine::LotteryState;
use lottery::ticket_id::{draw_entropy, ticket_id, ENTROPY_LEN};
use lottery::types::{Event, LotteryError, LotteryStateEnum};

const T0: u64 = 1_700_000_000;
const DAY: u64 = 86_400;

fn s(x: &str) -> String {
    x.to_string()
}

fn open_round() -> LotteryState {
    LotteryState::init(s("A"), s("token"), 1, T0).unwrap()
}

fn entropy(seed: u8) -> Vec<u8> {
    vec![seed; 32]
}

#[test]
fn init_sets_window_and_constants() {
    let st = open_round();
    assert_eq!(st.phase(), LotteryStateEnum::Open);
    assert_eq!(st.prize_pool(), 0);
    assert_eq!(st.total_tickets_sold(), 0);
    assert_eq!(st.ticket_price(), 100_000_000);
    assert_eq!(st.max_tickets_per_user(), 10);
    assert_eq!(st.owner(), "A");
    assert_eq!(st.icp_token_canister(), "token");
    assert_eq!(st.lottery_start_time(), T0);
    assert_eq!(st.lottery_end_time(), T0 + DAY);
    assert_eq!(st.claim_deadline(), T0 + 8 * DAY);
    assert_eq!(st.winner(), None);
    assert!(st.ticket_ids().is_empty());
}

#[test]
fn init_rejects_bad_inputs() {
    assert_eq!(LotteryState::init(s("A"), s("t"), 0, T0).err(), Some(LotteryError::InvalidDuration));
    assert_eq!(LotteryState::init(s(""), s("t"), 1, T0).err(), Some(LotteryError::EmptyOwner));
    assert_eq!(
        LotteryState::init(s("A"), s("t"), u64::MAX / DAY, T0).err(),
        Some(LotteryError::InvalidDuration)
    );
    assert_eq!(
        LotteryState::init(s("A"), s("t"), 1, u64::MAX - 8 * DAY + 1).err(),
        Some(LotteryError::InvalidDuration)
    );
    assert!(LotteryState::init(s("A"), s("t"), 1, u64::MAX - 8 * DAY).is_ok());
}

#[test]
fn ticket_id_is_hex_sha256_of_caller_and_entropy() {
    assert_eq!(
        ticket_id("B", &[0u8; 32]),
        "164ac9100798abe66f2a9d8d643a589a1bc4cf63b1c89222547af985fbdf4894"
    );
    let e: Vec<u8> = (0..32).collect();
    assert_eq!(
        ticket_id("alice", &e),
        "4d4fb8a533b4b303d03bff7020dc6659d372b7bff9d592becb46b6796a437087"
    );
}

#[test]
fn drawn_entropy_has_fixed_length() {
    assert_eq!(draw_entropy().len(), ENTROPY_LEN);
}

#[test]
fn purchase_adds_ticket_and_stake() {
    let mut st = open_round();
    let evs = st.purchase_ticket_with_entropy(T0 + 10, &s("B"), &[0u8; 32]).unwrap();
    let id = s("164ac9100798abe66f2a9d8d643a589a1bc4cf63b1c89222547af985fbdf4894");
    assert_eq!(evs.len(), 1);
    match &evs[0] {
        Event::TicketPurchased { ticket_id, participant, amount } => {
            assert_eq!(ticket_id, &id);
            assert_eq!(participant, "B");
            assert_eq!(*amount, 100_000_000);
        }
        other => panic!("unexpected event {:?}", other),
    }
    assert_eq!(st.ticket_ids(), vec![id.clone()]);
    assert_eq!(st.ticket_owner(&id), Some(s("B")));
    assert_eq!(st.prize_pool(), 100_000_000);
    assert_eq!(st.total_tickets_sold(), 1);
    assert_eq!(st.count_tickets_of(&s("B")), 1);
    assert_eq!(st.count_tickets_of(&s("C")), 0);
}

#[test]
fn random_purchases_keep_accounting() {
    let mut st = open_round();
    for k in 0..5u64 {
        let who = if k % 2 == 0 { s("B") } else { s("C") };
        st.purchase_ticket(T0 + k, &who).unwrap();
        assert_eq!(st.total_tickets_sold() as usize, st.ticket_ids().len());
        assert_eq!(st.prize_pool(), st.ticket_price() * st.total_tickets_sold() as u128);
    }
    for id in st.ticket_ids() {
        assert_eq!(id.len(), 64);
        assert!(id.chars().all(|c| c.is_ascii_digit() || ('a'..='f').contains(&c)));
    }
}

#[test]
fn purchase_limit_per_caller() {
    let mut st = open_round();
    for k in 0..10u8 {
        st.purchase_ticket_with_entropy(T0, &s("B"), &entropy(k)).unwrap();
    }
    assert_eq!(
        st.purchase_ticket_with_entropy(T0, &s("B"), &entropy(99)).err(),
        Some(LotteryError::TicketLimitReached)
    );
    assert_eq!(st.count_tickets_of(&s("B")), 10);
    assert_eq!(st.total_tickets_sold(), 10);
    assert!(st.purchase_ticket_with_entropy(T0, &s("C"), &entropy(99)).is_ok());
}

#[test]
fn purchase_duplicate_id_changes_nothing() {
    let mut st = open_round();
    st.purchase_ticket_with_entropy(T0, &s("B"), &entropy(1)).unwrap();
    assert_eq!(
        st.purchase_ticket_with_entropy(T0, &s("B"), &entropy(1)).err(),
        Some(LotteryError::DuplicateTicket)
    );
    assert_eq!(st.total_tickets_sold(), 1);
    assert_eq!(st.prize_pool(), 100_000_000);
}

#[test]
fn purchase_exactly_at_end_fails_and_closes() {
    let mut st = open_round();
    let end = st.lottery_end_time();
    assert_eq!(
        st.purchase_ticket_with_entropy(end, &s("B"), &entropy(1)).err(),
        Some(LotteryError::LotteryEnded)
    );
    assert_eq!(st.phase(), LotteryStateEnum::Closed);
    assert_eq!(st.total_tickets_sold(), 0);
    assert_eq!(
        st.purchase_ticket_with_entropy(end - 1, &s("B"), &entropy(1)).err(),
        Some(LotteryError::NotOpen)
    );
}

#[test]
fn close_before_end_fails_and_keeps_phase() {
    let mut st = open_round();
    st.purchase_ticket_with_entropy(T0, &s("B"), &entropy(1)).unwrap();
    assert_eq!(st.close_lottery(T0 + DAY - 1).err(), Some(LotteryError::StillOpen));
    assert_eq!(st.phase(), LotteryStateEnum::Open);
    assert_eq!(st.winner(), None);
}

#[test]
fn close_with_pick_selects_that_ticket() {
    let mut st = open_round();
    st.purchase_ticket_with_entropy(T0, &s("B"), &entropy(1)).unwrap();
    st.purchase_ticket_with_entropy(T0, &s("C"), &entropy(2)).unwrap();
    let ids = st.ticket_ids();
    let evs = st.close_lottery_with_pick(T0 + DAY, 1).unwrap();
    assert_eq!(st.phase(), LotteryStateEnum::Closed);
    assert_eq!(st.winner(), Some(ids[1].clone()));
    assert_eq!(evs.len(), 2);
    assert!(matches!(evs[0], Event::LotteryClosed));
    match &evs[1] {
        Event::WinnerSelected { ticket_id, prize_pool } => {
            assert_eq!(ticket_id, &ids[1]);
            assert_eq!(*prize_pool, 200_000_000);
        }
        other => panic!("unexpected event {:?}", other),
    }
    assert_eq!(st.close_lottery(T0 + DAY).err(), Some(LotteryError::NotOpen));
}

#[test]
fn close_empty_round_fails_but_closes() {
    let mut st = open_round();
    assert_eq!(st.close_lottery(T0 + DAY).err(), Some(LotteryError::NoTickets));
    assert_eq!(st.phase(), LotteryStateEnum::Closed);
    assert_eq!(st.claim_prize(T0 + DAY, &s("A")).err(), Some(LotteryError::NoWinner));
}

#[test]
fn claim_errors() {
    let mut st = open_round();
    st.purchase_ticket_with_entropy(T0, &s("B"), &entropy(1)).unwrap();
    assert_eq!(st.claim_prize(T0, &s("B")).err(), Some(LotteryError::NotClosed));
    st.close_lottery_with_pick(T0 + DAY, 0).unwrap();
    let deadline = st.claim_deadline();
    assert_eq!(st.claim_prize(deadline + 1, &s("B")).err(), Some(LotteryError::DeadlinePassed));
    assert_eq!(st.claim_prize(deadline, &s("C")).err(), Some(LotteryError::NotWinner));
    assert_eq!(st.prize_pool(), 100_000_000);
    let evs = st.claim_prize(deadline, &s("B")).unwrap();
    match &evs[0] {
        Event::PrizeClaimed { winner, amount } => {
            assert_eq!(Some(winner.clone()), st.winner());
            assert_eq!(*amount, 100_000_000);
        }
        other => panic!("unexpected event {:?}", other),
    }
    assert_eq!(st.prize_pool(), 0);
    assert_eq!(st.phase(), LotteryStateEnum::PrizeClaimed);
    assert_eq!(st.claim_prize(deadline, &s("B")).err(), Some(LotteryError::NotClosed));
}

#[test]
fn reset_requires_owner_in_any_phase() {
    let mut st = open_round();
    assert_eq!(st.reset_lottery(T0, &s("B"), 1).err(), Some(LotteryError::Unauthorized));
    assert_eq!(st.reset_lottery(T0, &s("A"), 1).err(), Some(LotteryError::PrizeNotClaimed));
    st.purchase_ticket_with_entropy(T0, &s("B"), &entropy(1)).unwrap();
    st.close_lottery_with_pick(T0 + DAY, 0).unwrap();
    assert_eq!(st.reset_lottery(T0 + DAY, &s("B"), 1).err(), Some(LotteryError::Unauthorized));
    st.claim_prize(T0 + DAY, &s("B")).unwrap();
    assert_eq!(st.reset_lottery(T0 + DAY, &s("B"), 1).err(), Some(LotteryError::Unauthorized));
    assert_eq!(st.reset_lottery(T0 + DAY, &s("A"), 0).err(), Some(LotteryError::InvalidDuration));
    assert_eq!(st.phase(), LotteryStateEnum::PrizeClaimed);
}

#[test]
fn full_round_resets_to_fresh_state() {
    let mut st = open_round();
    st.purchase_ticket(T0 + 1, &s("B")).unwrap();
    st.purchase_ticket(T0 + 2, &s("C")).unwrap();
    st.purchase_ticket(T0 + 3, &s("C")).unwrap();
    st.close_lottery(T0 + 2 * DAY).unwrap();
    let winner = st.winner().unwrap();
    let holder = st.ticket_owner(&winner).unwrap();
    st.claim_prize(T0 + 2 * DAY, &holder).unwrap();
    let now = T0 + 3 * DAY;
    let evs = st.reset_lottery(now, &s("A"), 2).unwrap();
    assert!(matches!(evs[..], [Event::LotteryReset]));
    let fresh = LotteryState::init(s("A"), s("token"), 2, now).unwrap();
    assert_eq!(st.phase(), fresh.phase());
    assert_eq!(st.prize_pool(), fresh.prize_pool());
    assert_eq!(st.winner(), fresh.winner());
    assert_eq!(st.ticket_ids(), fresh.ticket_ids());
    assert_eq!(st.total_tickets_sold(), fresh.total_tickets_sold());
    assert_eq!(st.ticket_price(), fresh.ticket_price());
    assert_eq!(st.max_tickets_per_user(), fresh.max_tickets_per_user());
    assert_eq!(st.owner(), fresh.owner());
    assert_eq!(st.icp_token_canister(), fresh.icp_token_canister());
    assert_eq!(st.lottery_start_time(), fresh.lottery_start_time());
    assert_eq!(st.lottery_end_time(), fresh.lottery_end_time());
    assert_eq!(st.claim_deadline(), fresh.claim_deadline());
    assert!(st.purchase_ticket(now, &s("B")).is_ok());
}

#[test]
fn scenario_three_tickets_two_buyers() {
    let mut st = open_round();
    st.purchase_ticket(T0 + 1, &s("B")).unwrap();
    st.purchase_ticket(T0 + 2, &s("B")).unwrap();
    st.purchase_ticket(T0 + 3, &s("C")).unwrap();
    assert_eq!(st.total_tickets_sold(), 3);
    assert_eq!(st.prize_pool(), 300_000_000);
    let ids = st.ticket_ids();
    st.close_lottery(T0 + DAY + 1).unwrap();
    let winner = st.winner().unwrap();
    assert!(ids.contains(&winner));
    let holder = st.ticket_owner(&winner).unwrap();
    let other = if holder == "B" { s("C") } else { s("B") };
    assert_eq!(st.claim_prize(T0 + DAY + 1, &other).err(), Some(LotteryError::NotWinner));
    assert!(st.claim_prize(T0 + DAY + 1, &holder).is_ok());
    assert_eq!(st.prize_pool(), 0);
}
