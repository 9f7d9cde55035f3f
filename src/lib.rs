//! A single-round ticket lottery as a verified state machine: tickets are sold
//! while the round is open, a winner is drawn once it has ended, the winner
//! claims the prize before a deadline, and the owner resets the round.

pub mod types;
pub mod ticket_id;
pub mod model;
pub mod engine;
pub mod laws;
