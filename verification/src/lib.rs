//! Escrow for a two-player, round-based response game.
//!
//! Two participants each deposit half of a fixed pot. Rounds are opened by
//! player one and answered by player two inside a time window; every round
//! shifts a running score, and once the score reaches the win threshold the
//! pot is paid out. [`escrow::Escrow`] is the record and its transitions,
//! [`settlement`] turns a transition into the amount to move, and [`laws`]
//! states what holds across transitions.

pub mod clock;
pub mod error;
pub mod escrow;
pub mod identity;
pub mod laws;
pub mod model;
pub mod settlement;
pub mod state;

pub use crate::error::{IsOnlineError, TransitionError};
pub use crate::escrow::Escrow;
pub use crate::identity::{Action, Role};
pub use crate::model::EscrowView;
pub use crate::settlement::{end_game, init_game, join_game, Deposit, Payout};
pub use crate::state::GameState;
