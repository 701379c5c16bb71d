use anchor_lang::prelude::Pubkey;
use vstd::prelude::*;

verus! {

/// Where a game stands in its lifecycle.
#[derive(Clone, Copy, Debug, PartialEq, Eq)]
pub enum GameState {
    /// The record has not been set up.
    Undefined,
    /// Set up by player one; player two has not joined.
    Created,
    /// A round is open since `start_time`, in seconds since the epoch.
    Active { start_time: i64 },
    /// Both stakes are in custody and no round is open.
    Inactive,
    /// Decided in favour of `winner`.
    Finished { winner: Pubkey },
    /// Abandoned before player two joined.
    Failed,
}

impl GameState {
    /// A terminal state is never left again by a game transition.
    pub open spec fn is_terminal(self) -> bool {
        self is Finished || self is Failed
    }
}

} // verus!
