use anchor_lang::prelude::ProgramError;
use vstd::prelude::*;

verus! {

/// Why a transition was refused. There is one kind per transition, and a
/// kind does not tell a wrong state from a wrong time.
#[derive(Clone, Copy, Debug, PartialEq, Eq, Structural)]
pub enum IsOnlineError {
    /// `join` outside `Created`.
    JoinError,
    /// A round start outside `Inactive`.
    StartError,
    /// A response outside an open round.
    RespondError,
    /// A round close outside an elapsed round.
    EndRoundError,
    /// A resolution that no terminal condition allows.
    EndGameError,
}

/// Why a transition that reads the clock did not take place.
#[derive(Debug, PartialEq, Eq)]
pub enum TransitionError {
    /// The transition is illegal in this state or at this time.
    Rejected(IsOnlineError),
    /// The clock could not be read; the error is the one it reported.
    Clock(ProgramError),
}

} // verus!
