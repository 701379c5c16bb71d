use anchor_lang::prelude::Pubkey;
use vstd::prelude::*;

verus! {

/// `solana_address::Address`, which anchor_lang exports as `Pubkey`: the 32
/// bytes that identify a participant. Nothing is known of a value but
/// whether it equals another.
#[verifier::external_type_specification]
#[verifier::external_body]
pub struct ExPubkey(Pubkey);

/// One of the two seats of a game.
#[derive(Clone, Copy, Debug, PartialEq, Eq, Structural)]
pub enum Role {
    /// Who set the game up and starts the rounds.
    PlayerOne,
    /// Who joins and responds.
    PlayerTwo,
}

/// What a caller can ask of a game once it is set up.
#[derive(Clone, Copy, Debug, PartialEq, Eq, Structural)]
pub enum Action {
    Join,
    StartRound,
    Respond,
    EndRound,
    EndGame,
}

impl Action {
    /// The seat whose holder alone may take the action; `None` where anyone
    /// may.
    pub open spec fn seat(self) -> Option<Role> {
        match self {
            Action::Join => Some(Role::PlayerTwo),
            Action::StartRound => Some(Role::PlayerOne),
            Action::Respond => Some(Role::PlayerTwo),
            Action::EndRound => None,
            Action::EndGame => None,
        }
    }

    /// Player one starts the rounds, player two joins and responds, and
    /// anyone may close an elapsed round or resolve the game.
    pub fn required_role(self) -> (role: Option<Role>)
        ensures
            role == self.seat(),
    {
        match self {
            Action::Join => Some(Role::PlayerTwo),
            Action::StartRound => Some(Role::PlayerOne),
            Action::Respond => Some(Role::PlayerTwo),
            Action::EndRound => None,
            Action::EndGame => None,
        }
    }
}

/// Calls `PartialEq::eq` of `Pubkey`, which is derived over the 32 bytes
/// that make up the whole value: it returns true exactly for equal keys.
#[verifier::external_body]
pub(crate) fn same_key(a: &Pubkey, b: &Pubkey) -> (same: bool)
    ensures
        same == (*a == *b),
{
    a.eq(b)
}

} // verus!
