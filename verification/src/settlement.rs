use crate::error::IsOnlineError;
use crate::escrow::Escrow;
use crate::identity::Role;
use crate::model::EscrowView;
use crate::state::GameState;
use anchor_lang::prelude::Pubkey;
use vstd::prelude::*;

verus! {

/// An amount that a participant owes to custody after a step.
#[derive(Clone, Copy, Debug, PartialEq, Eq, Structural)]
pub struct Deposit {
    pub from: Role,
    pub amount: u64,
}

/// An amount that custody owes to a participant after a resolution.
#[derive(Clone, Copy, Debug, PartialEq, Eq, Structural)]
pub struct Payout {
    pub to: Role,
    pub amount: u64,
}

/// Sets the game up between `player_one` and `player_two` and tells what
/// player one has to deposit: half the pot, rounded down.
pub fn init_game(
    escrow: &mut Escrow,
    player_one: Pubkey,
    player_two: Pubkey,
    pot: u64,
    round_time: u32,
    win_threshold: u8,
) -> (owed: Result<Deposit, IsOnlineError>)
    ensures
        final(escrow)@ == EscrowView::created(
            player_one,
            player_two,
            pot as nat,
            round_time as nat,
            win_threshold as nat,
        ),
        owed is Ok,
        owed->Ok_0.from == Role::PlayerOne,
        owed->Ok_0.amount == final(escrow)@.stake(),
        owed->Ok_0.amount == pot / 2,
{
    match escrow.init([player_one, player_two], pot, round_time, win_threshold) {
        Ok(()) => Ok(Deposit { from: Role::PlayerOne, amount: pot / 2 }),
        Err(kind) => Err(kind),
    }
}

/// Lets player two enter and tells what player two has to deposit: half the
/// pot, rounded down.
pub fn join_game(escrow: &mut Escrow) -> (owed: Result<Deposit, IsOnlineError>)
    ensures
        old(escrow)@.can_join() ==> final(escrow)@ == old(escrow)@.joined() && owed is Ok
            && owed->Ok_0.from == Role::PlayerTwo && owed->Ok_0.amount == old(escrow)@.stake(),
        !old(escrow)@.can_join() ==> *final(escrow) == *old(escrow) && owed == Err::<
            Deposit,
            IsOnlineError,
        >(IsOnlineError::JoinError),
{
    match escrow.join() {
        Ok(()) => Ok(Deposit { from: Role::PlayerTwo, amount: escrow.pot() / 2 }),
        Err(kind) => Err(kind),
    }
}

/// Resolves the game and tells what custody, which holds `custody_balance`,
/// has to pay and to whom. An abandoned game refunds player one's stake and
/// no more. A decided game pays half the pot, and the other half as well
/// where the balance exceeds the pot.
pub fn end_game(escrow: &mut Escrow, custody_balance: u64) -> (owed: Result<Payout, IsOnlineError>)
    ensures
        old(escrow)@.can_end_game() ==> final(escrow)@ == old(escrow)@.game_ended() && owed is Ok
            && owed->Ok_0.to == old(escrow)@.payee_role() && owed->Ok_0.amount == old(
            escrow,
        )@.payout(custody_balance as nat),
        !old(escrow)@.can_end_game() ==> *final(escrow) == *old(escrow) && owed == Err::<
            Payout,
            IsOnlineError,
        >(IsOnlineError::EndGameError),
{
    let abandoned = match escrow.game_state() {
        GameState::Created => true,
        _ => false,
    };
    match escrow.end_game() {
        Ok(player_one_is_paid) => {
            let pot = escrow.pot();
            let mut amount: u64 = pot / 2;
            if !abandoned && custody_balance > pot {
                amount = amount + pot / 2;
            }
            let to = if player_one_is_paid {
                Role::PlayerOne
            } else {
                Role::PlayerTwo
            };
            Ok(Payout { to, amount })
        },
        Err(kind) => Err(kind),
    }
}

} // verus!
