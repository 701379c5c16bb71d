use crate::clock::unix_timestamp;
use crate::error::{IsOnlineError, TransitionError};
use crate::identity::{same_key, Action, Role};
use crate::model::EscrowView;
use crate::state::GameState;
use anchor_lang::prelude::Pubkey;
use vstd::prelude::*;

verus! {

/// The settlement record of one game.
///
/// The players, the pot, the round time and the threshold are set by
/// [`Escrow::init`] and never change afterwards. Every other method either
/// applies its whole effect or refuses and leaves the record as it was.
#[derive(Clone, Copy, Debug, PartialEq, Eq)]
pub struct Escrow {
    players: [Pubkey; 2],
    pot: u64,
    round_time: u32,
    score: i16,
    round: u8,
    win_threshold: u8,
    game_state: GameState,
}

impl View for Escrow {
    type V = EscrowView;

    closed spec fn view(&self) -> EscrowView {
        EscrowView {
            player_one: self.players[0],
            player_two: self.players[1],
            pot: self.pot as nat,
            round_time: self.round_time as nat,
            score: self.score as int,
            round: self.round as nat,
            win_threshold: self.win_threshold as nat,
            state: self.game_state,
        }
    }
}

impl Escrow {
    /// A record with the given contents, whatever they are.
    pub fn from_parts(
        players: [Pubkey; 2],
        pot: u64,
        round_time: u32,
        score: i16,
        round: u8,
        win_threshold: u8,
        game_state: GameState,
    ) -> (escrow: Escrow)
        ensures
            escrow@ == (EscrowView {
                player_one: players[0],
                player_two: players[1],
                pot: pot as nat,
                round_time: round_time as nat,
                score: score as int,
                round: round as nat,
                win_threshold: win_threshold as nat,
                state: game_state,
            }),
    {
        Escrow { players, pot, round_time, score, round, win_threshold, game_state }
    }

    /// Player one, then player two.
    pub fn players(&self) -> (players: [Pubkey; 2])
        ensures
            players[0] == self@.player_one,
            players[1] == self@.player_two,
    {
        self.players
    }

    pub fn pot(&self) -> (pot: u64)
        ensures
            pot == self@.pot,
    {
        self.pot
    }

    pub fn round_time(&self) -> (round_time: u32)
        ensures
            round_time == self@.round_time,
    {
        self.round_time
    }

    pub fn score(&self) -> (score: i16)
        ensures
            score == self@.score,
    {
        self.score
    }

    pub fn round(&self) -> (round: u8)
        ensures
            round == self@.round,
    {
        self.round
    }

    pub fn win_threshold(&self) -> (win_threshold: u8)
        ensures
            win_threshold == self@.win_threshold,
    {
        self.win_threshold
    }

    pub fn game_state(&self) -> (game_state: GameState)
        ensures
            game_state == self@.state,
    {
        self.game_state
    }

    /// The guard before a transition: whether `caller` may take `action`.
    pub fn authorizes(&self, action: Action, caller: &Pubkey) -> (allowed: bool)
        ensures
            allowed == self@.authorizes(action, *caller),
    {
        match action.required_role() {
            Some(role) => self.is_player(role, caller),
            None => true,
        }
    }

    /// Whether `who` holds the seat `role`.
    pub fn is_player(&self, role: Role, who: &Pubkey) -> (holds: bool)
        ensures
            holds == (self@.player(role) == *who),
    {
        match role {
            Role::PlayerOne => same_key(&self.players[0], who),
            Role::PlayerTwo => same_key(&self.players[1], who),
        }
    }

    /// Sets the game up: the terms are stored, the score is 0, the round
    /// counter is 1 and the state is `Created`. It never refuses.
    pub fn init(
        &mut self,
        players: [Pubkey; 2],
        pot: u64,
        round_time: u32,
        win_threshold: u8,
    ) -> (done: Result<(), IsOnlineError>)
        ensures
            done is Ok,
            final(self)@ == EscrowView::created(
                players[0],
                players[1],
                pot as nat,
                round_time as nat,
                win_threshold as nat,
            ),
    {
        self.players = players;
        self.pot = pot;
        self.round_time = round_time;
        self.win_threshold = win_threshold;
        self.score = 0;
        self.round = 1;
        self.game_state = GameState::Created;
        Ok(())
    }

    /// Player two enters: `Created` becomes `Inactive`.
    pub fn join(&mut self) -> (done: Result<(), IsOnlineError>)
        ensures
            old(self)@.can_join() ==> done is Ok && final(self)@ == old(self)@.joined(),
            !old(self)@.can_join() ==> done == Err::<(), IsOnlineError>(IsOnlineError::JoinError)
                && *final(self) == *old(self),
    {
        match self.game_state {
            GameState::Created => {
                self.game_state = GameState::Inactive;
                Ok(())
            },
            _ => Err(IsOnlineError::JoinError),
        }
    }

    /// Opens a round at `now`: the score moves one point towards player one.
    pub fn start_at(&mut self, now: i64) -> (done: Result<(), IsOnlineError>)
        requires
            old(self)@.can_start() ==> old(self)@.score < i16::MAX,
        ensures
            old(self)@.can_start() ==> done is Ok && final(self)@ == old(self)@.started(now),
            !old(self)@.can_start() ==> done == Err::<(), IsOnlineError>(IsOnlineError::StartError)
                && *final(self) == *old(self),
    {
        match self.game_state {
            GameState::Inactive => {
                self.game_state = GameState::Active { start_time: now };
                self.score = self.score + 1;
                Ok(())
            },
            _ => Err(IsOnlineError::StartError),
        }
    }

    /// Takes a response at `now`: while the window is open the score moves
    /// two points towards player two, and the round stays open.
    pub fn respond_at(&mut self, now: i64) -> (done: Result<(), IsOnlineError>)
        requires
            old(self)@.can_respond(now as int) ==> old(self)@.score >= i16::MIN + 2,
        ensures
            old(self)@.can_respond(now as int) ==> done is Ok && final(self)@ == old(
                self,
            )@.responded(),
            !old(self)@.can_respond(now as int) ==> done == Err::<(), IsOnlineError>(
                IsOnlineError::RespondError,
            ) && *final(self) == *old(self),
    {
        match self.game_state {
            GameState::Active { start_time } => {
                if (now as i128) < start_time as i128 + self.round_time as i128 {
                    self.score = self.score - 2;
                    Ok(())
                } else {
                    Err(IsOnlineError::RespondError)
                }
            },
            _ => Err(IsOnlineError::RespondError),
        }
    }

    /// Closes the round at `now`, once its window has elapsed: the state is
    /// `Inactive` again and the round counter goes up by one.
    pub fn end_round_at(&mut self, now: i64) -> (done: Result<(), IsOnlineError>)
        requires
            old(self)@.can_end_round(now as int) ==> old(self)@.round < u8::MAX,
        ensures
            old(self)@.can_end_round(now as int) ==> done is Ok && final(self)@ == old(
                self,
            )@.round_ended(),
            !old(self)@.can_end_round(now as int) ==> done == Err::<(), IsOnlineError>(
                IsOnlineError::EndRoundError,
            ) && *final(self) == *old(self),
    {
        match self.game_state {
            GameState::Active { start_time } => {
                if now as i128 > start_time as i128 + self.round_time as i128 {
                    self.game_state = GameState::Inactive;
                    self.round = self.round + 1;
                    Ok(())
                } else {
                    Err(IsOnlineError::EndRoundError)
                }
            },
            _ => Err(IsOnlineError::EndRoundError),
        }
    }

    /// Opens a round at the time that the clock gives. The clock is read
    /// only where the state allows a start.
    pub fn start(&mut self) -> (done: Result<(), TransitionError>)
        requires
            old(self)@.can_start() ==> old(self)@.score < i16::MAX,
        ensures
            !old(self)@.can_start() ==> done == Err::<(), TransitionError>(
                TransitionError::Rejected(IsOnlineError::StartError),
            ),
            match done {
                Ok(_) => old(self)@.can_start() && final(self)@.state is Active && final(self)@
                    == old(self)@.started(final(self)@.state->start_time),
                Err(TransitionError::Rejected(kind)) => !old(self)@.can_start() && kind
                    == IsOnlineError::StartError && *final(self) == *old(self),
                Err(TransitionError::Clock(_)) => old(self)@.can_start() && *final(self) == *old(
                    self,
                ),
            },
    {
        match self.game_state {
            GameState::Inactive => match unix_timestamp() {
                Ok(now) => match self.start_at(now) {
                    Ok(()) => Ok(()),
                    Err(kind) => Err(TransitionError::Rejected(kind)),
                },
                Err(unread) => Err(TransitionError::Clock(unread)),
            },
            _ => Err(TransitionError::Rejected(IsOnlineError::StartError)),
        }
    }

    /// Takes a response at the time that the clock gives. The clock is read
    /// only while a round is open.
    pub fn respond(&mut self) -> (done: Result<(), TransitionError>)
        requires
            old(self)@.state is Active ==> old(self)@.score >= i16::MIN + 2,
        ensures
            !(old(self)@.state is Active) ==> done == Err::<(), TransitionError>(
                TransitionError::Rejected(IsOnlineError::RespondError),
            ),
            match done {
                Ok(_) => old(self)@.state is Active && final(self)@ == old(self)@.responded(),
                Err(TransitionError::Rejected(kind)) => kind == IsOnlineError::RespondError
                    && *final(self) == *old(self),
                Err(TransitionError::Clock(_)) => old(self)@.state is Active && *final(self)
                    == *old(self),
            },
    {
        match self.game_state {
            GameState::Active { .. } => match unix_timestamp() {
                Ok(now) => match self.respond_at(now) {
                    Ok(()) => Ok(()),
                    Err(kind) => Err(TransitionError::Rejected(kind)),
                },
                Err(unread) => Err(TransitionError::Clock(unread)),
            },
            _ => Err(TransitionError::Rejected(IsOnlineError::RespondError)),
        }
    }

    /// Closes the round at the time that the clock gives. The clock is read
    /// only while a round is open.
    pub fn end_round(&mut self) -> (done: Result<(), TransitionError>)
        requires
            old(self)@.state is Active ==> old(self)@.round < u8::MAX,
        ensures
            !(old(self)@.state is Active) ==> done == Err::<(), TransitionError>(
                TransitionError::Rejected(IsOnlineError::EndRoundError),
            ),
            match done {
                Ok(_) => old(self)@.state is Active && final(self)@ == old(self)@.round_ended(),
                Err(TransitionError::Rejected(kind)) => kind == IsOnlineError::EndRoundError
                    && *final(self) == *old(self),
                Err(TransitionError::Clock(_)) => old(self)@.state is Active && *final(self)
                    == *old(self),
            },
    {
        match self.game_state {
            GameState::Active { .. } => match unix_timestamp() {
                Ok(now) => match self.end_round_at(now) {
                    Ok(()) => Ok(()),
                    Err(kind) => Err(TransitionError::Rejected(kind)),
                },
                Err(unread) => Err(TransitionError::Clock(unread)),
            },
            _ => Err(TransitionError::Rejected(IsOnlineError::EndRoundError)),
        }
    }

    /// Resolves the game. An abandoned game fails in player one's favour; a
    /// game whose score has reached the threshold is finished for the side
    /// that the score favours. The result tells whether player one is paid.
    pub fn end_game(&mut self) -> (paid: Result<bool, IsOnlineError>)
        ensures
            old(self)@.can_end_game() ==> paid == Ok::<bool, IsOnlineError>(
                old(self)@.favours_player_one(),
            ) && final(self)@ == old(self)@.game_ended(),
            !old(self)@.can_end_game() ==> paid == Err::<bool, IsOnlineError>(
                IsOnlineError::EndGameError,
            ) && *final(self) == *old(self),
    {
        match self.game_state {
            GameState::Created => {
                self.game_state = GameState::Failed;
                Ok(true)
            },
            GameState::Inactive => {
                let threshold: i16 = self.win_threshold as i16;
                if self.score >= threshold {
                    self.game_state = GameState::Finished { winner: self.players[0] };
                    Ok(true)
                } else if self.score <= -threshold {
                    self.game_state = GameState::Finished { winner: self.players[1] };
                    Ok(false)
                } else {
                    Err(IsOnlineError::EndGameError)
                }
            },
            _ => Err(IsOnlineError::EndGameError),
        }
    }
}

} // verus!
