use crate::identity::{Action, Role};
use crate::state::GameState;
use anchor_lang::prelude::Pubkey;
use vstd::prelude::*;

verus! {

/// The escrow record as mathematics: unbounded integers, and the state with
/// what it carries. Every transition is a predicate that says when it is
/// legal and a function that gives the record after it.
pub struct EscrowView {
    pub player_one: Pubkey,
    pub player_two: Pubkey,
    pub pot: nat,
    pub round_time: nat,
    pub score: int,
    pub round: nat,
    pub win_threshold: nat,
    pub state: GameState,
}

/// What a decided game pays: half the pot, and the other half as well once
/// the custody balance exceeds the pot.
pub open spec fn winnings(pot: nat, custody_balance: nat) -> nat {
    if custody_balance > pot {
        pot / 2 + pot / 2
    } else {
        pot / 2
    }
}

impl EscrowView {
    /// The record right after it was set up.
    pub open spec fn created(
        player_one: Pubkey,
        player_two: Pubkey,
        pot: nat,
        round_time: nat,
        win_threshold: nat,
    ) -> EscrowView {
        EscrowView {
            player_one,
            player_two,
            pot,
            round_time,
            score: 0,
            round: 1,
            win_threshold,
            state: GameState::Created,
        }
    }

    /// Who holds a seat.
    pub open spec fn player(self, role: Role) -> Pubkey {
        match role {
            Role::PlayerOne => self.player_one,
            Role::PlayerTwo => self.player_two,
        }
    }

    /// Whether `caller` may take `action`: the caller holds the seat that
    /// the action is reserved for, or the action is reserved for no one.
    pub open spec fn authorizes(self, action: Action, caller: Pubkey) -> bool {
        match action.seat() {
            Some(role) => self.player(role) == caller,
            None => true,
        }
    }

    /// What each participant deposits.
    pub open spec fn stake(self) -> nat {
        self.pot / 2
    }

    /// The first moment at which the open round no longer takes a response.
    pub open spec fn deadline(self) -> int
        recommends
            self.state is Active,
    {
        self.state->start_time + self.round_time
    }

    /// A round is open and `now` lies before its deadline.
    pub open spec fn window_open(self, now: int) -> bool {
        self.state is Active && now < self.deadline()
    }

    /// A round is open and `now` lies after its deadline.
    pub open spec fn window_elapsed(self, now: int) -> bool {
        self.state is Active && now > self.deadline()
    }

    /// The score has reached the threshold in player one's favour.
    pub open spec fn player_one_ahead(self) -> bool {
        self.score >= self.win_threshold
    }

    /// The score has reached the threshold in player two's favour.
    pub open spec fn player_two_ahead(self) -> bool {
        self.score <= -self.win_threshold
    }

    /// Player two can enter only a game that was set up and not yet entered.
    pub open spec fn can_join(self) -> bool {
        self.state is Created
    }

    /// The record after player two entered.
    pub open spec fn joined(self) -> EscrowView {
        EscrowView { state: GameState::Inactive, ..self }
    }

    /// A round can be opened only while none is open and the game goes on.
    pub open spec fn can_start(self) -> bool {
        self.state is Inactive
    }

    /// The record after a round was opened at `now`: the score has moved one
    /// point towards player one.
    pub open spec fn started(self, now: i64) -> EscrowView {
        EscrowView { state: GameState::Active { start_time: now }, score: self.score + 1, ..self }
    }

    /// A response is taken only strictly before the deadline of an open round.
    pub open spec fn can_respond(self, now: int) -> bool {
        self.window_open(now)
    }

    /// The record after a response: the score has moved two points towards
    /// player two.
    pub open spec fn responded(self) -> EscrowView {
        EscrowView { score: self.score - 2, ..self }
    }

    /// A round is closed only strictly after its deadline.
    pub open spec fn can_end_round(self, now: int) -> bool {
        self.window_elapsed(now)
    }

    /// The record after the round was closed: one more round is counted.
    pub open spec fn round_ended(self) -> EscrowView {
        EscrowView { state: GameState::Inactive, round: self.round + 1, ..self }
    }

    /// A game is resolved before player two entered, or between rounds once
    /// the score has reached the threshold on either side.
    pub open spec fn can_end_game(self) -> bool {
        self.state is Created || (self.state is Inactive && (self.player_one_ahead()
            || self.player_two_ahead()))
    }

    /// Whether a resolution pays player one: on abandonment, and when the
    /// score favours player one. Where both sides have reached the threshold
    /// player one is served.
    pub open spec fn favours_player_one(self) -> bool {
        self.state is Created || self.player_one_ahead()
    }

    /// The seat that a resolution pays.
    pub open spec fn payee_role(self) -> Role {
        if self.favours_player_one() {
            Role::PlayerOne
        } else {
            Role::PlayerTwo
        }
    }

    /// Who is paid by a resolution: the holder of the seat that it pays.
    pub open spec fn payee(self) -> Pubkey {
        self.player(self.payee_role())
    }

    /// What a resolution pays out of custody that holds `custody_balance`. An
    /// abandoned game refunds the one stake that was deposited, whatever
    /// custody holds; a decided game pays its winnings.
    pub open spec fn payout(self, custody_balance: nat) -> nat {
        if self.state is Created {
            self.stake()
        } else {
            winnings(self.pot, custody_balance)
        }
    }

    /// The record after the resolution: failed where the game was abandoned,
    /// else finished with the payee as the winner.
    pub open spec fn game_ended(self) -> EscrowView {
        if self.state is Created {
            EscrowView { state: GameState::Failed, ..self }
        } else {
            EscrowView { state: GameState::Finished { winner: self.payee() }, ..self }
        }
    }

    /// The score is not ahead of the rounds: it is at most the number of
    /// rounds that were opened, which is the round counter while a round is
    /// open and one less between rounds.
    pub open spec fn paced(self) -> bool {
        if self.state is Active {
            self.score <= self.round
        } else {
            self.score < self.round
        }
    }

    /// The fields that are set when the game is made and never again.
    pub open spec fn same_terms(self, other: EscrowView) -> bool {
        &&& self.player_one == other.player_one
        &&& self.player_two == other.player_two
        &&& self.pot == other.pot
        &&& self.round_time == other.round_time
        &&& self.win_threshold == other.win_threshold
    }
}

} // verus!
