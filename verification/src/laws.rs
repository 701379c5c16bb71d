use crate::identity::Action;
use crate::model::EscrowView;
use crate::state::GameState;
use anchor_lang::prelude::Pubkey;
use vstd::prelude::*;

verus! {

/// An action that is reserved for a seat is open to the holder of that seat
/// and, between two distinct players, never to the other one.
pub proof fn law_seat_is_held_by_one_player(escrow: EscrowView, action: Action, caller: Pubkey)
    requires
        escrow.player_one != escrow.player_two,
        action.seat() is Some,
    ensures
        escrow.authorizes(action, escrow.player(action.seat()->0)),
        escrow.authorizes(action, caller) ==> caller == escrow.player(action.seat()->0),
        !(escrow.authorizes(action, escrow.player_one) && escrow.authorizes(
            action,
            escrow.player_two,
        )),
{
}

/// Once a game is finished or failed, no transition of the game is legal at
/// any time: nothing can be replayed, and a resolution cannot be repeated.
pub proof fn law_terminal_state_is_final(escrow: EscrowView, now: int)
    requires
        escrow.state.is_terminal(),
    ensures
        !escrow.can_join(),
        !escrow.can_start(),
        !escrow.can_respond(now),
        !escrow.can_end_round(now),
        !escrow.can_end_game(),
{
}

/// A resolution always ends in a terminal state, so it happens at most once.
pub proof fn law_resolution_is_terminal(escrow: EscrowView)
    requires
        escrow.can_end_game(),
    ensures
        escrow.game_ended().state.is_terminal(),
        !escrow.game_ended().can_end_game(),
{
}

/// No step can be taken twice in a row: a game is entered once, a round is
/// opened once before it is closed and closed once before the next is
/// opened, and while a round is open the game cannot be resolved.
pub proof fn law_steps_are_not_replayed(escrow: EscrowView, opened: i64, now: int)
    ensures
        escrow.can_join() ==> !escrow.joined().can_join(),
        escrow.can_start() ==> escrow.started(opened).state is Active && !escrow.started(
            opened,
        ).can_start() && !escrow.started(opened).can_join() && !escrow.started(
            opened,
        ).can_end_game(),
        escrow.can_end_round(now) ==> escrow.round_ended().can_start()
            && !escrow.round_ended().can_end_round(now) && !escrow.round_ended().can_respond(now),
{
}

/// At no time can a round both take a response and be closed, and at its
/// deadline it can do neither: a round is closed only after its window.
pub proof fn law_window_is_open_or_elapsed(escrow: EscrowView, now: int)
    ensures
        !(escrow.can_respond(now) && escrow.can_end_round(now)),
        escrow.state is Active && now == escrow.deadline() ==> !escrow.can_respond(now)
            && !escrow.can_end_round(now),
        escrow.can_respond(now) ==> forall|earlier: int|
            earlier <= now ==> #[trigger] escrow.can_respond(earlier),
        escrow.can_end_round(now) ==> forall|later: int|
            later >= now ==> #[trigger] escrow.can_end_round(later),
{
}

/// A response changes the score and nothing else, so the round that took it
/// is still open and closes at the same deadline.
pub proof fn law_response_keeps_round_open(escrow: EscrowView, now: int)
    requires
        escrow.can_respond(now),
    ensures
        escrow.responded().state == escrow.state,
        escrow.responded().round == escrow.round,
        escrow.responded().score == escrow.score - 2,
        escrow.responded().deadline() == escrow.deadline(),
        escrow.responded().can_respond(now),
{
}

/// A full round with one response in time moves the score by one point
/// towards player two and the round counter by one.
pub proof fn law_answered_round(escrow: EscrowView, start: i64, answer: int, close: int)
    requires
        escrow.can_start(),
        escrow.started(start).can_respond(answer),
        escrow.started(start).responded().can_end_round(close),
    ensures
        answer < close,
        escrow.started(start).responded().round_ended().state is Inactive,
        escrow.started(start).responded().round_ended().score == escrow.score - 1,
        escrow.started(start).responded().round_ended().round == escrow.round + 1,
{
}

/// A round that goes unanswered moves the score by one point towards player
/// one and the round counter by one.
pub proof fn law_unanswered_round(escrow: EscrowView, start: i64, close: int)
    requires
        escrow.can_start(),
        escrow.started(start).can_end_round(close),
    ensures
        escrow.started(start).round_ended().state is Inactive,
        escrow.started(start).round_ended().score == escrow.score + 1,
        escrow.started(start).round_ended().round == escrow.round + 1,
{
}

/// A game starts with its score behind the round counter, and no step lets
/// the score get ahead of the rounds that were opened. So in a game that was
/// set up and played by these steps, a round start always has room for its
/// point.
pub proof fn law_score_keeps_pace_with_rounds(escrow: EscrowView, opened: i64, now: int)
    requires
        escrow.paced(),
    ensures
        EscrowView::created(
            escrow.player_one,
            escrow.player_two,
            escrow.pot,
            escrow.round_time,
            escrow.win_threshold,
        ).paced(),
        escrow.can_join() ==> escrow.joined().paced(),
        escrow.can_start() ==> escrow.started(opened).paced(),
        escrow.can_respond(now) ==> escrow.responded().paced(),
        escrow.can_end_round(now) ==> escrow.round_ended().paced(),
        escrow.can_end_game() ==> escrow.game_ended().paced(),
        escrow.round <= u8::MAX ==> escrow.score < i16::MAX,
{
}

/// No transition touches the players, the pot, the round time or the
/// threshold.
pub proof fn law_terms_are_fixed(escrow: EscrowView, now: i64)
    ensures
        escrow.joined().same_terms(escrow),
        escrow.started(now).same_terms(escrow),
        escrow.responded().same_terms(escrow),
        escrow.round_ended().same_terms(escrow),
        escrow.game_ended().same_terms(escrow),
{
}

/// A game that is abandoned before player two joined fails, and player one
/// gets the stake back and no more, whatever custody holds.
pub proof fn law_abandonment_refunds_stake(escrow: EscrowView, custody_balance: nat)
    requires
        escrow.state is Created,
    ensures
        escrow.can_end_game(),
        escrow.game_ended().state is Failed,
        escrow.favours_player_one(),
        escrow.payout(custody_balance) == escrow.stake(),
        escrow.payout(custody_balance) == escrow.pot / 2,
{
}

/// With both stakes in custody and the score at or above the threshold, the
/// game is finished for player one, who is paid both stakes: the whole of an
/// even pot.
pub proof fn law_player_one_wins(escrow: EscrowView, custody_balance: nat)
    requires
        escrow.state is Inactive,
        escrow.score >= escrow.win_threshold,
        custody_balance > escrow.pot,
    ensures
        escrow.can_end_game(),
        escrow.game_ended().state == (GameState::Finished { winner: escrow.player_one }),
        escrow.favours_player_one(),
        escrow.payout(custody_balance) == 2 * escrow.stake(),
        escrow.pot % 2 == 0 ==> escrow.payout(custody_balance) == escrow.pot,
{
}

/// With both stakes in custody, a positive threshold and the score at or
/// below its negative, the game is finished for player two, who is paid both
/// stakes: the whole of an even pot.
pub proof fn law_player_two_wins(escrow: EscrowView, custody_balance: nat)
    requires
        escrow.state is Inactive,
        escrow.win_threshold > 0,
        escrow.score <= -escrow.win_threshold,
        custody_balance > escrow.pot,
    ensures
        escrow.can_end_game(),
        escrow.game_ended().state == (GameState::Finished { winner: escrow.player_two }),
        !escrow.favours_player_one(),
        escrow.payout(custody_balance) == 2 * escrow.stake(),
        escrow.pot % 2 == 0 ==> escrow.payout(custody_balance) == escrow.pot,
{
}

/// While the score lies strictly between the threshold and its negative, a
/// game that both players have entered cannot be resolved.
pub proof fn law_undecided_game_goes_on(escrow: EscrowView)
    requires
        escrow.state is Inactive,
        -escrow.win_threshold < escrow.score < escrow.win_threshold,
    ensures
        !escrow.can_end_game(),
{
}

/// A payout never exceeds the pot, and custody that holds at least one stake
/// can always cover it.
pub proof fn law_payout_is_covered(escrow: EscrowView, custody_balance: nat)
    ensures
        escrow.payout(custody_balance) <= escrow.pot,
        custody_balance >= escrow.stake() ==> escrow.payout(custody_balance) <= custody_balance,
{
}

} // verus!
