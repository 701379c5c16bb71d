use anchor_lang::prelude::Pubkey;
use is_online::{Action, Escrow, GameState, IsOnlineError, Role};

fn player_one() -> Pubkey {
    Pubkey::new_from_array([1u8; 32])
}

fn player_two() -> Pubkey {
    Pubkey::new_from_array([2u8; 32])
}

fn blank() -> Escrow {
    Escrow::from_parts([Pubkey::default(); 2], 0, 0, 0, 0, 0, GameState::Undefined)
}

fn record(score: i16, round: u8, state: GameState) -> Escrow {
    Escrow::from_parts([player_one(), player_two()], 100, 10, score, round, 3, state)
}

fn every_state() -> Vec<GameState> {
    vec![
        GameState::Undefined,
        GameState::Created,
        GameState::Active { start_time: 1_000 },
        GameState::Inactive,
        GameState::Finished { winner: player_one() },
        GameState::Failed,
    ]
}

#[test]
fn from_parts_keeps_every_field() {
    let state = GameState::Active { start_time: -7 };
    let escrow = Escrow::from_parts([player_one(), player_two()], 9, 8, -7, 6, 5, state);
    assert_eq!(escrow.players(), [player_one(), player_two()]);
    assert_eq!(escrow.pot(), 9);
    assert_eq!(escrow.round_time(), 8);
    assert_eq!(escrow.score(), -7);
    assert_eq!(escrow.round(), 6);
    assert_eq!(escrow.win_threshold(), 5);
    assert_eq!(escrow.game_state(), state);
}

#[test]
fn init_sets_terms_and_resets_progress() {
    let mut escrow = blank();
    assert_eq!(escrow.init([player_one(), player_two()], 100, 10, 3), Ok(()));
    assert_eq!(escrow.players(), [player_one(), player_two()]);
    assert_eq!(escrow.pot(), 100);
    assert_eq!(escrow.round_time(), 10);
    assert_eq!(escrow.win_threshold(), 3);
    assert_eq!(escrow.score(), 0);
    assert_eq!(escrow.round(), 1);
    assert_eq!(escrow.game_state(), GameState::Created);
}

#[test]
fn init_resets_a_record_that_was_used() {
    let mut escrow = record(-42, 17, GameState::Active { start_time: 5 });
    assert_eq!(escrow.init([player_two(), player_one()], 7, 0, 0), Ok(()));
    assert_eq!(
        escrow,
        Escrow::from_parts([player_two(), player_one()], 7, 0, 0, 1, 0, GameState::Created)
    );
}

#[test]
fn join_succeeds_only_from_created() {
    for state in every_state() {
        let before = record(0, 1, state);
        let mut escrow = before;
        let done = escrow.join();
        if state == GameState::Created {
            assert_eq!(done, Ok(()));
            assert_eq!(escrow, record(0, 1, GameState::Inactive));
        } else {
            assert_eq!(done, Err(IsOnlineError::JoinError));
            assert_eq!(escrow, before);
        }
    }
}

#[test]
fn start_succeeds_only_from_inactive() {
    for state in every_state() {
        let before = record(-1, 2, state);
        let mut escrow = before;
        let done = escrow.start_at(5_000);
        if state == GameState::Inactive {
            assert_eq!(done, Ok(()));
            assert_eq!(escrow, record(0, 2, GameState::Active { start_time: 5_000 }));
        } else {
            assert_eq!(done, Err(IsOnlineError::StartError));
            assert_eq!(escrow, before);
        }
    }
}

#[test]
fn start_takes_the_score_to_its_upper_limit() {
    let mut escrow = record(i16::MAX - 1, 2, GameState::Inactive);
    assert_eq!(escrow.start_at(-3), Ok(()));
    assert_eq!(escrow.score(), i16::MAX);
    assert_eq!(escrow.game_state(), GameState::Active { start_time: -3 });
}

#[test]
fn respond_needs_an_open_round() {
    for state in every_state() {
        if let GameState::Active { .. } = state {
            continue;
        }
        let before = record(1, 1, state);
        let mut escrow = before;
        assert_eq!(escrow.respond_at(1_001), Err(IsOnlineError::RespondError));
        assert_eq!(escrow, before);
    }
}

#[test]
fn respond_moves_the_score_by_two_and_nothing_else() {
    let mut escrow = record(1, 1, GameState::Active { start_time: 1_000 });
    assert_eq!(escrow.respond_at(1_000), Ok(()));
    assert_eq!(escrow, record(-1, 1, GameState::Active { start_time: 1_000 }));
    assert_eq!(escrow.respond_at(1_009), Ok(()));
    assert_eq!(escrow, record(-3, 1, GameState::Active { start_time: 1_000 }));
}

#[test]
fn respond_is_accepted_before_the_round_started() {
    let mut escrow = record(1, 1, GameState::Active { start_time: 1_000 });
    assert_eq!(escrow.respond_at(i64::MIN), Ok(()));
    assert_eq!(escrow.score(), -1);
}

#[test]
fn respond_is_refused_from_the_deadline_on() {
    let before = record(1, 1, GameState::Active { start_time: 1_000 });
    for now in [1_010, 1_011, i64::MAX] {
        let mut escrow = before;
        assert_eq!(escrow.respond_at(now), Err(IsOnlineError::RespondError));
        assert_eq!(escrow, before);
    }
}

#[test]
fn respond_takes_the_score_to_its_lower_limit() {
    let mut escrow = record(i16::MIN + 2, 1, GameState::Active { start_time: 0 });
    assert_eq!(escrow.respond_at(9), Ok(()));
    assert_eq!(escrow.score(), i16::MIN);
}

#[test]
fn end_round_needs_an_open_round() {
    for state in every_state() {
        if let GameState::Active { .. } = state {
            continue;
        }
        let before = record(1, 1, state);
        let mut escrow = before;
        assert_eq!(escrow.end_round_at(i64::MAX), Err(IsOnlineError::EndRoundError));
        assert_eq!(escrow, before);
    }
}

#[test]
fn end_round_is_refused_up_to_the_deadline() {
    let before = record(1, 1, GameState::Active { start_time: 1_000 });
    for now in [i64::MIN, 999, 1_000, 1_009, 1_010] {
        let mut escrow = before;
        assert_eq!(escrow.end_round_at(now), Err(IsOnlineError::EndRoundError));
        assert_eq!(escrow, before);
    }
}

#[test]
fn end_round_closes_the_round_after_the_deadline() {
    let mut escrow = record(-1, 1, GameState::Active { start_time: 1_000 });
    assert_eq!(escrow.end_round_at(1_011), Ok(()));
    assert_eq!(escrow, record(-1, 2, GameState::Inactive));
}

#[test]
fn end_round_takes_the_counter_to_its_limit() {
    let mut escrow = record(0, u8::MAX - 1, GameState::Active { start_time: 0 });
    assert_eq!(escrow.end_round_at(11), Ok(()));
    assert_eq!(escrow.round(), u8::MAX);
}

#[test]
fn deadline_beyond_the_clock_range_keeps_the_round_open() {
    let before = Escrow::from_parts(
        [player_one(), player_two()],
        100,
        u32::MAX,
        1,
        1,
        3,
        GameState::Active { start_time: i64::MAX },
    );
    let mut escrow = before;
    assert_eq!(escrow.end_round_at(i64::MAX), Err(IsOnlineError::EndRoundError));
    assert_eq!(escrow, before);
    assert_eq!(escrow.respond_at(i64::MAX), Ok(()));
    assert_eq!(escrow.score(), -1);
}

#[test]
fn round_of_no_length_takes_no_response() {
    let before = Escrow::from_parts(
        [player_one(), player_two()],
        100,
        0,
        1,
        1,
        3,
        GameState::Active { start_time: 50 },
    );
    let mut escrow = before;
    assert_eq!(escrow.respond_at(50), Err(IsOnlineError::RespondError));
    assert_eq!(escrow.respond_at(49), Ok(()));
    assert_eq!(escrow.end_round_at(50), Err(IsOnlineError::EndRoundError));
    assert_eq!(escrow.end_round_at(51), Ok(()));
}

#[test]
fn end_game_from_created_fails_the_game() {
    let mut escrow = record(0, 1, GameState::Created);
    assert_eq!(escrow.end_game(), Ok(true));
    assert_eq!(escrow, record(0, 1, GameState::Failed));
}

#[test]
fn end_game_at_the_threshold_finishes_for_player_one() {
    let mut escrow = record(3, 4, GameState::Inactive);
    assert_eq!(escrow.end_game(), Ok(true));
    assert_eq!(escrow, record(3, 4, GameState::Finished { winner: player_one() }));
}

#[test]
fn end_game_at_the_negative_threshold_finishes_for_player_two() {
    let mut escrow = record(-3, 4, GameState::Inactive);
    assert_eq!(escrow.end_game(), Ok(false));
    assert_eq!(escrow, record(-3, 4, GameState::Finished { winner: player_two() }));
}

#[test]
fn end_game_beyond_the_threshold_is_decided_too() {
    let mut high = record(i16::MAX, 4, GameState::Inactive);
    assert_eq!(high.end_game(), Ok(true));
    let mut low = record(i16::MIN, 4, GameState::Inactive);
    assert_eq!(low.end_game(), Ok(false));
    assert_eq!(low.game_state(), GameState::Finished { winner: player_two() });
}

#[test]
fn end_game_is_refused_while_undecided() {
    for score in [-2, -1, 0, 1, 2] {
        let before = record(score, 4, GameState::Inactive);
        let mut escrow = before;
        assert_eq!(escrow.end_game(), Err(IsOnlineError::EndGameError));
        assert_eq!(escrow, before);
    }
}

#[test]
fn end_game_is_refused_outside_created_and_inactive() {
    let states = [
        GameState::Undefined,
        GameState::Active { start_time: 1_000 },
        GameState::Finished { winner: player_two() },
        GameState::Failed,
    ];
    for state in states {
        let before = record(5, 4, state);
        let mut escrow = before;
        assert_eq!(escrow.end_game(), Err(IsOnlineError::EndGameError));
        assert_eq!(escrow, before);
    }
}

#[test]
fn end_game_with_threshold_zero_serves_player_one() {
    let mut escrow =
        Escrow::from_parts([player_one(), player_two()], 100, 10, 0, 1, 0, GameState::Inactive);
    assert_eq!(escrow.end_game(), Ok(true));
    assert_eq!(escrow.game_state(), GameState::Finished { winner: player_one() });
}

#[test]
fn end_game_with_the_widest_threshold() {
    let terms = |score: i16| {
        Escrow::from_parts([player_one(), player_two()], 100, 10, score, 1, 255, GameState::Inactive)
    };
    assert_eq!(terms(254).end_game(), Err(IsOnlineError::EndGameError));
    assert_eq!(terms(-254).end_game(), Err(IsOnlineError::EndGameError));
    assert_eq!(terms(255).end_game(), Ok(true));
    assert_eq!(terms(-255).end_game(), Ok(false));
}

#[test]
fn terminal_states_refuse_every_transition() {
    let terminal = [GameState::Finished { winner: player_two() }, GameState::Failed];
    for state in terminal {
        let before = record(-3, 4, state);
        let mut escrow = before;
        assert_eq!(escrow.join(), Err(IsOnlineError::JoinError));
        assert_eq!(escrow.start_at(1), Err(IsOnlineError::StartError));
        assert_eq!(escrow.respond_at(i64::MIN), Err(IsOnlineError::RespondError));
        assert_eq!(escrow.end_round_at(i64::MAX), Err(IsOnlineError::EndRoundError));
        assert_eq!(escrow.end_game(), Err(IsOnlineError::EndGameError));
        assert_eq!(escrow, before);
    }
}

#[test]
fn is_player_tells_the_seats_apart() {
    let escrow = record(0, 1, GameState::Created);
    assert!(escrow.is_player(Role::PlayerOne, &player_one()));
    assert!(escrow.is_player(Role::PlayerTwo, &player_two()));
    assert!(!escrow.is_player(Role::PlayerOne, &player_two()));
    assert!(!escrow.is_player(Role::PlayerTwo, &player_one()));
    assert!(!escrow.is_player(Role::PlayerOne, &Pubkey::new_from_array([3u8; 32])));
}

#[test]
fn is_player_compares_every_byte() {
    let mut bytes = [1u8; 32];
    bytes[31] = 0;
    let escrow = record(0, 1, GameState::Created);
    assert!(!escrow.is_player(Role::PlayerOne, &Pubkey::new_from_array(bytes)));
}

#[test]
fn each_action_is_reserved_as_the_rules_say() {
    assert_eq!(Action::Join.required_role(), Some(Role::PlayerTwo));
    assert_eq!(Action::StartRound.required_role(), Some(Role::PlayerOne));
    assert_eq!(Action::Respond.required_role(), Some(Role::PlayerTwo));
    assert_eq!(Action::EndRound.required_role(), None);
    assert_eq!(Action::EndGame.required_role(), None);
}

#[test]
fn authorizes_only_the_holder_of_the_seat() {
    let escrow = record(0, 1, GameState::Inactive);
    let stranger = Pubkey::new_from_array([9u8; 32]);
    assert!(escrow.authorizes(Action::Join, &player_two()));
    assert!(!escrow.authorizes(Action::Join, &player_one()));
    assert!(!escrow.authorizes(Action::Join, &stranger));
    assert!(escrow.authorizes(Action::StartRound, &player_one()));
    assert!(!escrow.authorizes(Action::StartRound, &player_two()));
    assert!(!escrow.authorizes(Action::StartRound, &stranger));
    assert!(escrow.authorizes(Action::Respond, &player_two()));
    assert!(!escrow.authorizes(Action::Respond, &player_one()));
    for anyone in [player_one(), player_two(), stranger] {
        assert!(escrow.authorizes(Action::EndRound, &anyone));
        assert!(escrow.authorizes(Action::EndGame, &anyone));
    }
}
