use backgammon::board::Board;
use backgammon::dice::DiceState;
use backgammon::engine::{Phase, TurnEngine};
use backgammon::moves::{Move, MoveError, Square};
use backgammon::player::Player;

fn counts(pairs: &[(usize, u8)]) -> Vec<u8> {
    let mut v = vec![0u8; 24];
    for (pt, c) in pairs {
        v[pt - 1] = *c;
    }
    v
}

fn engine_at(
    white: &[(usize, u8)],
    black: &[(usize, u8)],
    bars: (u8, u8),
    homes: (u8, u8),
    active: Player,
) -> TurnEngine {
    let board =
        Board::from_parts(counts(white), counts(black), bars.0, bars.1, homes.0, homes.1)
            .expect("position must satisfy the board invariant");
    TurnEngine { board, dice: DiceState::from_roll(1, 2), phase: Phase::AwaitingRoll, active }
}

fn mv(from: Square, to: Square, die: u8) -> Move {
    Move { from, to, die }
}

#[test]
fn opening_six_five_runs_a_checker() {
    let mut e = TurnEngine::new(Player::White);
    assert_eq!(e.phase, Phase::AwaitingRoll);
    e.roll(6, 5);
    assert_eq!(e.phase, Phase::Moving);
    assert_eq!(e.apply_move(mv(Square::Point(24), Square::Point(18), 6)), Ok(()));
    assert_eq!(e.apply_move(mv(Square::Point(18), Square::Point(13), 5)), Ok(()));
    // one checker left on 24, six now on 13, nothing resting on 18
    assert_eq!(e.board.checkers_at(24), (Some(Player::White), 1));
    assert_eq!(e.board.checkers_at(13), (Some(Player::White), 6));
    assert_eq!(e.board.checkers_at(18), (None, 0));
    // both dice spent: the turn has passed to Black
    assert_eq!(e.phase, Phase::AwaitingRoll);
    assert_eq!(e.active, Player::Black);
}

#[test]
fn illegal_move_is_recoverable() {
    let mut e = TurnEngine::new(Player::White);
    e.roll(6, 5);
    let before = e.board.white.clone();
    let remaining_before = e.dice.remaining.clone();
    // wrong die for the distance
    assert_eq!(
        e.apply_move(mv(Square::Point(24), Square::Point(18), 5)),
        Err(MoveError::IllegalMove)
    );
    assert_eq!(e.phase, Phase::Moving);
    assert_eq!(e.board.white, before);
    assert_eq!(e.dice.remaining, remaining_before);
    // a legal move still goes through afterwards
    assert_eq!(e.apply_move(mv(Square::Point(24), Square::Point(18), 6)), Ok(()));
}

#[test]
fn moves_in_wrong_phase_are_rejected() {
    let mut e = TurnEngine::new(Player::White);
    assert_eq!(
        e.apply_move(mv(Square::Point(24), Square::Point(18), 6)),
        Err(MoveError::IllegalMove)
    );
    assert_eq!(e.phase, Phase::AwaitingRoll);
}

#[test]
fn double_four_permits_four_advances() {
    let mut e = TurnEngine::new(Player::White);
    e.roll(4, 4);
    assert_eq!(e.dice.remaining, vec![4, 4, 4, 4]);
    assert_eq!(e.apply_move(mv(Square::Point(24), Square::Point(20), 4)), Ok(()));
    assert_eq!(e.apply_move(mv(Square::Point(20), Square::Point(16), 4)), Ok(()));
    assert_eq!(e.apply_move(mv(Square::Point(13), Square::Point(9), 4)), Ok(()));
    assert_eq!(e.phase, Phase::Moving);
    assert_eq!(e.apply_move(mv(Square::Point(13), Square::Point(9), 4)), Ok(()));
    // four moves of four pips each, then the turn passes
    assert_eq!(e.phase, Phase::AwaitingRoll);
    assert_eq!(e.active, Player::Black);
    assert_eq!(e.board.checkers_at(9), (Some(Player::White), 2));
}

#[test]
fn roll_without_a_legal_move_passes_immediately() {
    // all fifteen White checkers on 24; Black holds 18: a double six
    // offers no move, and the turn passes with the board untouched
    let mut e = engine_at(
        &[(24, 15)],
        &[(18, 2), (1, 5), (2, 5), (3, 3)],
        (0, 0),
        (0, 0),
        Player::White,
    );
    let before = e.board.white.clone();
    e.roll(6, 6);
    assert_eq!(e.phase, Phase::AwaitingRoll);
    assert_eq!(e.active, Player::Black);
    assert_eq!(e.board.white, before);
    assert_eq!(e.board.bar_white, 0);
}

#[test]
fn hit_from_the_engine_sends_opponent_to_bar() {
    let mut e = engine_at(
        &[(6, 5), (8, 3), (13, 5), (24, 2)],
        &[(1, 1), (5, 1), (12, 5), (17, 3), (19, 5)],
        (0, 0),
        (0, 0),
        Player::White,
    );
    e.roll(3, 1);
    assert_eq!(e.apply_move(mv(Square::Point(8), Square::Point(5), 3)), Ok(()));
    assert_eq!(e.board.bar(Player::Black), 1);
    assert_eq!(e.board.checkers_at(5), (Some(Player::White), 1));
}

#[test]
fn fifteenth_bear_off_wins_the_game() {
    let mut e = engine_at(
        &[(1, 1)],
        &[(19, 5), (20, 5), (21, 5)],
        (0, 0),
        (14, 0),
        Player::White,
    );
    assert_eq!(e.winner(), None);
    e.roll(1, 2);
    assert_eq!(e.apply_move(mv(Square::Point(1), Square::Off, 1)), Ok(()));
    assert_eq!(e.phase, Phase::GameOver);
    assert_eq!(e.winner(), Some(Player::White));
    assert_eq!(e.board.home(Player::White), 15);
    // a finished game accepts no further move
    assert_eq!(
        e.apply_move(mv(Square::Point(19), Square::Point(20), 1)),
        Err(MoveError::IllegalMove)
    );
}

#[test]
fn snapshot_restore_accepts_reachable_states() {
    let mut e = TurnEngine::new(Player::White);
    e.roll(6, 5);
    assert_eq!(e.apply_move(mv(Square::Point(24), Square::Point(18), 6)), Ok(()));
    let board = Board {
        white: e.board.white.clone(),
        black: e.board.black.clone(),
        bar_white: e.board.bar_white,
        bar_black: e.board.bar_black,
        home_white: e.board.home_white,
        home_black: e.board.home_black,
    };
    let dice = DiceState { d1: e.dice.d1, d2: e.dice.d2, remaining: e.dice.remaining.clone() };
    let restored = TurnEngine::from_snapshot(board, dice, e.phase, e.active);
    assert!(restored.is_some());
    // the restored engine picks the turn up where it stopped
    let mut e2 = restored.unwrap();
    assert_eq!(e2.apply_move(mv(Square::Point(18), Square::Point(13), 5)), Ok(()));
}

#[test]
fn snapshot_restore_rejects_broken_states() {
    // a moving phase with no move to make
    let board = Board::from_parts(
        counts(&[(24, 15)]),
        counts(&[(18, 2), (1, 5), (2, 5), (3, 3)]),
        0,
        0,
        0,
        0,
    )
    .unwrap();
    let dice = DiceState::from_roll(6, 6);
    assert!(TurnEngine::from_snapshot(board, dice, Phase::Moving, Player::White).is_none());
    // a finished game without fifteen checkers borne off
    let board = Board::new_standard();
    let dice = DiceState::from_roll(1, 2);
    assert!(TurnEngine::from_snapshot(board, dice, Phase::GameOver, Player::White).is_none());
    // a die value outside 1..=6
    let board = Board::new_standard();
    let dice = DiceState { d1: 7, d2: 2, remaining: vec![7, 2] };
    assert!(TurnEngine::from_snapshot(board, dice, Phase::AwaitingRoll, Player::White).is_none());
}

#[test]
fn intent_resolution_names_the_consuming_die() {
    let mut e = TurnEngine::new(Player::White);
    e.roll(6, 5);
    assert_eq!(e.dice_for_intent(Square::Point(24), Square::Point(18)), vec![6]);
    assert_eq!(e.dice_for_intent(Square::Point(24), Square::Point(19)), Vec::<u8>::new());
}

#[test]
fn apply_intent_resolves_the_die_when_unique() {
    let mut e = TurnEngine::new(Player::White);
    e.roll(6, 5);
    assert_eq!(e.apply_intent(Square::Point(24), Square::Point(18)), Ok(6));
    assert_eq!(e.board.checkers_at(18), (Some(Player::White), 1));
    assert!(!e.dice.has_die(6));
    // no die reaches 24 -> 20
    assert_eq!(
        e.apply_intent(Square::Point(24), Square::Point(20)),
        Err(MoveError::IllegalMove)
    );
}

#[test]
fn apply_intent_rejects_ambiguous_bear_off() {
    let mut e = engine_at(
        &[(5, 5), (2, 5), (1, 5)],
        &[(19, 5), (20, 5), (21, 5)],
        (0, 0),
        (0, 0),
        Player::White,
    );
    e.roll(6, 5);
    // both the five and the six could bear off point 5: the engine asks
    // the caller to disambiguate, changing nothing
    let remaining_before = e.dice.remaining.clone();
    assert_eq!(e.apply_intent(Square::Point(5), Square::Off), Err(MoveError::IllegalMove));
    assert_eq!(e.dice.remaining, remaining_before);
    assert_eq!(e.board.home(Player::White), 0);
    // an explicit move settles it
    assert_eq!(e.apply_move(mv(Square::Point(5), Square::Off, 6)), Ok(()));
    assert_eq!(e.board.home(Player::White), 1);
}

#[test]
fn intent_resolution_can_be_ambiguous_for_bear_off() {
    // a five bears off point 5 exactly; a six overshoots it legally
    let mut e = engine_at(
        &[(5, 5), (2, 5), (1, 5)],
        &[(19, 5), (20, 5), (21, 5)],
        (0, 0),
        (0, 0),
        Player::White,
    );
    e.roll(6, 5);
    let dies = e.dice_for_intent(Square::Point(5), Square::Off);
    assert_eq!(dies, vec![5, 6]);
}
