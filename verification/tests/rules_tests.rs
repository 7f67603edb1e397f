use backgammon::board::Board;
use backgammon::dice::DiceState;
use backgammon::moves::{Move, Square};
use backgammon::player::Player;
use backgammon::rules::{check_move, legal_moves, no_legal_moves};

fn counts(pairs: &[(usize, u8)]) -> Vec<u8> {
    let mut v = vec![0u8; 24];
    for (pt, c) in pairs {
        v[pt - 1] = *c;
    }
    v
}

fn board(
    white: &[(usize, u8)],
    black: &[(usize, u8)],
    bars: (u8, u8),
    homes: (u8, u8),
) -> Board {
    Board::from_parts(counts(white), counts(black), bars.0, bars.1, homes.0, homes.1)
        .expect("position must satisfy the board invariant")
}

fn mv(from: Square, to: Square, die: u8) -> Move {
    Move { from, to, die }
}

#[test]
fn opening_moves_for_six_five() {
    let b = Board::new_standard();
    let dice = DiceState::from_roll(6, 5);
    let ms = legal_moves(&b, Player::White, &dice);
    assert!(ms.contains(&mv(Square::Point(24), Square::Point(18), 6)));
    assert!(ms.contains(&mv(Square::Point(13), Square::Point(8), 5)));
    assert!(ms.contains(&mv(Square::Point(13), Square::Point(7), 6)));
    // point 19 holds five black checkers: blocked
    assert!(!ms.contains(&mv(Square::Point(24), Square::Point(19), 5)));
    // bearing off is gated until every checker is home
    assert!(ms.iter().all(|m| m.to != Square::Off));
    // every listed move checks out individually
    assert!(ms.iter().all(|m| check_move(&b, Player::White, *m)));
}

#[test]
fn bar_forces_re_entry() {
    let b = board(
        &[(6, 5), (8, 3), (13, 5), (24, 1)],
        &[(1, 2), (12, 5), (17, 3), (19, 5)],
        (1, 0),
        (0, 0),
    );
    let dice = DiceState::from_roll(3, 5);
    let ms = legal_moves(&b, Player::White, &dice);
    assert!(!ms.is_empty());
    assert!(ms.iter().all(|m| m.from == Square::Bar));
    assert!(ms.contains(&mv(Square::Bar, Square::Point(22), 3)));
    assert!(ms.contains(&mv(Square::Bar, Square::Point(20), 5)));
}

#[test]
fn blocked_entry_leaves_no_moves() {
    // Black holds both entry points White could use: no move at all
    let b = board(
        &[(6, 5), (8, 3), (13, 5), (24, 1)],
        &[(20, 2), (22, 2), (12, 5), (17, 3), (19, 3)],
        (1, 0),
        (0, 0),
    );
    let dice = DiceState::from_roll(3, 5);
    assert!(no_legal_moves(&b, Player::White, &dice));
    assert!(legal_moves(&b, Player::White, &dice).is_empty());
}

#[test]
fn no_moves_when_every_destination_is_blocked() {
    // all fifteen White checkers on point 24, point 18 held by Black:
    // a double six offers nothing
    let b = board(
        &[(24, 15)],
        &[(18, 2), (1, 5), (2, 5), (3, 3)],
        (0, 0),
        (0, 0),
    );
    let dice = DiceState::from_roll(6, 6);
    assert!(no_legal_moves(&b, Player::White, &dice));
}

#[test]
fn bear_off_moves_appear_once_all_home() {
    let b = board(
        &[(4, 5), (5, 5), (6, 5)],
        &[(19, 5), (20, 5), (21, 5)],
        (0, 0),
        (0, 0),
    );
    let dice = DiceState::from_roll(6, 2);
    let ms = legal_moves(&b, Player::White, &dice);
    assert!(ms.contains(&mv(Square::Point(6), Square::Off, 6)));
    assert!(ms.contains(&mv(Square::Point(4), Square::Point(2), 2)));
    // no overshoot from point 5 while point 6 is occupied
    assert!(!ms.contains(&mv(Square::Point(5), Square::Off, 6)));
    // a two bears nothing off: point 2 is empty and higher points are occupied
    assert!(!ms.iter().any(|m| m.to == Square::Off && m.die == 2));
}

#[test]
fn validator_reports_black_moves_symmetrically() {
    let b = Board::new_standard();
    let dice = DiceState::from_roll(2, 4);
    let ms = legal_moves(&b, Player::Black, &dice);
    assert!(ms.contains(&mv(Square::Point(1), Square::Point(3), 2)));
    assert!(ms.contains(&mv(Square::Point(12), Square::Point(16), 4)));
    // point 6 holds five white checkers: blocked for Black
    assert!(!ms.contains(&mv(Square::Point(2), Square::Point(6), 4)));
}
