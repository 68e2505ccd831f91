use tictactoe::game::{MoveOutcome, Player, State};

fn marks_of(s: &State, p: Player) -> usize {
    let mut n: usize = 0;
    for row in 0..3 {
        for col in 0..3 {
            if s.cell(row, col) == Some(p) {
                n += 1;
            }
        }
    }
    n
}

fn boards_equal(a: &State, b: &State) -> bool {
    for row in 0..3 {
        for col in 0..3 {
            if a.cell(row, col) != b.cell(row, col) {
                return false;
            }
        }
    }
    true
}

#[test]
fn fresh_game_is_empty_with_x_to_move() {
    let s = State::new();
    for row in 0..3 {
        for col in 0..3 {
            assert_eq!(s.cell(row, col), None);
        }
    }
    assert_eq!(s.current(), Player::X);
    assert!(!s.ended());
    assert_eq!(s.winner(), None);
    assert_eq!(s.winning_line(), None);
    assert!(!s.full());
}

#[test]
fn swap_exchanges_the_players() {
    assert_eq!(Player::X.swap(), Player::O);
    assert_eq!(Player::O.swap(), Player::X);
}

#[test]
fn show_gives_the_mark_labels() {
    assert_eq!(Player::X.show(), "X");
    assert_eq!(Player::O.show(), "O");
}

#[test]
fn x_wins_along_the_first_row() {
    // Empty board; X (0,0), O (1,1), X (0,1), O (2,2), X (0,2) wins row 0.
    let s = State::new();
    let (s, o) = s.next(0, 0);
    assert_eq!(o, MoveOutcome::Continue(Player::O));
    let (s, o) = s.next(1, 1);
    assert_eq!(o, MoveOutcome::Continue(Player::X));
    let (s, o) = s.next(0, 1);
    assert_eq!(o, MoveOutcome::Continue(Player::O));
    let (s, o) = s.next(2, 2);
    assert_eq!(o, MoveOutcome::Continue(Player::X));
    let (s, o) = s.next(0, 2);
    assert_eq!(o, MoveOutcome::Win(Player::X));
    assert!(s.ended());
    assert_eq!(s.cell(0, 0), Some(Player::X));
    assert_eq!(s.cell(0, 1), Some(Player::X));
    assert_eq!(s.cell(0, 2), Some(Player::X));
    assert_eq!(s.winner(), Some(Player::X));
    assert_eq!(s.winning_line(), Some(((0, 0), (0, 1), (0, 2))));
}

#[test]
fn a_full_board_without_a_line_is_a_tie() {
    // Ends as   X O X
    //           X O O
    //           O X X   with no three-in-a-row for either player.
    let moves = [
        (0, 0),
        (0, 1),
        (0, 2),
        (1, 1),
        (1, 0),
        (1, 2),
        (2, 1),
        (2, 0),
        (2, 2),
    ];
    let mut s = State::new();
    for (i, &(row, col)) in moves.iter().enumerate() {
        let (s2, o) = s.next(row, col);
        s = s2;
        if i < 8 {
            assert!(matches!(o, MoveOutcome::Continue(_)));
        } else {
            assert_eq!(o, MoveOutcome::Tie);
        }
    }
    assert!(s.ended());
    assert!(s.full());
    assert_eq!(s.winner(), None);
    assert_eq!(s.winning_line(), None);
}

#[test]
fn a_taken_tile_rejects_the_move_and_changes_nothing() {
    let s = State::new();
    let (s, _) = s.next(1, 1);
    let before = s.clone();
    let (s, o) = s.next(1, 1);
    assert_eq!(o, MoveOutcome::TileTaken);
    assert!(boards_equal(&before, &s));
    assert_eq!(s.current(), before.current());
    assert_eq!(s.ended(), before.ended());
}

#[test]
fn moves_after_the_end_are_rejected_unchanged() {
    // X wins down the first column, then both players try again.
    let s = State::new();
    let (s, _) = s.next(0, 0);
    let (s, _) = s.next(0, 1);
    let (s, _) = s.next(1, 0);
    let (s, _) = s.next(0, 2);

    // O has two marks on row 0 but X completes column 0 first.
    let (s, o) = s.next(2, 0);
    assert_eq!(o, MoveOutcome::Win(Player::X));
    assert!(s.ended());

    let before = s.clone();
    let (s, o) = s.next(2, 2);
    assert_eq!(o, MoveOutcome::GameEnded);
    assert!(boards_equal(&before, &s));
    assert_eq!(s.current(), before.current());
    assert!(s.ended());

    let (s, o) = s.next(1, 1);
    assert_eq!(o, MoveOutcome::GameEnded);
    assert!(boards_equal(&before, &s));
}

#[test]
fn mark_counts_stay_balanced_throughout_a_game() {
    let moves = [
        (0, 0),
        (0, 1),
        (0, 2),
        (1, 1),
        (1, 0),
        (1, 2),
        (2, 1),
        (2, 0),
        (2, 2),
    ];
    let mut s = State::new();
    for &(row, col) in moves.iter() {
        let (s2, _) = s.next(row, col);
        s = s2;
        let x = marks_of(&s, Player::X);
        let o = marks_of(&s, Player::O);
        assert!(o <= x && x <= o + 1);
        assert!(x <= 5 && o <= 5);
    }
}

#[test]
fn winner_is_a_pure_query() {
    let s = State::new();
    let (s, _) = s.next(0, 0);
    let (s, _) = s.next(1, 1);
    let first = s.winner();
    let again = s.winner();
    assert_eq!(first, again);
    assert_eq!(s.winner(), again);
    let copy = s.clone();
    assert_eq!(copy.winner(), first);
    // Querying the winner changed nothing.
    assert_eq!(s.current(), Player::X);
    assert!(!s.ended());
}

#[test]
fn o_can_win_on_a_diagonal() {
    // X (0,1), O (0,0), X (0,2), O (1,1), X (1,0), O (2,2) wins the diagonal.
    let s = State::new();
    let (s, _) = s.next(0, 1);
    let (s, _) = s.next(0, 0);
    let (s, _) = s.next(0, 2);
    let (s, _) = s.next(1, 1);
    let (s, _) = s.next(1, 0);
    let (s, o) = s.next(2, 2);
    assert_eq!(o, MoveOutcome::Win(Player::O));
    assert!(s.ended());
    assert_eq!(s.winner(), Some(Player::O));
    assert_eq!(s.winning_line(), Some(((0, 0), (1, 1), (2, 2))));
}

#[test]
fn the_rising_diagonal_wins_too() {
    // X (2,0), O (0,0), X (1,1), O (0,1), X (0,2) wins the rising diagonal.
    let s = State::new();
    let (s, _) = s.next(2, 0);
    let (s, _) = s.next(0, 0);
    let (s, _) = s.next(1, 1);
    let (s, _) = s.next(0, 1);
    let (s, o) = s.next(0, 2);
    assert_eq!(o, MoveOutcome::Win(Player::X));
    assert_eq!(s.winning_line(), Some(((2, 0), (1, 1), (0, 2))));
}

#[test]
fn each_outcome_has_its_status_text() {
    assert_eq!(MoveOutcome::Continue(Player::X).message(), "Player X turn");
    assert_eq!(MoveOutcome::Continue(Player::O).message(), "Player O turn");
    assert_eq!(MoveOutcome::Win(Player::X).message(), "Player X WINS!");
    assert_eq!(MoveOutcome::Win(Player::O).message(), "Player O WINS!");
    assert_eq!(MoveOutcome::Tie.message(), "Tie!");
    assert_eq!(MoveOutcome::TileTaken.message(), "Tile already taken.");
    assert_eq!(
        MoveOutcome::GameEnded.message(),
        "Game has ended. Press restart."
    );
}
