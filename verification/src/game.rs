//! The tic-tac-toe state machine: a 3x3 board of optional marks, the active
//! player, and an end-of-game flag, advanced one legal move at a time.

use vstd::prelude::*;

verus! {

/// A player's mark: X or O.
#[derive(Copy, Clone, Debug, PartialEq, Eq, Structural)]
pub enum Player {
    X,
    O,
}

impl Player {
    /// The other player.
    pub open spec fn spec_swap(self) -> Player {
        match self {
            Player::X => Player::O,
            Player::O => Player::X,
        }
    }

    /// Returns the other player.
    pub fn swap(self) -> (r: Player)
        ensures
            r == self.spec_swap(),
    {
        match self {
            Player::X => Player::O,
            Player::O => Player::X,
        }
    }

    /// The display label of this player's mark.
    pub fn show(self) -> (r: &'static str)
        ensures
            self == Player::X ==> r@ == "X"@,
            self == Player::O ==> r@ == "O"@,
    {
        match self {
            Player::X => "X",
            Player::O => "O",
        }
    }
}

/// The result classification of one attempted move.
#[derive(Copy, Clone, Debug, PartialEq, Eq, Structural)]
pub enum MoveOutcome {
    /// The move was placed and the game goes on; the payload is the player
    /// whose turn comes next.
    Continue(Player),
    /// The move was placed and completed a winning triple for the payload player.
    Win(Player),
    /// The move was placed, filled the board, and no player won.
    Tie,
    /// The addressed cell was already occupied; nothing changed.
    TileTaken,
    /// The game had already ended; nothing changed.
    GameEnded,
}

impl MoveOutcome {
    /// The status line that the presentation layer shows for this outcome.
    pub open spec fn spec_message(self) -> Seq<char> {
        match self {
            MoveOutcome::Continue(Player::X) => "Player X turn"@,
            MoveOutcome::Continue(Player::O) => "Player O turn"@,
            MoveOutcome::Win(Player::X) => "Player X WINS!"@,
            MoveOutcome::Win(Player::O) => "Player O WINS!"@,
            MoveOutcome::Tie => "Tie!"@,
            MoveOutcome::TileTaken => "Tile already taken."@,
            MoveOutcome::GameEnded => "Game has ended. Press restart."@,
        }
    }

    /// The status text for this outcome.
    pub fn message(self) -> (r: &'static str)
        ensures
            r@ == self.spec_message(),
    {
        match self {
            MoveOutcome::Continue(Player::X) => "Player X turn",
            MoveOutcome::Continue(Player::O) => "Player O turn",
            MoveOutcome::Win(Player::X) => "Player X WINS!",
            MoveOutcome::Win(Player::O) => "Player O WINS!",
            MoveOutcome::Tie => "Tie!",
            MoveOutcome::TileTaken => "Tile already taken.",
            MoveOutcome::GameEnded => "Game has ended. Press restart.",
        }
    }
}

/// The cell of board `b` at row `r`, column `c`; the board is stored
/// row-major, nine cells in all.
pub open spec fn cell_at(b: Seq<Option<Player>>, r: int, c: int) -> Option<Player> {
    b[r * 3 + c]
}

/// True iff all nine cells are occupied.
pub open spec fn full_board(b: Seq<Option<Player>>) -> bool {
    forall|i: int| 0 <= i < 9 ==> b[i].is_some()
}

/// The mark that claims the three given cells, if one player holds all three.
pub open spec fn line_winner(
    b: Seq<Option<Player>>,
    r0: int,
    c0: int,
    r1: int,
    c1: int,
    r2: int,
    c2: int,
) -> Option<Player> {
    match (cell_at(b, r0, c0), cell_at(b, r1, c1), cell_at(b, r2, c2)) {
        (Some(p), Some(q), Some(s)) => if p == q && q == s {
            Some(p)
        } else {
            None
        },
        _ => None,
    }
}

/// The coordinates of triple number `t`, in the fixed check order:
/// the three rows, then the three columns, then the falling and the
/// rising diagonal.
pub open spec fn triple_coords(t: int) -> ((int, int), (int, int), (int, int)) {
    if t == 0 {
        ((0, 0), (0, 1), (0, 2))
    } else if t == 1 {
        ((1, 0), (1, 1), (1, 2))
    } else if t == 2 {
        ((2, 0), (2, 1), (2, 2))
    } else if t == 3 {
        ((0, 0), (1, 0), (2, 0))
    } else if t == 4 {
        ((0, 1), (1, 1), (2, 1))
    } else if t == 5 {
        ((0, 2), (1, 2), (2, 2))
    } else if t == 6 {
        ((0, 0), (1, 1), (2, 2))
    } else {
        ((2, 0), (1, 1), (0, 2))
    }
}

/// The mark that claims triple number `t`, if any.
pub open spec fn triple_winner(b: Seq<Option<Player>>, t: int) -> Option<Player> {
    let ((r0, c0), (r1, c1), (r2, c2)) = triple_coords(t);
    line_winner(b, r0, c0, r1, c1, r2, c2)
}

/// The first triple at index `t` or later that some player claims, if any.
pub open spec fn first_won_triple_from(b: Seq<Option<Player>>, t: int) -> Option<int>
    decreases 8 - t,
{
    if t < 0 || t >= 8 {
        None
    } else if triple_winner(b, t).is_some() {
        Some(t)
    } else {
        first_won_triple_from(b, t + 1)
    }
}

/// The first triple, in check order, that some player claims, if any.
pub open spec fn first_won_triple(b: Seq<Option<Player>>) -> Option<int> {
    first_won_triple_from(b, 0)
}

/// The winner of board `b`: the player claiming the first won triple in
/// check order, or nobody.
pub open spec fn winner_of(b: Seq<Option<Player>>) -> Option<Player> {
    match first_won_triple(b) {
        Some(t) => triple_winner(b, t),
        None => None,
    }
}

/// How many of the first `n` cells of board `b` hold player `p`'s mark.
pub open spec fn marks_upto(b: Seq<Option<Player>>, p: Player, n: int) -> nat
    decreases n,
{
    if n <= 0 {
        0
    } else {
        marks_upto(b, p, n - 1) + (if b[n - 1] == Some(p) {
            1nat
        } else {
            0nat
        })
    }
}

/// How many cells of board `b` hold player `p`'s mark.
pub open spec fn marks(b: Seq<Option<Player>>, p: Player) -> nat {
    marks_upto(b, p, 9)
}

proof fn lemma_marks_upto_none(b: Seq<Option<Player>>, p: Player, n: int)
    requires
        forall|j: int| 0 <= j < n ==> b[j].is_none(),
    ensures
        marks_upto(b, p, n) == 0,
    decreases n,
{
    if n > 0 {
        lemma_marks_upto_none(b, p, n - 1);
    }
}

proof fn lemma_marks_upto_update(b: Seq<Option<Player>>, p: Player, j: int, v: Player, n: int)
    requires
        0 <= j < b.len(),
        b[j].is_none(),
        n <= b.len(),
    ensures
        marks_upto(b.update(j, Some(v)), p, n) == marks_upto(b, p, n) + (if j < n && p == v {
            1nat
        } else {
            0nat
        }),
    decreases n,
{
    if n > 0 {
        lemma_marks_upto_update(b, p, j, v, n - 1);
    }
}

proof fn lemma_marks_upto_sum(b: Seq<Option<Player>>, n: int)
    ensures
        marks_upto(b, Player::X, n) + marks_upto(b, Player::O, n) <= vstd::math::max(n, 0),
    decreases n,
{
    if n > 0 {
        lemma_marks_upto_sum(b, n - 1);
    }
}

/// Turn alternation: X moves first and the players alternate, so O never
/// holds more marks than X and X never holds more than one mark over O;
/// while the game runs, the difference says exactly whose turn it is.
/// `State::new` establishes this invariant and `State::next` preserves it.
pub open spec fn turn_invariant(s: State) -> bool {
    let b = s.board_view();
    &&& marks(b, Player::O) <= marks(b, Player::X) <= marks(b, Player::O) + 1
    &&& !s.spec_ended() ==> marks(b, Player::X) == marks(b, Player::O) + (
    if s.spec_current() == Player::O {
        1int
    } else {
        0int
    })
}

/// Turn alternation keeps the mark counts within one of each other and,
/// on a nine-cell board, caps either player at five marks.
pub proof fn lemma_mark_bound(s: State)
    requires
        s.wf(),
        turn_invariant(s),
    ensures
        marks(s.board_view(), Player::X) <= 5,
        marks(s.board_view(), Player::O) <= 5,
        marks(s.board_view(), Player::O) <= marks(s.board_view(), Player::X) <= marks(
            s.board_view(),
            Player::O,
        ) + 1,
{
    lemma_marks_upto_sum(s.board_view(), 9);
}

/// The whole game state: the board, the player to move, and whether the
/// game has ended.
#[derive(Clone, Debug)]
pub struct State {
    board: Vec<Option<Player>>,
    current: Player,
    end: bool,
}

impl State {
    /// The board as a sequence of nine cells, row-major.
    pub closed spec fn board_view(self) -> Seq<Option<Player>> {
        self.board@
    }

    /// The player whose turn it is.
    pub closed spec fn spec_current(self) -> Player {
        self.current
    }

    /// Whether the game has ended.
    pub closed spec fn spec_ended(self) -> bool {
        self.end
    }

    /// Well-formedness: the board holds exactly nine cells.
    pub open spec fn wf(self) -> bool {
        self.board_view().len() == 9
    }

    /// A fresh game: empty board, X to move, not ended.
    pub fn new() -> (s: State)
        ensures
            s.wf(),
            forall|i: int| 0 <= i < 9 ==> s.board_view()[i].is_none(),
            s.spec_current() == Player::X,
            !s.spec_ended(),
            turn_invariant(s),
    {
        let mut board: Vec<Option<Player>> = Vec::new();
        let mut i: usize = 0;
        while i < 9
            invariant
                i <= 9,
                board@.len() == i,
                forall|j: int| 0 <= j < i ==> board@[j].is_none(),
            decreases 9 - i,
        {
            board.push(None);
            i = i + 1;
        }
        let s = State { board, current: Player::X, end: false };
        proof {
            lemma_marks_upto_none(s.board_view(), Player::X, 9);
            lemma_marks_upto_none(s.board_view(), Player::O, 9);
        }
        s
    }

    /// The mark at row `row`, column `column`, or `None` for an empty cell.
    pub fn cell(&self, row: usize, column: usize) -> (r: Option<Player>)
        requires
            self.wf(),
            row < 3,
            column < 3,
        ensures
            r == cell_at(self.board_view(), row as int, column as int),
    {
        self.board[row * 3 + column]
    }

    /// Reads the three cells of one candidate line and reports the player
    /// that holds all of them, if any.
    fn check(&self, r0: usize, c0: usize, r1: usize, c1: usize, r2: usize, c2: usize) -> (r:
        Option<Player>)
        requires
            self.wf(),
            r0 < 3,
            c0 < 3,
            r1 < 3,
            c1 < 3,
            r2 < 3,
            c2 < 3,
        ensures
            r == line_winner(
                self.board_view(),
                r0 as int,
                c0 as int,
                r1 as int,
                c1 as int,
                r2 as int,
                c2 as int,
            ),
    {
        let a = self.board[r0 * 3 + c0];
        let b = self.board[r1 * 3 + c1];
        let c = self.board[r2 * 3 + c2];
        match (a, b, c) {
            (Some(p), Some(q), Some(s)) => if p == q && q == s {
                Some(p)
            } else {
                None
            },
            _ => None,
        }
    }

    /// The coordinates of triple number `t`, as machine integers.
    fn triple_cells(t: usize) -> (coords: ((usize, usize), (usize, usize), (usize, usize)))
        requires
            t < 8,
        ensures
            ({
                let ((r0, c0), (r1, c1), (r2, c2)) = triple_coords(t as int);
                let ((x0, y0), (x1, y1), (x2, y2)) = coords;
                &&& x0 == r0 && y0 == c0 && x1 == r1 && y1 == c1 && x2 == r2 && y2 == c2
                &&& x0 < 3 && y0 < 3 && x1 < 3 && y1 < 3 && x2 < 3 && y2 < 3
            }),
    {
        match t {
            0 => ((0, 0), (0, 1), (0, 2)),
            1 => ((1, 0), (1, 1), (1, 2)),
            2 => ((2, 0), (2, 1), (2, 2)),
            3 => ((0, 0), (1, 0), (2, 0)),
            4 => ((0, 1), (1, 1), (2, 1)),
            5 => ((0, 2), (1, 2), (2, 2)),
            6 => ((0, 0), (1, 1), (2, 2)),
            _ => ((2, 0), (1, 1), (0, 2)),
        }
    }

    /// Reports the player that claims triple number `t`, if any.
    fn check_triple(&self, t: usize) -> (r: Option<Player>)
        requires
            self.wf(),
            t < 8,
        ensures
            r == triple_winner(self.board_view(), t as int),
    {
        let ((r0, c0), (r1, c1), (r2, c2)) = State::triple_cells(t);
        self.check(r0, c0, r1, c1, r2, c2)
    }

    /// The winner of the current board, if any: the eight triples are
    /// checked in the fixed order (rows, columns, diagonals) and the player
    /// claiming the first won one is returned. A pure query: the result is
    /// a function of the board alone.
    pub fn winner(&self) -> (r: Option<Player>)
        requires
            self.wf(),
        ensures
            r == winner_of(self.board_view()),
    {
        let mut t: usize = 0;
        while t < 8
            invariant
                self.wf(),
                t <= 8,
                first_won_triple(self.board_view()) == first_won_triple_from(
                    self.board_view(),
                    t as int,
                ),
            decreases 8 - t,
        {
            let r = self.check_triple(t);
            if r.is_some() {
                return r;
            }
            t = t + 1;
        }
        None
    }

    /// The coordinates of the first won triple in check order, for the
    /// caller to highlight, or `None` while nobody has won.
    pub fn winning_line(&self) -> (r: Option<((usize, usize), (usize, usize), (usize, usize))>)
        requires
            self.wf(),
        ensures
            match first_won_triple(self.board_view()) {
                Some(t) => r.is_some() && {
                    let ((r0, c0), (r1, c1), (r2, c2)) = triple_coords(t);
                    let ((x0, y0), (x1, y1), (x2, y2)) = r->Some_0;
                    x0 == r0 && y0 == c0 && x1 == r1 && y1 == c1 && x2 == r2 && y2 == c2
                },
                None => r.is_none(),
            },
    {
        let mut t: usize = 0;
        while t < 8
            invariant
                self.wf(),
                t <= 8,
                first_won_triple(self.board_view()) == first_won_triple_from(
                    self.board_view(),
                    t as int,
                ),
            decreases 8 - t,
        {
            let r = self.check_triple(t);
            if r.is_some() {
                return Some(State::triple_cells(t));
            }
            t = t + 1;
        }
        None
    }

    /// True iff all nine cells are occupied.
    pub fn full(&self) -> (r: bool)
        requires
            self.wf(),
        ensures
            r == full_board(self.board_view()),
    {
        let mut i: usize = 0;
        while i < 9
            invariant
                self.wf(),
                i <= 9,
                forall|j: int| 0 <= j < i ==> self.board_view()[j].is_some(),
            decreases 9 - i,
        {
            if self.board[i].is_none() {
                return false;
            }
            i = i + 1;
        }
        true
    }

    /// Applies one move at (`row`, `column`) and reports its outcome.
    /// A move after the game ended, or onto an occupied cell, is rejected
    /// and leaves the state unchanged. A legal move places the current
    /// player's mark; the game then ends if that completed a winning
    /// triple or filled the board, and otherwise the turn passes.
    pub fn next(self, row: usize, column: usize) -> (res: (State, MoveOutcome))
        requires
            self.wf(),
            row < 3,
            column < 3,
        ensures
            res.0.wf(),
            self.spec_ended() ==> res.0 == self && res.1 == MoveOutcome::GameEnded,
            (!self.spec_ended() && cell_at(self.board_view(), row as int, column as int).is_some())
                ==> res.0 == self && res.1 == MoveOutcome::TileTaken,
            (!self.spec_ended() && cell_at(self.board_view(), row as int, column as int).is_none())
                ==> ({
                let b2 = self.board_view().update(
                    row as int * 3 + column as int,
                    Some(self.spec_current()),
                );
                &&& res.0.board_view() == b2
                &&& match winner_of(b2) {
                    Some(p) => res.0.spec_ended() && res.0.spec_current() == self.spec_current()
                        && res.1 == MoveOutcome::Win(p),
                    None => if full_board(b2) {
                        res.0.spec_ended() && res.0.spec_current() == self.spec_current() && res.1
                            == MoveOutcome::Tie
                    } else {
                        !res.0.spec_ended() && res.0.spec_current()
                            == self.spec_current().spec_swap() && res.1 == MoveOutcome::Continue(
                            self.spec_current().spec_swap(),
                        )
                    },
                }
            }),
            turn_invariant(self) ==> turn_invariant(res.0),
    {
        if self.end {
            (self, MoveOutcome::GameEnded)
        } else if self.board[row * 3 + column].is_some() {
            (self, MoveOutcome::TileTaken)
        } else {
            let ghost old_board = self.board_view();
            let mut s = self;
            let cur = s.current;
            s.board.set(row * 3 + column, Some(cur));
            proof {
                lemma_marks_upto_update(
                    old_board,
                    Player::X,
                    row as int * 3 + column as int,
                    cur,
                    9,
                );
                lemma_marks_upto_update(
                    old_board,
                    Player::O,
                    row as int * 3 + column as int,
                    cur,
                    9,
                );
            }
            let w = s.winner();
            match w {
                Some(p) => {
                    s.end = true;
                    (s, MoveOutcome::Win(p))
                },
                None => {
                    if s.full() {
                        s.end = true;
                        (s, MoveOutcome::Tie)
                    } else {
                        let nxt = cur.swap();
                        s.current = nxt;
                        (s, MoveOutcome::Continue(nxt))
                    }
                },
            }
        }
    }

    /// The player whose turn it is.
    pub fn current(&self) -> (r: Player)
        ensures
            r == self.spec_current(),
    {
        self.current
    }

    /// Whether the game has ended.
    pub fn ended(&self) -> (r: bool)
        ensures
            r == self.spec_ended(),
    {
        self.end
    }
}

} // verus!
