//! The game engine: players, game status, and the move-application state
//! machine, together with the win predicate and the invariants that every
//! reachable game state satisfies.

use vstd::prelude::*;
use crate::board::{Board, Cell, board_full};

verus! {

/// One of the two participants. Distinct from `Cell`: a player always has
/// an "other" counterpart and never takes the empty value.
#[derive(Clone, Copy, PartialEq, Eq, Structural, Debug)]
pub enum Player {
    X,
    O,
}

/// The mark a player places on the board.
pub open spec fn cell_of(p: Player) -> Cell {
    match p {
        Player::X => Cell::X,
        Player::O => Cell::O,
    }
}

impl Player {
    /// The opposing player.
    pub open spec fn spec_other(self) -> Player {
        match self {
            Player::X => Player::O,
            Player::O => Player::X,
        }
    }

    /// Returns the opposing player.
    pub fn other(self) -> (r: Player)
        ensures
            r == self.spec_other(),
    {
        match self {
            Player::X => Player::O,
            Player::O => Player::X,
        }
    }
}

/// The status of a game. Exactly one variant holds at any moment;
/// `Won` and `Draw` are terminal (absorbing) states.
#[derive(Clone, Copy, PartialEq, Eq, Structural, Debug)]
pub enum GameStatus {
    InProgress,
    Won(Player),
    Draw,
}

impl GameStatus {
    /// True exactly when the game has not yet terminated.
    pub fn is_in_progress(&self) -> (r: bool)
        ensures
            r == (*self == GameStatus::InProgress),
    {
        matches!(self, GameStatus::InProgress)
    }
}

/// The reasons a move can be rejected. A rejected move never mutates the
/// game state.
#[derive(Clone, Copy, PartialEq, Eq, Structural, Debug)]
pub enum MoveError {
    /// The game already terminated (won or drawn).
    GameOver,
    /// The position is outside `0..9`.
    OutOfRange,
    /// The addressed cell already holds a mark.
    Occupied,
}

impl MoveError {
    /// The human-readable reason, verbatim.
    pub open spec fn spec_message(self) -> Seq<char> {
        match self {
            MoveError::GameOver => "Game is already over."@,
            MoveError::OutOfRange => "Invalid board position."@,
            MoveError::Occupied => "Cell already occupied."@,
        }
    }

    /// Returns the human-readable reason for this rejection.
    pub fn message(&self) -> (r: String)
        ensures
            r@ == self.spec_message(),
    {
        match self {
            MoveError::GameOver => "Game is already over.".to_owned(),
            MoveError::OutOfRange => "Invalid board position.".to_owned(),
            MoveError::Occupied => "Cell already occupied.".to_owned(),
        }
    }
}

/// Three given cells all hold the mark `t`.
pub open spec fn line_is(b: Seq<Cell>, p0: int, p1: int, p2: int, t: Cell) -> bool {
    b[p0] == t && b[p1] == t && b[p2] == t
}

/// The win predicate for player `p`: some winning line (three rows, three
/// columns, two diagonals) consists entirely of `p`'s mark.
pub open spec fn wins(b: Seq<Cell>, p: Player) -> bool {
    let t = cell_of(p);
    ||| line_is(b, 0, 1, 2, t)
    ||| line_is(b, 3, 4, 5, t)
    ||| line_is(b, 6, 7, 8, t)
    ||| line_is(b, 0, 3, 6, t)
    ||| line_is(b, 1, 4, 7, t)
    ||| line_is(b, 2, 5, 8, t)
    ||| line_is(b, 0, 4, 8, t)
    ||| line_is(b, 2, 4, 6, t)
}

/// How many of the first `n` cells hold the mark `t`.
pub open spec fn count_upto(b: Seq<Cell>, t: Cell, n: int) -> int
    decreases n,
{
    if n <= 0 {
        0
    } else {
        count_upto(b, t, n - 1) + if b[n - 1] == t {
            1int
        } else {
            0int
        }
    }
}

/// How many cells of the whole board hold the mark `t`.
pub open spec fn count_marks(b: Seq<Cell>, t: Cell) -> int {
    count_upto(b, t, 9)
}

/// Overwriting cell `i` changes the count of a mark only through the old
/// and new contents of that one cell.
proof fn lemma_count_update(b: Seq<Cell>, i: int, v: Cell, t: Cell, n: int)
    requires
        0 <= i < b.len(),
        0 <= n <= b.len(),
    ensures
        count_upto(b.update(i, v), t, n) == if i < n {
            count_upto(b, t, n) - (if b[i] == t { 1int } else { 0int })
                + (if v == t { 1int } else { 0int })
        } else {
            count_upto(b, t, n)
        },
    decreases n,
{
    if n > 0 {
        lemma_count_update(b, i, v, t, n - 1);
    }
}

/// On an empty board every mark has count zero.
proof fn lemma_count_all_empty(b: Seq<Cell>, t: Cell, n: int)
    requires
        0 <= n <= 9,
        forall|i: int| 0 <= i < 9 ==> b[i] == Cell::Empty,
        t != Cell::Empty,
    ensures
        count_upto(b, t, n) == 0,
    decreases n,
{
    if n > 0 {
        lemma_count_all_empty(b, t, n - 1);
    }
}

/// The full state of one game: the board, whose turn it is (meaningful only
/// while the game is in progress), and the status.
pub struct GameState {
    pub board: Board,
    pub current_player: Player,
    pub status: GameStatus,
}

impl GameState {
    /// The invariant of every reachable game state:
    /// - in progress: some cell is empty, nobody has a winning line yet, and
    ///   the mark counts match whose turn it is (the first mover is `O`, so
    ///   `O` is one mark ahead exactly when it is `X`'s turn);
    /// - won: the winner has a winning line, the loser has none, and the
    ///   mark counts still differ by at most the first-mover advantage;
    /// - drawn: the board is full and neither player has a winning line.
    pub open spec fn wf(self) -> bool {
        let b = self.board@;
        let o = count_marks(b, Cell::O);
        let x = count_marks(b, Cell::X);
        &&& (o == x || o == x + 1)
        &&& match self.status {
            GameStatus::InProgress => {
                &&& !board_full(b)
                &&& !wins(b, Player::X)
                &&& !wins(b, Player::O)
                &&& (self.current_player == Player::O ==> o == x)
                &&& (self.current_player == Player::X ==> o == x + 1)
            },
            GameStatus::Won(p) => wins(b, p) && !wins(b, p.spec_other()),
            GameStatus::Draw => board_full(b) && !wins(b, Player::X) && !wins(b, Player::O),
        }
    }

    /// Returns a fresh game: an all-empty board, `O` to move, in progress.
    pub fn new() -> (g: GameState)
        ensures
            g.wf(),
            g.status == GameStatus::InProgress,
            g.current_player == Player::O,
            forall|i: int| 0 <= i < 9 ==> g.board@[i] == Cell::Empty,
    {
        let board = Board::new();
        proof {
            lemma_count_all_empty(board@, Cell::O, 9);
            lemma_count_all_empty(board@, Cell::X, 9);
        }
        GameState { board, current_player: Player::O, status: GameStatus::InProgress }
    }

    /// True exactly when `player` has a winning line on the current board.
    pub fn check_win(&self, player: Player) -> (r: bool)
        ensures
            r == wins(self.board@, player),
    {
        let t = Cell::from(player);
        let c = &self.board.cells;
        let row0 = c[0] == t && c[1] == t && c[2] == t;
        let row1 = c[3] == t && c[4] == t && c[5] == t;
        let row2 = c[6] == t && c[7] == t && c[8] == t;
        let col0 = c[0] == t && c[3] == t && c[6] == t;
        let col1 = c[1] == t && c[4] == t && c[7] == t;
        let col2 = c[2] == t && c[5] == t && c[8] == t;
        let diag0 = c[0] == t && c[4] == t && c[8] == t;
        let diag1 = c[2] == t && c[4] == t && c[6] == t;
        row0 || row1 || row2 || col0 || col1 || col2 || diag0 || diag1
    }

    /// Validates and applies one move by the current player at the given
    /// 0-based position.
    ///
    /// Rejections, checked in this order and leaving the state untouched:
    /// `GameOver` once the game has terminated, `OutOfRange` for a position
    /// outside `0..9`, `Occupied` for a cell that already holds a mark.
    ///
    /// On success the mover's mark is placed; if that completes a line the
    /// mover wins (a winning ninth move is a win, not a draw), otherwise a
    /// full board is a draw; otherwise the turn passes to the other player.
    /// A cell that holds a mark is never overwritten.
    pub fn apply_move(&mut self, position: usize) -> (r: Result<(), MoveError>)
        requires
            old(self).wf(),
        ensures
            final(self).wf(),
            r is Err ==> *final(self) == *old(self),
            (r == Result::<(), MoveError>::Err(MoveError::GameOver)) <==> old(self).status
                != GameStatus::InProgress,
            (r == Result::<(), MoveError>::Err(MoveError::OutOfRange)) <==> (old(self).status
                == GameStatus::InProgress && position >= 9),
            (r == Result::<(), MoveError>::Err(MoveError::Occupied)) <==> (old(self).status
                == GameStatus::InProgress && position < 9 && old(self).board@[position as int]
                != Cell::Empty),
            r is Ok <==> (old(self).status == GameStatus::InProgress && position < 9
                && old(self).board@[position as int] == Cell::Empty),
            r is Ok ==> {
                let moved = old(self).board@.update(
                    position as int,
                    cell_of(old(self).current_player),
                );
                let p = old(self).current_player;
                &&& final(self).board@ == moved
                &&& final(self).status == (if wins(moved, p) {
                    GameStatus::Won(p)
                } else if board_full(moved) {
                    GameStatus::Draw
                } else {
                    GameStatus::InProgress
                })
                &&& final(self).current_player == (if wins(moved, p) || board_full(moved) {
                    p
                } else {
                    p.spec_other()
                })
            },
            forall|i: int|
                0 <= i < 9 && old(self).board@[i] != Cell::Empty ==> final(self).board@[i] == old(
                    self,
                ).board@[i],
    {
        if !self.status.is_in_progress() {
            return Err(MoveError::GameOver);
        }
        if position > 8 {
            return Err(MoveError::OutOfRange);
        }
        if self.board.cells[position] != Cell::Empty {
            return Err(MoveError::Occupied);
        }

        let mover = self.current_player;
        self.board.cells[position] = Cell::from(mover);

        proof {
            let b = old(self).board@;
            lemma_count_update(b, position as int, cell_of(mover), Cell::O, 9);
            lemma_count_update(b, position as int, cell_of(mover), Cell::X, 9);
        }

        if self.check_win(mover) {
            self.status = GameStatus::Won(mover);
            return Ok(());
        }

        if self.board.is_full() {
            self.status = GameStatus::Draw;
            return Ok(());
        }

        self.current_player = mover.other();
        Ok(())
    }
}

/// The board position for a 1-based value entered at the terminal: values
/// in `1..=9` map to positions `0..=8`; anything else is refused before it
/// reaches the engine.
pub fn position_from_input(n: usize) -> (r: Option<usize>)
    ensures
        1 <= n <= 9 ==> r == Some((n - 1) as usize),
        !(1 <= n <= 9) ==> r is None,
{
    if 1 <= n && n <= 9 {
        Some(n - 1)
    } else {
        None
    }
}

/// Mark-count discipline: the first mover `O` is never more than one mark
/// ahead of `X`, and never behind.
pub proof fn lemma_mark_count_discipline(g: GameState)
    requires
        g.wf(),
    ensures
        count_marks(g.board@, Cell::X) - count_marks(g.board@, Cell::O) == 0 || count_marks(
            g.board@,
            Cell::X,
        ) - count_marks(g.board@, Cell::O) == -1,
{
}

/// Win exclusivity: the two players never both satisfy the win predicate,
/// and a won game's winner satisfies it while the loser does not.
pub proof fn lemma_win_exclusivity(g: GameState)
    requires
        g.wf(),
    ensures
        !(wins(g.board@, Player::X) && wins(g.board@, Player::O)),
        forall|p: Player|
            g.status == GameStatus::Won(p) ==> wins(g.board@, p) && !wins(
                g.board@,
                p.spec_other(),
            ),
{
}

/// Draw purity: a drawn game has a full board and a winning line for
/// neither player.
pub proof fn lemma_draw_purity(g: GameState)
    requires
        g.wf(),
        g.status == GameStatus::Draw,
    ensures
        board_full(g.board@),
        !wins(g.board@, Player::X),
        !wins(g.board@, Player::O),
{
}

} // verus!
