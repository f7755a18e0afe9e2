//! The board model: a fixed 3x3 grid of cell marks, stored as a flat
//! length-9 array indexed row-major (`3 * row + col`).

use vstd::prelude::*;
use vstd::string::StringExecFns;
use crate::game::{Player, cell_of};

verus! {

/// The contents of a single cell: empty, or marked by one of the players.
#[derive(Clone, Copy, PartialEq, Eq, Structural, Debug)]
pub enum Cell {
    Empty,
    X,
    O,
}

impl From<Player> for Cell {
    /// The mark a player places when moving.
    fn from(player: Player) -> (r: Cell) {
        match player {
            Player::X => Cell::X,
            Player::O => Cell::O,
        }
    }
}

impl vstd::std_specs::convert::FromSpecImpl<Player> for Cell {
    open spec fn obeys_from_spec() -> bool {
        true
    }

    open spec fn from_spec(p: Player) -> Cell {
        cell_of(p)
    }
}

impl Default for Cell {
    /// A cell starts out empty.
    fn default() -> (r: Cell)
        ensures
            r == Cell::Empty,
    {
        Cell::Empty
    }
}

/// A 3x3 grid of `Cell`, addressed by a linear position `p` in `0..9`,
/// with `row = p / 3` and `col = p % 3`.
#[derive(Clone, Copy, PartialEq, Eq, Debug)]
pub struct Board {
    pub cells: [Cell; 9],
}

impl View for Board {
    type V = Seq<Cell>;

    open spec fn view(&self) -> Seq<Cell> {
        self.cells@
    }
}

/// The three-character token a cell is rendered as.
pub open spec fn cell_token(c: Cell) -> Seq<char> {
    match c {
        Cell::Empty => " . "@,
        Cell::X => " X "@,
        Cell::O => " O "@,
    }
}

/// The textual rendering of a board: three lines, each of the three cell
/// tokens of one row, each line terminated by a newline.
pub open spec fn spec_render(b: Seq<Cell>) -> Seq<char> {
    cell_token(b[0]) + cell_token(b[1]) + cell_token(b[2]) + "\n"@ + cell_token(b[3]) + cell_token(
        b[4],
    ) + cell_token(b[5]) + "\n"@ + cell_token(b[6]) + cell_token(b[7]) + cell_token(b[8]) + "\n"@
}

/// The board is full when no cell is empty.
pub open spec fn board_full(b: Seq<Cell>) -> bool {
    forall|i: int| 0 <= i < 9 ==> b[i] != Cell::Empty
}

impl Board {
    /// Returns a board with every cell empty.
    pub fn new() -> (b: Board)
        ensures
            forall|i: int| 0 <= i < 9 ==> b@[i] == Cell::Empty,
    {
        Board { cells: [Cell::Empty, Cell::Empty, Cell::Empty, Cell::Empty, Cell::Empty, Cell::Empty, Cell::Empty, Cell::Empty, Cell::Empty] }
    }

    /// True exactly when every cell is occupied.
    pub fn is_full(&self) -> (r: bool)
        ensures
            r == board_full(self@),
    {
        let mut i: usize = 0;
        while i < 9
            invariant
                i <= 9,
                forall|j: int| 0 <= j < i ==> self.cells@[j] != Cell::Empty,
            decreases 9 - i,
        {
            if self.cells[i] == Cell::Empty {
                return false;
            }
            i = i + 1;
        }
        true
    }

    /// Renders the board as text. Two renderings of equal boards are
    /// byte-identical: the result is a function of the cells alone.
    pub fn render(&self) -> (r: String)
        ensures
            r@ == spec_render(self@),
    {
        let mut out = String::new();
        out.append(token_str(self.cells[0]));
        out.append(token_str(self.cells[1]));
        out.append(token_str(self.cells[2]));
        out.append("\n");
        out.append(token_str(self.cells[3]));
        out.append(token_str(self.cells[4]));
        out.append(token_str(self.cells[5]));
        out.append("\n");
        out.append(token_str(self.cells[6]));
        out.append(token_str(self.cells[7]));
        out.append(token_str(self.cells[8]));
        out.append("\n");
        proof {
            assert(out@ =~= spec_render(self@));
        }
        out
    }
}

/// The token one cell is rendered as.
fn token_str(c: Cell) -> (t: &'static str)
    ensures
        t@ == cell_token(c),
{
    match c {
        Cell::Empty => " . ",
        Cell::X => " X ",
        Cell::O => " O ",
    }
}

} // verus!
