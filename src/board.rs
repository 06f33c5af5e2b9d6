//! The display mirror of the engine's board.
use vstd::prelude::*;

use crate::coords::Square;

verus! {

/// Number of cells on the board.
pub const CELL_COUNT: usize = 64;

/// One of the two players.
#[derive(Clone, Copy, Debug, PartialEq, Eq, Structural, Hash)]
pub enum Side {
    White,
    Black,
}

/// The kind of a chess piece.
#[derive(Clone, Copy, Debug, PartialEq, Eq, Structural, Hash)]
pub enum PieceKind {
    King,
    Queen,
    Rook,
    Bishop,
    Knight,
    Pawn,
}

/// A piece standing on a cell: whose it is and what it is.
#[derive(Clone, Copy, Debug, PartialEq, Eq, Structural, Hash)]
pub struct Occupant {
    pub side: Side,
    pub kind: PieceKind,
}

/// What the mirror shows on a cell where the engine reports `piece`, owned by
/// `color`.
pub open spec fn mirror_cell(piece: Option<PieceKind>, color: Option<Side>) -> Option<Occupant> {
    match piece {
        Some(kind) => Some(Occupant { side: color.unwrap(), kind }),
        None => None,
    }
}

/// The engine reports a side for every occupied cell of a 64-cell snapshot.
pub open spec fn snapshot_wf(pieces: Seq<Option<PieceKind>>, colors: Seq<Option<Side>>) -> bool {
    &&& pieces.len() == 64
    &&& colors.len() == 64
    &&& forall|i: int| 0 <= i < 64 && (#[trigger] pieces[i]) is Some ==> colors[i] is Some
}

/// The mirror of an engine snapshot, cell by cell.
pub open spec fn mirror_of(pieces: Seq<Option<PieceKind>>, colors: Seq<Option<Side>>) -> Seq<Option<Occupant>> {
    Seq::new(64, |i: int| mirror_cell(pieces[i], colors[i]))
}

/// The 64 cells of the board as the front end shows them, rank 8 first and
/// file `A` first within a rank.
#[derive(Debug)]
pub struct DisplayBoard {
    cells: Vec<Option<Occupant>>,
}

impl View for DisplayBoard {
    type V = Seq<Option<Occupant>>;

    closed spec fn view(&self) -> Seq<Option<Occupant>> {
        self.cells@
    }
}

impl DisplayBoard {
    /// The board holds exactly one entry per cell.
    pub open spec fn wf(&self) -> bool {
        self@.len() == 64
    }

    /// A board with no pieces on it.
    pub fn empty() -> (r: DisplayBoard)
        ensures
            r.wf(),
            forall|i: int| 0 <= i < 64 ==> (#[trigger] r@[i]) is None,
    {
        let mut cells: Vec<Option<Occupant>> = Vec::new();
        let mut i: usize = 0;
        while i < CELL_COUNT
            invariant
                i <= 64,
                cells@.len() == i,
                forall|j: int| 0 <= j < i ==> (#[trigger] cells@[j]) is None,
            decreases 64 - i,
        {
            cells.push(None);
            i = i + 1;
        }
        DisplayBoard { cells }
    }

    /// The mirror of an engine snapshot: `pieces` and `colors` hold, for each
    /// of the 64 cells in board order, the piece and the side the engine
    /// reports there.
    pub fn from_game(pieces: &Vec<Option<PieceKind>>, colors: &Vec<Option<Side>>) -> (r: DisplayBoard)
        requires
            snapshot_wf(pieces@, colors@),
        ensures
            r.wf(),
            r@ == mirror_of(pieces@, colors@),
    {
        let mut cells: Vec<Option<Occupant>> = Vec::new();
        let mut i: usize = 0;
        while i < CELL_COUNT
            invariant
                i <= 64,
                snapshot_wf(pieces@, colors@),
                cells@.len() == i,
                forall|j: int| 0 <= j < i ==> #[trigger] cells@[j] == mirror_cell(pieces@[j], colors@[j]),
            decreases 64 - i,
        {
            let cell = match pieces[i] {
                Some(kind) => Some(Occupant { side: colors[i].unwrap(), kind }),
                None => None,
            };
            cells.push(cell);
            i = i + 1;
        }
        proof {
            assert(cells@ =~= mirror_of(pieces@, colors@));
        }
        DisplayBoard { cells }
    }

    /// Replaces every cell with the mirror of an engine snapshot.
    pub fn board_from_game(&mut self, pieces: &Vec<Option<PieceKind>>, colors: &Vec<Option<Side>>)
        requires
            snapshot_wf(pieces@, colors@),
        ensures
            final(self).wf(),
            final(self)@ == mirror_of(pieces@, colors@),
    {
        *self = DisplayBoard::from_game(pieces, colors);
    }

    /// What stands on `square`.
    pub fn get(&self, square: Square) -> (r: Option<Occupant>)
        requires
            self.wf(),
            square.wf(),
        ensures
            r == self@[square.index()],
    {
        self.cells[(square.row as usize) * 8 + square.column as usize]
    }
}

} // verus!
