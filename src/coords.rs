//! Conversions between pixels, grid cells and algebraic square labels.
use vstd::prelude::*;
use vstd::string::StrSliceExecFns;

verus! {

/// A board cell: column 0 is file `A`, row 0 is rank `8`.
#[derive(Clone, Copy, Debug, PartialEq, Eq, Structural)]
pub struct Square {
    pub column: u8,
    pub row: u8,
}

impl Square {
    /// Both coordinates lie on the board.
    pub open spec fn wf(self) -> bool {
        self.column < 8 && self.row < 8
    }

    /// Position of this square in a row-major list of the 64 cells.
    pub open spec fn index(self) -> int {
        self.row * 8 + self.column
    }
}

/// A label that is not two characters, a file `A`..`H` then a rank `1`..`8`.
#[derive(Clone, Copy, Debug, PartialEq, Eq, Structural)]
pub struct MalformedLabel;

/// The algebraic label of the cell at `column`, `row`: the file letter
/// `'A' + column`, then the rank digit `8 - row`.
pub open spec fn label_of(column: int, row: int) -> Seq<char> {
    seq![(65 + column) as u32 as char, (56 - row) as u32 as char]
}

/// `s` is a well-formed label: a file letter `A`..`H`, then a rank digit `1`..`8`.
pub open spec fn is_label(s: Seq<char>) -> bool {
    &&& s.len() == 2
    &&& 65 <= s[0] as u32 <= 72
    &&& 49 <= s[1] as u32 <= 56
}

/// The cell that a well-formed label names.
pub open spec fn square_of(s: Seq<char>) -> Square {
    Square { column: (s[0] as u32 - 65) as u8, row: (56 - s[1] as u32) as u8 }
}

/// Relies on `String::push`: the character is appended at the end.
#[verifier::external_body]
fn push_char(s: &mut String, c: char)
    ensures
        final(s)@ == old(s)@.push(c),
{
    s.push(c)
}

/// The label of the cell at column `x`, row `y`.
pub fn numerical_to_chess(x: u8, y: u8) -> (r: String)
    requires
        x < 8,
        y < 8,
    ensures
        r@ == label_of(x as int, y as int),
{
    let mut s = String::new();
    push_char(&mut s, (x + 65) as char);
    push_char(&mut s, (56 - y) as char);
    proof {
        assert(s@ =~= label_of(x as int, y as int));
    }
    s
}

/// The column and row of the cell that a well-formed label names.
pub fn chess_to_numerical(coordinates: &str) -> (r: (u8, u8))
    requires
        is_label(coordinates@),
    ensures
        r.0 == square_of(coordinates@).column,
        r.1 == square_of(coordinates@).row,
        r.0 < 8,
        r.1 < 8,
{
    let file = coordinates.get_char(0);
    let rank = coordinates.get_char(1);
    let x = (file as u32 - 65) as u8;
    let y = (56 - rank as u32) as u8;
    (x, y)
}

/// The label of a square.
pub fn square_to_label(square: Square) -> (r: String)
    requires
        square.wf(),
    ensures
        r@ == label_of(square.column as int, square.row as int),
{
    numerical_to_chess(square.column, square.row)
}

/// The square that `label` names, or `MalformedLabel` when it is not a label.
pub fn label_to_square(label: &str) -> (r: Result<Square, MalformedLabel>)
    ensures
        r is Ok <==> is_label(label@),
        r matches Ok(sq) ==> sq == square_of(label@) && sq.wf(),
{
    if label.unicode_len() != 2 {
        return Err(MalformedLabel);
    }
    let file = label.get_char(0) as u32;
    let rank = label.get_char(1) as u32;
    if file < 65 || file > 72 || rank < 49 || rank > 56 {
        return Err(MalformedLabel);
    }
    Ok(Square { column: (file - 65) as u8, row: (56 - rank) as u8 })
}

/// The cell under the pixel at `x`, `y` on a board of square cells of
/// `cell_size` pixels: each coordinate divided by the cell size, rounded down.
pub fn pixel_to_square(x: u32, y: u32, cell_size: u32) -> (r: Square)
    requires
        cell_size > 0,
        x / cell_size < 8,
        y / cell_size < 8,
    ensures
        r.column == x / cell_size,
        r.row == y / cell_size,
        r.wf(),
{
    Square { column: (x / cell_size) as u8, row: (y / cell_size) as u8 }
}

/// Every square has a well-formed label, and that label names the square again.
pub proof fn lemma_square_label_round_trip(s: Square)
    requires
        s.wf(),
    ensures
        is_label(label_of(s.column as int, s.row as int)),
        square_of(label_of(s.column as int, s.row as int)) == s,
{
}

/// Every well-formed label names a square on the board whose label is the
/// same text again.
pub proof fn lemma_label_square_round_trip(l: Seq<char>)
    requires
        is_label(l),
    ensures
        square_of(l).wf(),
        label_of(square_of(l).column as int, square_of(l).row as int) =~= l,
{
    vstd::utf8::char_u32_cast(l[0], l[0] as u32);
    vstd::utf8::char_u32_cast(l[1], l[1] as u32);
}

} // verus!
