//! The two-click selection state machine.
//!
//! A first click on a piece of the side to move selects it, together with the
//! destinations the engine allows from there; a second click either asks the
//! engine to make the move or cancels the selection. The engine itself stays
//! outside: each step says what to ask it, and the answer comes back as an
//! argument of the next step.
use vstd::prelude::*;

use crate::board::{mirror_of, snapshot_wf, DisplayBoard, Occupant, PieceKind, Side};
use crate::coords::{label_of, square_to_label, Square};

verus! {

/// Whether a piece is selected, and where it may go.
pub enum SelectionState {
    Idle,
    PieceSelected { origin: Square, destinations: Vec<String> },
}

/// The mathematical value of a `SelectionState`.
pub enum SelectionView {
    Idle,
    PieceSelected { origin: Square, destinations: Seq<Seq<char>> },
}

/// The text of each label in a list.
pub open spec fn labels_of(v: Seq<String>) -> Seq<Seq<char>> {
    v.map_values(|s: String| s@)
}

/// The text of an engine's answer to a destination query.
pub open spec fn moves_view(moves: Option<Vec<String>>) -> Option<Seq<Seq<char>>> {
    match moves {
        Some(m) => Some(labels_of(m@)),
        None => None,
    }
}

impl View for SelectionState {
    type V = SelectionView;

    open spec fn view(&self) -> SelectionView {
        match self {
            SelectionState::Idle => SelectionView::Idle,
            SelectionState::PieceSelected { origin, destinations } => SelectionView::PieceSelected {
                origin: *origin,
                destinations: labels_of(destinations@),
            },
        }
    }
}

/// What the caller must ask of the engine after a click.
pub enum ClickAction {
    /// Ask for the legal destinations from `label`, the label of `square`,
    /// and hand the answer to `on_moves`.
    QueryMoves { square: Square, label: String },
    /// Ask the engine to move from `from` to `to`; if it accepts, hand its
    /// new board to `on_move_accepted`.
    SubmitMove { from: String, to: String },
    /// The selection was dropped; nothing to ask.
    Cancelled,
}

/// The mathematical value of a `ClickAction`.
pub enum ActionView {
    QueryMoves { square: Square, label: Seq<char> },
    SubmitMove { from: Seq<char>, to: Seq<char> },
    Cancelled,
}

impl View for ClickAction {
    type V = ActionView;

    open spec fn view(&self) -> ActionView {
        match self {
            ClickAction::QueryMoves { square, label } => ActionView::QueryMoves {
                square: *square,
                label: label@,
            },
            ClickAction::SubmitMove { from, to } => ActionView::SubmitMove { from: from@, to: to@ },
            ClickAction::Cancelled => ActionView::Cancelled,
        }
    }
}

/// The mathematical value of a `FrontEnd`: the board it shows and its selection.
pub struct FrontEndView {
    pub board: Seq<Option<Occupant>>,
    pub selection: SelectionView,
}

/// The label of a square, as a sequence of characters.
pub open spec fn square_label(s: Square) -> Seq<char> {
    label_of(s.column as int, s.row as int)
}

/// A well-formed state: a full board, and a selection, if any, of a square on
/// the board with at least one destination.
pub open spec fn view_wf(v: FrontEndView) -> bool {
    &&& v.board.len() == 64
    &&& (v.selection matches SelectionView::PieceSelected { origin, destinations } ==> origin.wf()
        && destinations.len() > 0)
}

/// The state after a click on `square`, and what to ask of the engine.
/// With no selection, the engine is asked for the destinations from the
/// square. With a selection, the selection is dropped either way, and the
/// move is submitted when the square is one of the destinations.
pub open spec fn click_step(v: FrontEndView, square: Square) -> (FrontEndView, ActionView) {
    match v.selection {
        SelectionView::Idle => (
            v,
            ActionView::QueryMoves { square, label: square_label(square) },
        ),
        SelectionView::PieceSelected { origin, destinations } => {
            let idle = FrontEndView { board: v.board, selection: SelectionView::Idle };
            if destinations.contains(square_label(square)) {
                (
                    idle,
                    ActionView::SubmitMove { from: square_label(origin), to: square_label(square) },
                )
            } else {
                (idle, ActionView::Cancelled)
            }
        },
    }
}

/// The piece on `square` belongs to `side`.
pub open spec fn owned_by(board: Seq<Option<Occupant>>, square: Square, side: Side) -> bool {
    board[square.index()] matches Some(occ) && occ.side == side
}

/// The state after the engine answered `moves` for `square` while `side` is
/// to move. A piece is selected only when nothing is selected yet, the engine
/// gave at least one destination, and the mirror shows a piece of the side to
/// move on the square; otherwise nothing changes.
pub open spec fn moves_step(
    v: FrontEndView,
    square: Square,
    moves: Option<Seq<Seq<char>>>,
    side: Side,
) -> FrontEndView {
    if v.selection is Idle && moves is Some && moves.unwrap().len() > 0 && owned_by(v.board, square, side) {
        FrontEndView {
            board: v.board,
            selection: SelectionView::PieceSelected { origin: square, destinations: moves.unwrap() },
        }
    } else {
        v
    }
}

/// The state after the engine accepted a move and reported its new board:
/// the mirror is rebuilt in full from it.
pub open spec fn accept_step(
    v: FrontEndView,
    pieces: Seq<Option<PieceKind>>,
    colors: Seq<Option<Side>>,
) -> FrontEndView {
    FrontEndView { board: mirror_of(pieces, colors), selection: v.selection }
}

/// Whether `label` is one of `labels`.
fn contains_label(labels: &Vec<String>, label: &String) -> (r: bool)
    ensures
        r == labels_of(labels@).contains(label@),
{
    let mut i: usize = 0;
    while i < labels.len()
        invariant
            i <= labels@.len(),
            forall|j: int| 0 <= j < i ==> labels@[j]@ != label@,
        decreases labels@.len() - i,
    {
        if labels[i] == *label {
            proof {
                assert(labels_of(labels@)[i as int] == label@);
            }
            return true;
        }
        i = i + 1;
    }
    proof {
        assert(!labels_of(labels@).contains(label@)) by {
            if labels_of(labels@).contains(label@) {
                let k = choose|k: int| 0 <= k < labels_of(labels@).len() && labels_of(labels@)[k] == label@;
                assert(labels@[k]@ == label@);
            }
        }
    }
    false
}

/// The front end's own state: the board it shows and the current selection.
pub struct FrontEnd {
    board: DisplayBoard,
    selection: SelectionState,
}

impl View for FrontEnd {
    type V = FrontEndView;

    closed spec fn view(&self) -> FrontEndView {
        FrontEndView { board: self.board@, selection: self.selection@ }
    }
}

impl FrontEnd {
    /// The state is well formed (see `view_wf`).
    pub open spec fn wf(&self) -> bool {
        view_wf(self@)
    }

    /// A front end with nothing selected, showing the engine's board.
    pub fn new(pieces: &Vec<Option<PieceKind>>, colors: &Vec<Option<Side>>) -> (r: FrontEnd)
        requires
            snapshot_wf(pieces@, colors@),
        ensures
            r.wf(),
            r@ == (FrontEndView { board: mirror_of(pieces@, colors@), selection: SelectionView::Idle }),
    {
        FrontEnd { board: DisplayBoard::from_game(pieces, colors), selection: SelectionState::Idle }
    }

    /// The board as shown.
    pub fn board(&self) -> (r: &DisplayBoard)
        ensures
            r@ == self@.board,
            self.wf() ==> r.wf(),
    {
        &self.board
    }

    /// The current selection; its destinations are the squares to highlight.
    pub fn selection(&self) -> (r: &SelectionState)
        ensures
            r@ == self@.selection,
    {
        &self.selection
    }

    /// Handles a primary-button click on `square`.
    pub fn handle_click(&mut self, square: Square) -> (r: ClickAction)
        requires
            old(self).wf(),
            square.wf(),
        ensures
            final(self).wf(),
            (final(self)@, r@) == click_step(old(self)@, square),
    {
        let label = square_to_label(square);
        let (hit, from) = match &self.selection {
            SelectionState::Idle => {
                return ClickAction::QueryMoves { square, label };
            },
            SelectionState::PieceSelected { origin, destinations } => {
                (contains_label(destinations, &label), square_to_label(*origin))
            },
        };
        self.selection = SelectionState::Idle;
        if hit {
            ClickAction::SubmitMove { from, to: label }
        } else {
            ClickAction::Cancelled
        }
    }

    /// Takes the engine's answer `moves` to the destination query for
    /// `square`, made while `side_to_move` is to move.
    pub fn on_moves(&mut self, square: Square, moves: Option<Vec<String>>, side_to_move: Side)
        requires
            old(self).wf(),
            square.wf(),
        ensures
            final(self).wf(),
            final(self)@ == moves_step(old(self)@, square, moves_view(moves), side_to_move),
    {
        if let SelectionState::PieceSelected { .. } = self.selection {
            return;
        }
        if let Some(m) = moves {
            if m.len() > 0 {
                if let Some(occ) = self.board.get(square) {
                    if occ.side == side_to_move {
                        self.selection = SelectionState::PieceSelected { origin: square, destinations: m };
                    }
                }
            }
        }
    }

    /// Rebuilds the board from the engine's snapshot after it accepted a move.
    pub fn on_move_accepted(&mut self, pieces: &Vec<Option<PieceKind>>, colors: &Vec<Option<Side>>)
        requires
            old(self).wf(),
            snapshot_wf(pieces@, colors@),
        ensures
            final(self).wf(),
            final(self)@ == accept_step(old(self)@, pieces@, colors@),
    {
        self.board.board_from_game(pieces, colors);
    }
}

/// From an idle state, a click on an empty cell changes nothing, whatever the
/// engine answers for that cell.
pub proof fn lemma_idle_click_on_empty_cell(
    v: FrontEndView,
    square: Square,
    moves: Option<Seq<Seq<char>>>,
    side: Side,
)
    requires
        view_wf(v),
        v.selection is Idle,
        square.wf(),
        v.board[square.index()] is None,
    ensures
        click_step(v, square).0 == v,
        moves_step(click_step(v, square).0, square, moves, side) == v,
{
}

/// From an idle state, a click on a piece of the side that is not to move
/// selects nothing, even when the engine gives it destinations.
pub proof fn lemma_turn_guard(
    v: FrontEndView,
    square: Square,
    moves: Option<Seq<Seq<char>>>,
    side: Side,
)
    requires
        view_wf(v),
        v.selection is Idle,
        square.wf(),
        v.board[square.index()] matches Some(occ) && occ.side != side,
    ensures
        click_step(v, square).0 == v,
        moves_step(click_step(v, square).0, square, moves, side).selection is Idle,
{
}

/// Every step keeps the state well formed; in particular no step ever leads
/// to a selection with no destinations.
pub proof fn lemma_selection_never_empty(
    v: FrontEndView,
    square: Square,
    moves: Option<Seq<Seq<char>>>,
    side: Side,
    pieces: Seq<Option<PieceKind>>,
    colors: Seq<Option<Side>>,
)
    requires
        view_wf(v),
        square.wf(),
        snapshot_wf(pieces, colors),
    ensures
        view_wf(click_step(v, square).0),
        view_wf(moves_step(v, square, moves, side)),
        view_wf(accept_step(v, pieces, colors)),
        moves_step(v, square, moves, side).selection matches SelectionView::PieceSelected {
            destinations,
            ..
        } ==> destinations.len() > 0,
{
}

/// From an idle state, a click on a piece of the side to move that has
/// destinations, then a click on one of them, submits that move and ends idle;
/// once the engine accepts it, the board is the mirror of the engine's new
/// board.
pub proof fn lemma_two_click_completion(
    v: FrontEndView,
    from: Square,
    moves: Seq<Seq<char>>,
    side: Side,
    to: Square,
    pieces: Seq<Option<PieceKind>>,
    colors: Seq<Option<Side>>,
)
    requires
        view_wf(v),
        v.selection is Idle,
        from.wf(),
        to.wf(),
        owned_by(v.board, from, side),
        moves.len() > 0,
        moves.contains(square_label(to)),
        snapshot_wf(pieces, colors),
    ensures
        ({
            let (v1, a1) = click_step(v, from);
            let v2 = moves_step(v1, from, Some(moves), side);
            let (v3, a3) = click_step(v2, to);
            let v4 = accept_step(v3, pieces, colors);
            &&& a1 == ActionView::QueryMoves { square: from, label: square_label(from) }
            &&& v2.selection == SelectionView::PieceSelected { origin: from, destinations: moves }
            &&& a3 == ActionView::SubmitMove { from: square_label(from), to: square_label(to) }
            &&& v3.selection is Idle
            &&& v4 == FrontEndView { board: mirror_of(pieces, colors), selection: SelectionView::Idle }
        }),
{
}

/// With a piece selected, a click on a square that is not one of its
/// destinations drops the selection, asks nothing of the engine and leaves
/// the board as it was before the piece was selected.
pub proof fn lemma_cancel_on_miss(
    v: FrontEndView,
    from: Square,
    moves: Option<Seq<Seq<char>>>,
    side: Side,
    to: Square,
)
    requires
        view_wf(v),
        v.selection is Idle,
        from.wf(),
        to.wf(),
        moves_step(click_step(v, from).0, from, moves, side).selection matches
            SelectionView::PieceSelected { destinations, .. } && !destinations.contains(square_label(to)),
    ensures
        ({
            let v2 = moves_step(click_step(v, from).0, from, moves, side);
            let (v3, a3) = click_step(v2, to);
            &&& v3 == FrontEndView { board: v.board, selection: SelectionView::Idle }
            &&& a3 == ActionView::Cancelled
        }),
{
}

} // verus!
