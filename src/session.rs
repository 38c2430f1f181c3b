//! A play session: the board, the selected cell, and the pending puzzle
//! generation, changed only through the player's intents.
use vstd::prelude::*;

use crate::board::Board;
use crate::board::cells_for;
use crate::board::filled_cells;
use crate::board::lemma_reset_idempotent;
use crate::board::reset_cells;
use crate::board::values_of;
use crate::cell::Cell;
use crate::cell::CellPosition;
use crate::error::GameError;
use crate::input::Intent;
use crate::puzzle::Verdict;
use crate::puzzle::puzzle_from_values;
use crate::puzzle::puzzle_is_valid;
use crate::puzzle::solve_puzzle;
use crate::rules::consistent;
use crate::rules::has_solution;
use crate::rules::has_unique_solution;
use crate::rules::is_ambiguous;
use crate::rules::is_solution;
use crate::rules::lemma_solution_cases;
use crate::rules::well_formed_grid;
use crate::value::Value;

verus! {

/// The session: a board of 81 cells, at most one selected cell, and whether
/// a new puzzle is being generated.
pub struct Session {
    board: Board,
    selected: Option<CellPosition>,
    generating: bool,
}

/// What applying an intent asks of the program around the session.
#[derive(Debug, Clone, Copy, PartialEq, Eq, Structural)]
pub enum Outcome {
    /// Nothing more to do.
    Done,
    /// Show the cell at this position as no longer selected.
    Deselect(CellPosition),
    /// Start generating a new puzzle, and hand its outcome to
    /// `Session::complete_generation`.
    StartGeneration,
    /// Tell the player about this error.
    Failed(GameError),
}

/// The cell an outcome asks to show as no longer selected.
pub open spec fn deselected_by(o: Outcome) -> Option<CellPosition> {
    match o {
        Outcome::Deselect(q) => Some(q),
        _ => None,
    }
}

/// The result of solving that an outcome reports.
pub open spec fn solve_result(o: Outcome) -> Result<(), GameError> {
    match o {
        Outcome::Failed(e) => Err(e),
        _ => Ok(()),
    }
}

/// The cell to show as no longer selected when `p` is selected after `before`.
pub open spec fn deselected(before: Option<CellPosition>, p: CellPosition) -> Option<CellPosition> {
    match before {
        Some(q) => if q != p {
            Some(q)
        } else {
            None
        },
        None => None,
    }
}

impl Session {
    /// The cells of the board, row by row.
    pub closed spec fn cells(&self) -> Seq<Cell> {
        self.board@
    }

    /// The selected position, if any.
    pub closed spec fn selection(&self) -> Option<CellPosition> {
        self.selected
    }

    /// A new puzzle has been asked for and has not arrived yet.
    pub closed spec fn pending(&self) -> bool {
        self.generating
    }

    /// The board has 81 cells and the selection, if any, lies on it.
    pub closed spec fn wf(&self) -> bool {
        &&& self.board.wf()
        &&& self.selected matches Some(p) ==> p.is_valid()
    }

    /// The board's digits as grid entries, row by row.
    pub open spec fn grid(&self) -> Seq<Option<usize>> {
        values_of(self.cells())
    }

    /// What selecting `p` does: a position on the board becomes the only
    /// selected one, and the previously selected cell, if it differs, is to
    /// be shown as unselected again; a position off the board changes nothing.
    pub open spec fn select_post(
        before: Session,
        p: CellPosition,
        after: Session,
        revert: Option<CellPosition>,
    ) -> bool {
        &&& after.cells() == before.cells()
        &&& after.pending() == before.pending()
        &&& p.is_valid() ==> after.selection() == Some(p) && revert == deselected(
            before.selection(),
            p,
        )
        &&& !p.is_valid() ==> after == before && revert is None
    }

    /// What leaving no cell selected does; nothing else changes.
    pub open spec fn clear_post(before: Session, after: Session) -> bool {
        &&& after.selection() is None
        &&& after.cells() == before.cells()
        &&& after.pending() == before.pending()
        &&& before.selection() is None ==> after == before
    }

    /// What entering `value` does: only an editable selected cell takes it;
    /// without a selection, or on a fixed cell, nothing changes.
    pub open spec fn set_value_post(before: Session, value: Option<Value>, after: Session) -> bool {
        &&& after.selection() == before.selection()
        &&& after.pending() == before.pending()
        &&& before.selection() matches Some(p) ==> (before.cells()[p.index()].enabled
            ==> after.cells() == before.cells().update(
            p.index(),
            Cell { value, ..before.cells()[p.index()] },
        ))
        &&& before.selection() matches Some(p) ==> (!before.cells()[p.index()].enabled ==> after
            == before)
        &&& before.selection() is None ==> after == before
    }

    /// What a reset does: every editable cell is emptied, nothing else changes.
    pub open spec fn reset_post(before: Session, after: Session) -> bool {
        &&& after.cells() == reset_cells(before.cells())
        &&& after.selection() == before.selection()
        &&& after.pending() == before.pending()
    }

    /// What asking for a new game does: a generation is pending afterwards,
    /// and it is to start exactly when none was pending before.
    pub open spec fn new_game_post(before: Session, after: Session, start: bool) -> bool {
        &&& start == !before.pending()
        &&& after.pending()
        &&& after.cells() == before.cells()
        &&& after.selection() == before.selection()
        &&& before.pending() ==> after == before
    }

    /// What solving does, by what the board's digits admit: an error naming
    /// a broken rule, no solution or several, with nothing changed; or, for
    /// exactly one solution, every cell taking its digit from it.
    pub open spec fn solve_post(before: Session, after: Session, r: Result<(), GameError>) -> bool {
        let p = before.grid();
        &&& !consistent(p) ==> r == Err::<(), GameError>(GameError::ValidationError) && after
            == before
        &&& consistent(p) && !has_solution(p) ==> r == Err::<(), GameError>(
            GameError::SolveImpossible,
        ) && after == before
        &&& consistent(p) && is_ambiguous(p) ==> r == Err::<(), GameError>(
            GameError::SolveAmbiguous,
        ) && after == before
        &&& consistent(p) && has_unique_solution(p) ==> r is Ok
        &&& r is Ok ==> {
            &&& is_solution(after.grid(), p)
            &&& after.cells() == filled_cells(before.cells(), after.grid())
            &&& after.selection() == before.selection()
            &&& after.pending() == before.pending()
        }
    }

    /// A session with an empty, editable board, nothing selected and no
    /// generation pending.
    pub fn new() -> (s: Session)
        ensures
            s.wf(),
            s.cells().len() == 81,
            forall|i: int| 0 <= i < 81 ==> #[trigger] s.cells()[i] == (Cell { value: None, enabled: true }),
            s.selection() is None,
            !s.pending(),
    {
        Session { board: Board::new(), selected: None, generating: false }
    }

    /// The cell at a position.
    pub fn cell(&self, p: CellPosition) -> (c: Cell)
        requires
            self.wf(),
            p.is_valid(),
        ensures
            c == self.cells()[p.index()],
    {
        self.board.cell(p)
    }

    /// The board's digits as grid entries, row by row.
    pub fn values(&self) -> (v: Vec<Option<usize>>)
        requires
            self.wf(),
        ensures
            v@ == self.grid(),
            well_formed_grid(v@),
    {
        self.board.values()
    }

    /// The selected position, if any.
    pub fn selected(&self) -> (p: Option<CellPosition>)
        ensures
            p == self.selection(),
    {
        self.selected
    }

    /// Whether a new puzzle is being generated.
    pub fn is_generating(&self) -> (r: bool)
        ensures
            r == self.pending(),
    {
        self.generating
    }

    /// Selects the cell at `p`, fixed or not. Returns the previously selected
    /// cell when it is another one, so that it can be shown as unselected.
    pub fn select_cell(&mut self, p: CellPosition) -> (revert: Option<CellPosition>)
        requires
            old(self).wf(),
        ensures
            final(self).wf(),
            Session::select_post(*old(self), p, *final(self), revert),
    {
        if !p.is_on_board() {
            return None;
        }
        let revert = match self.selected {
            Some(q) => if q != p {
                Some(q)
            } else {
                None
            },
            None => None,
        };
        self.selected = Some(p);
        revert
    }

    /// Leaves no cell selected.
    pub fn clear_selection(&mut self)
        requires
            old(self).wf(),
        ensures
            final(self).wf(),
            Session::clear_post(*old(self), *final(self)),
    {
        self.selected = None;
    }

    /// Puts `value` in the selected cell, or empties it. Nothing changes
    /// when no cell is selected or the selected cell is fixed.
    pub fn set_value(&mut self, value: Option<Value>)
        requires
            old(self).wf(),
        ensures
            final(self).wf(),
            Session::set_value_post(*old(self), value, *final(self)),
            forall|i: int|
                0 <= i < 81 && (#[trigger] old(self).cells()[i]).is_fixed() ==> final(self).cells()[i]
                    == old(self).cells()[i],
    {
        match self.selected {
            Some(p) => {
                if self.board.cell(p).is_enabled() {
                    self.board.enter(p, value);
                }
            },
            None => {},
        }
    }

    /// Empties every editable cell; fixed cells keep their digit.
    pub fn reset(&mut self)
        requires
            old(self).wf(),
        ensures
            final(self).wf(),
            Session::reset_post(*old(self), *final(self)),
            forall|i: int|
                0 <= i < 81 ==> (#[trigger] final(self).cells()[i]).value == if old(self).cells()[i].enabled {
                    None
                } else {
                    old(self).cells()[i].value
                },
            forall|i: int| 0 <= i < 81 ==> (#[trigger] final(self).cells()[i]).enabled == old(self).cells()[i].enabled,
    {
        self.board.reset();
    }

    /// Asks for a new puzzle. Returns whether its generation is to start: a
    /// request while another is pending is ignored.
    pub fn request_new_game(&mut self) -> (start: bool)
        requires
            old(self).wf(),
        ensures
            final(self).wf(),
            Session::new_game_post(*old(self), *final(self), start),
    {
        if self.generating {
            return false;
        }
        self.generating = true;
        true
    }

    /// Applies one intent of the player, by the method for it.
    pub fn apply(&mut self, intent: Intent) -> (r: Outcome)
        requires
            old(self).wf(),
        ensures
            final(self).wf(),
            intent matches Intent::SelectCell(p) ==> Session::select_post(
                *old(self),
                p,
                *final(self),
                deselected_by(r),
            ) && (r is Done || r is Deselect),
            intent is ClearSelection ==> Session::clear_post(*old(self), *final(self)) && r
                == Outcome::Done,
            intent matches Intent::SetValue(v) ==> Session::set_value_post(*old(self), v, *final(self))
                && r == Outcome::Done,
            intent is Reset ==> Session::reset_post(*old(self), *final(self)) && r == Outcome::Done,
            intent is NewGame ==> Session::new_game_post(
                *old(self),
                *final(self),
                r == Outcome::StartGeneration,
            ) && (r is Done || r is StartGeneration),
            intent is Solve ==> Session::solve_post(*old(self), *final(self), solve_result(r)) && (
            r is Done || r is Failed),
    {
        match intent {
            Intent::SelectCell(p) => match self.select_cell(p) {
                Some(q) => Outcome::Deselect(q),
                None => Outcome::Done,
            },
            Intent::ClearSelection => {
                self.clear_selection();
                Outcome::Done
            },
            Intent::SetValue(v) => {
                self.set_value(v);
                Outcome::Done
            },
            Intent::Reset => {
                self.reset();
                Outcome::Done
            },
            Intent::NewGame => if self.request_new_game() {
                Outcome::StartGeneration
            } else {
                Outcome::Done
            },
            Intent::Solve => match self.solve() {
                Ok(()) => Outcome::Done,
                Err(e) => Outcome::Failed(e),
            },
        }
    }

    /// Takes the outcome of the pending generation. A puzzle of 81 entries,
    /// each empty or a digit, replaces the whole board (digits become fixed
    /// cells, blanks editable ones) and clears the selection; `Ok` then tells
    /// that the new game is ready. A failed or malformed outcome leaves board
    /// and selection as they were. Either way the generation is no longer
    /// pending, so a second outcome finds none pending: it is refused and
    /// changes nothing, and the new game is announced only once.
    pub fn complete_generation(&mut self, outcome: Result<Vec<Option<usize>>, GameError>) -> (r:
        Result<(), GameError>)
        requires
            old(self).wf(),
        ensures
            final(self).wf(),
            !final(self).pending(),
            !old(self).pending() ==> r == Err::<(), GameError>(GameError::NoPendingGeneration)
                && *final(self) == *old(self),
            old(self).pending() ==> (outcome matches Ok(v) ==> (well_formed_grid(v@) ==> {
                &&& r is Ok
                &&& final(self).cells() == cells_for(v@)
                &&& final(self).grid() == v@
                &&& final(self).selection() is None
            })),
            old(self).pending() ==> (outcome matches Ok(v) ==> (!well_formed_grid(v@) ==> {
                &&& r == Err::<(), GameError>(GameError::GenerationFailed)
                &&& final(self).cells() == old(self).cells()
                &&& final(self).selection() == old(self).selection()
            })),
            old(self).pending() ==> (outcome matches Err(e) ==> {
                &&& r == Err::<(), GameError>(e)
                &&& final(self).cells() == old(self).cells()
                &&& final(self).selection() == old(self).selection()
            }),
    {
        if !self.generating {
            return Err(GameError::NoPendingGeneration);
        }
        self.generating = false;
        match outcome {
            Ok(values) => {
                if !is_well_formed(&values) {
                    return Err(GameError::GenerationFailed);
                }
                self.board = Board::from_values(&values);
                self.selected = None;
                Ok(())
            },
            Err(e) => Err(e),
        }
    }

    /// Solves the board as it stands. Its digits, given or entered, form a
    /// puzzle for the engine. When a digit repeats in a row, a column or a
    /// box, or the puzzle has no solution or several, the error says which
    /// and nothing changes. When it has exactly one solution, every cell,
    /// fixed or not, takes its digit from it; the selection stays.
    pub fn solve(&mut self) -> (r: Result<(), GameError>)
        requires
            old(self).wf(),
        ensures
            final(self).wf(),
            Session::solve_post(*old(self), *final(self), r),
    {
        let values = self.board.values();
        let puzzle = puzzle_from_values(&values);
        if !puzzle_is_valid(&puzzle) {
            return Err(GameError::ValidationError);
        }
        proof {
            lemma_solution_cases(values@);
        }
        match solve_puzzle(&puzzle) {
            Verdict::Unique(solution) => {
                self.board.fill(&solution);
                Ok(())
            },
            Verdict::Ambiguous => Err(GameError::SolveAmbiguous),
            Verdict::Impossible => Err(GameError::SolveImpossible),
        }
    }
}

/// Selecting `p` and then another position `q` leaves `q` as the one
/// selected cell, and the second selection hands back `p` to be shown as
/// unselected again.
pub proof fn lemma_select_then_select(
    s0: Session,
    s1: Session,
    s2: Session,
    p: CellPosition,
    q: CellPosition,
    revert1: Option<CellPosition>,
    revert2: Option<CellPosition>,
)
    requires
        Session::select_post(s0, p, s1, revert1),
        Session::select_post(s1, q, s2, revert2),
        p.is_valid(),
        q.is_valid(),
        p != q,
    ensures
        s2.selection() == Some(q),
        revert2 == Some(p),
        s2.cells() == s0.cells(),
{
}

/// A well-formed session has 81 cells, and its selection, if any, lies on
/// the board.
pub proof fn lemma_wf_shape(s: Session)
    requires
        s.wf(),
    ensures
        s.cells().len() == 81,
        s.selection() matches Some(p) ==> p.is_valid(),
{
}

/// Resetting twice in a row leaves the session as resetting once does.
pub proof fn lemma_reset_twice(s0: Session, s1: Session, s2: Session)
    requires
        Session::reset_post(s0, s1),
        Session::reset_post(s1, s2),
    ensures
        s2.cells() == s1.cells(),
        s2.selection() == s1.selection(),
        s2.pending() == s1.pending(),
{
    lemma_reset_idempotent(s0.cells());
}

/// Whether `values` holds 81 entries, each empty or a digit.
pub fn is_well_formed(values: &Vec<Option<usize>>) -> (r: bool)
    ensures
        r == well_formed_grid(values@),
{
    if values.len() != 81 {
        return false;
    }
    let mut i: usize = 0;
    while i < 81
        invariant
            i <= 81,
            values@.len() == 81,
            forall|j: int| 0 <= j < i ==> #[trigger] crate::rules::is_digit_entry(values@[j]),
        decreases 81 - i,
    {
        match values[i] {
            Some(n) => {
                if n < 1 || n > 9 {
                    assert(!crate::rules::is_digit_entry(values@[i as int]));
                    return false;
                }
            },
            None => {},
        }
        i = i + 1;
    }
    true
}

} // verus!
