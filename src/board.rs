//! The board: one cell for each of the 81 positions, stored row by row.
use vstd::prelude::*;

use crate::cell::Cell;
use crate::cell::CellPosition;
use crate::cell::cell_for;
use crate::cell::position_of;
use crate::rules::is_full;
use crate::rules::well_formed_grid;
use crate::value::Value;

verus! {

/// The grid entries of a sequence of cells.
pub open spec fn values_of(cells: Seq<Cell>) -> Seq<Option<usize>> {
    Seq::new(cells.len(), |i: int| cells[i].number())
}

/// The cells built for a sequence of grid entries.
pub open spec fn cells_for(values: Seq<Option<usize>>) -> Seq<Cell> {
    Seq::new(values.len(), |i: int| cell_for(values[i]))
}

/// The cells after a reset: every editable cell emptied, fixed cells kept.
pub open spec fn reset_cells(cells: Seq<Cell>) -> Seq<Cell> {
    Seq::new(cells.len(), |i: int| cells[i].after_reset())
}

/// The cells holding the digits of a full grid, each keeping whether it is fixed.
pub open spec fn filled_cells(cells: Seq<Cell>, digits: Seq<Option<usize>>) -> Seq<Cell> {
    Seq::new(
        cells.len(),
        |i: int| Cell { value: Some(Value::of_digit(digits[i].unwrap() as nat)), ..cells[i] },
    )
}

/// Every position on the board has exactly one index, and every index one
/// position: a board of 81 cells holds exactly one cell per position.
pub proof fn lemma_one_cell_per_position(p: CellPosition)
    requires
        p.is_valid(),
    ensures
        0 <= p.index() < 81,
        position_of(p.index()) == p,
        forall|i: int| 0 <= i < 81 && #[trigger] position_of(i) == p ==> i == p.index(),
{
    assert(position_of(p.index()) == p);
    assert forall|i: int| 0 <= i < 81 && #[trigger] position_of(i) == p implies i == p.index() by {
        assert((i / 9) * 9 + i % 9 == i);
    }
}

/// Resetting twice leaves the cells as resetting once does.
pub proof fn lemma_reset_idempotent(cells: Seq<Cell>)
    ensures
        reset_cells(reset_cells(cells)) == reset_cells(cells),
{
    assert(reset_cells(reset_cells(cells)) =~= reset_cells(cells));
}

/// The 81 cells of a Sudoku board.
pub struct Board {
    cells: Vec<Cell>,
}

impl View for Board {
    type V = Seq<Cell>;

    closed spec fn view(&self) -> Seq<Cell> {
        self.cells@
    }
}

impl Board {
    /// The board has one cell for each position.
    pub open spec fn wf(&self) -> bool {
        self@.len() == 81
    }

    /// A board of 81 empty cells, all editable.
    pub fn new() -> (b: Board)
        ensures
            b.wf(),
            forall|i: int| 0 <= i < 81 ==> #[trigger] b@[i] == (Cell { value: None, enabled: true }),
    {
        let mut cells: Vec<Cell> = Vec::new();
        let mut i: usize = 0;
        while i < 81
            invariant
                i <= 81,
                cells@.len() == i,
                forall|j: int| 0 <= j < i ==> #[trigger] cells@[j] == (Cell { value: None, enabled: true }),
            decreases 81 - i,
        {
            cells.push(Cell { value: None, enabled: true });
            i = i + 1;
        }
        Board { cells }
    }

    /// The board for a grid given row by row: each digit becomes a fixed
    /// cell holding it, each empty entry an empty editable cell.
    pub fn from_values(values: &Vec<Option<usize>>) -> (b: Board)
        requires
            well_formed_grid(values@),
        ensures
            b.wf(),
            b@ == cells_for(values@),
            values_of(b@) == values@,
    {
        let mut cells: Vec<Cell> = Vec::new();
        let mut i: usize = 0;
        while i < 81
            invariant
                i <= 81,
                well_formed_grid(values@),
                cells@.len() == i,
                forall|j: int| 0 <= j < i ==> #[trigger] cells@[j] == cell_for(values@[j]),
            decreases 81 - i,
        {
            assert(crate::rules::is_digit_entry(values@[i as int]));
            cells.push(Cell::new(values[i]));
            i = i + 1;
        }
        let b = Board { cells };
        assert(b@ =~= cells_for(values@));
        assert forall|j: int| 0 <= j < 81 implies #[trigger] values_of(b@)[j] == values@[j] by {
            assert(crate::rules::is_digit_entry(values@[j]));
            if values@[j] is Some {
                Value::lemma_of_digit_round_trip(values@[j].unwrap() as nat);
            }
        }
        assert(values_of(b@) =~= values@);
        b
    }

    /// The cell at a position.
    pub fn cell(&self, p: CellPosition) -> (c: Cell)
        requires
            self.wf(),
            p.is_valid(),
        ensures
            c == self@[p.index()],
    {
        self.cells[p.to_index()]
    }

    /// The grid entries of the board, row by row.
    pub fn values(&self) -> (v: Vec<Option<usize>>)
        requires
            self.wf(),
        ensures
            v@ == values_of(self@),
            well_formed_grid(v@),
    {
        let mut v: Vec<Option<usize>> = Vec::new();
        let mut i: usize = 0;
        while i < 81
            invariant
                i <= 81,
                self.wf(),
                v@.len() == i,
                forall|j: int| 0 <= j < i ==> #[trigger] v@[j] == self@[j].number(),
            decreases 81 - i,
        {
            v.push(self.cells[i].to_number());
            i = i + 1;
        }
        assert(v@ =~= values_of(self@));
        assert forall|j: int| 0 <= j < 81 implies #[trigger] crate::rules::is_digit_entry(v@[j]) by {
            if let Some(d) = self@[j].value {
                d.lemma_digit_round_trip();
            }
        }
        v
    }

    /// Puts `value` in the cell at `p`, or empties it, unless that cell is fixed.
    pub fn enter(&mut self, p: CellPosition, value: Option<Value>)
        requires
            old(self).wf(),
            p.is_valid(),
        ensures
            final(self).wf(),
            old(self)@[p.index()].enabled ==> final(self)@ == old(self)@.update(
                p.index(),
                Cell { value, ..old(self)@[p.index()] },
            ),
            !old(self)@[p.index()].enabled ==> final(self)@ == old(self)@,
    {
        let i = p.to_index();
        self.cells[i].enter(value);
    }

    /// Empties every editable cell; fixed cells keep their digit.
    pub fn reset(&mut self)
        requires
            old(self).wf(),
        ensures
            final(self).wf(),
            final(self)@ == reset_cells(old(self)@),
    {
        let mut i: usize = 0;
        while i < 81
            invariant
                i <= 81,
                self@.len() == 81,
                old(self)@.len() == 81,
                forall|j: int| 0 <= j < i ==> #[trigger] self@[j] == old(self)@[j].after_reset(),
                forall|j: int| i <= j < 81 ==> #[trigger] self@[j] == old(self)@[j],
            decreases 81 - i,
        {
            self.cells[i].reset();
            i = i + 1;
        }
        assert(self@ =~= reset_cells(old(self)@));
    }

    /// Writes the digits of a full grid into every cell, fixed or not.
    pub fn fill(&mut self, digits: &Vec<Option<usize>>)
        requires
            old(self).wf(),
            is_full(digits@),
        ensures
            final(self).wf(),
            final(self)@ == filled_cells(old(self)@, digits@),
            values_of(final(self)@) == digits@,
    {
        let mut i: usize = 0;
        while i < 81
            invariant
                i <= 81,
                is_full(digits@),
                self@.len() == 81,
                old(self)@.len() == 81,
                forall|j: int| 0 <= j < i ==> #[trigger] self@[j] == filled_cells(old(self)@, digits@)[j],
                forall|j: int| i <= j < 81 ==> #[trigger] self@[j] == old(self)@[j],
            decreases 81 - i,
        {
            assert(digits@[i as int] is Some);
            let d = digits[i].unwrap();
            self.cells[i].set_value(Value::from_usize(d));
            i = i + 1;
        }
        assert(self@ =~= filled_cells(old(self)@, digits@));
        assert forall|j: int| 0 <= j < 81 implies #[trigger] values_of(self@)[j] == digits@[j] by {
            assert(digits@[j] is Some);
            Value::lemma_of_digit_round_trip(digits@[j].unwrap() as nat);
        }
        assert(values_of(self@) =~= digits@);
    }
}

} // verus!

verus! {

/// The positions whose entries differ between two boards given row by row,
/// in row order: the cells to redraw.
pub fn changed_positions(before: &Vec<Option<usize>>, after: &Vec<Option<usize>>) -> (out: Vec<
    CellPosition,
>)
    requires
        before@.len() == 81,
        after@.len() == 81,
    ensures
        forall|k: int|
            0 <= k < out@.len() ==> (#[trigger] out@[k]).is_valid() && before@[out@[k].index()]
                != after@[out@[k].index()],
        forall|k1: int, k2: int|
            0 <= k1 < k2 < out@.len() ==> (#[trigger] out@[k1]).index() < (#[trigger] out@[k2]).index(),
        forall|i: int|
            0 <= i < 81 && before@[i] != after@[i] ==> exists|k: int|
                0 <= k < out@.len() && (#[trigger] out@[k]).index() == i,
{
    let mut out: Vec<CellPosition> = Vec::new();
    let mut i: usize = 0;
    while i < 81
        invariant
            i <= 81,
            before@.len() == 81,
            after@.len() == 81,
            forall|k: int|
                0 <= k < out@.len() ==> (#[trigger] out@[k]).is_valid() && out@[k].index() < i
                    && before@[out@[k].index()] != after@[out@[k].index()],
            forall|k1: int, k2: int|
                0 <= k1 < k2 < out@.len() ==> (#[trigger] out@[k1]).index() < (#[trigger] out@[k2]).index(),
            forall|j: int|
                0 <= j < i && before@[j] != after@[j] ==> exists|k: int|
                    0 <= k < out@.len() && (#[trigger] out@[k]).index() == j,
        decreases 81 - i,
    {
        let ghost prev = out@;
        if before[i] != after[i] {
            let p = CellPosition::from_index(i);
            out.push(p);
            assert(out@[out@.len() - 1].index() == i);
        }
        assert forall|j: int| 0 <= j <= i && before@[j] != after@[j] implies exists|k: int|
            0 <= k < out@.len() && (#[trigger] out@[k]).index() == j by {
            if j < i {
                let k = choose|k: int| 0 <= k < prev.len() && (#[trigger] prev[k]).index() == j;
                assert(out@[k] == prev[k]);
            } else {
                assert(out@[out@.len() - 1].index() == j);
            }
        }
        i = i + 1;
    }
    out
}

} // verus!
