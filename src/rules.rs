//! The rules of a 9×9 Sudoku over a grid of optional digits, stored row by
//! row: cell `i` lies in row `i / 9` and column `i % 9`.
use vstd::prelude::*;

verus! {

/// Width and height of one box of the grid.
pub const BOX_SIZE: usize = 3;

/// Row of the cell stored at index `i`.
pub open spec fn row_of(i: int) -> int {
    i / 9
}

/// Column of the cell stored at index `i`.
pub open spec fn col_of(i: int) -> int {
    i % 9
}

/// Box of the cell stored at index `i`, numbered row by row from zero.
pub open spec fn box_of(i: int) -> int {
    (row_of(i) / 3) * 3 + col_of(i) / 3
}

/// Whether two cells share a row, a column or a box.
pub open spec fn same_unit(i: int, j: int) -> bool {
    row_of(i) == row_of(j) || col_of(i) == col_of(j) || box_of(i) == box_of(j)
}

/// A cell entry is empty or a digit from one to nine.
pub open spec fn is_digit_entry(c: Option<usize>) -> bool {
    c matches Some(n) ==> 1 <= n <= 9
}

/// 81 entries, each empty or a digit.
pub open spec fn well_formed_grid(g: Seq<Option<usize>>) -> bool {
    &&& g.len() == 81
    &&& forall|i: int| 0 <= i < 81 ==> #[trigger] is_digit_entry(g[i])
}

/// No digit occurs twice in a row, a column or a box.
pub open spec fn consistent(g: Seq<Option<usize>>) -> bool {
    forall|i: int, j: int|
        0 <= i < 81 && 0 <= j < 81 && i != j && (#[trigger] g[i]) is Some && g[i] == (#[trigger] g[j])
            ==> !same_unit(i, j)
}

/// Every one of the 81 cells holds a digit.
pub open spec fn is_full(g: Seq<Option<usize>>) -> bool {
    &&& g.len() == 81
    &&& forall|i: int| 0 <= i < 81 ==> (#[trigger] g[i]) is Some && 1 <= g[i].unwrap() <= 9
}

/// Every digit of `p` stands at the same place in `q`: `q` keeps the clues of `p`.
pub open spec fn clues_within(p: Seq<Option<usize>>, q: Seq<Option<usize>>) -> bool {
    &&& p.len() == q.len()
    &&& forall|i: int| 0 <= i < p.len() ==> (#[trigger] p[i]) is None || p[i] == q[i]
}

/// `g` is a solution of the puzzle `p`: a full, consistent grid that keeps its clues.
pub open spec fn is_solution(g: Seq<Option<usize>>, p: Seq<Option<usize>>) -> bool {
    &&& is_full(g)
    &&& consistent(g)
    &&& clues_within(p, g)
}

/// The puzzle has at least one solution.
pub open spec fn has_solution(p: Seq<Option<usize>>) -> bool {
    exists|g: Seq<Option<usize>>| is_solution(g, p)
}

/// The puzzle has exactly one solution.
pub open spec fn has_unique_solution(p: Seq<Option<usize>>) -> bool {
    exists|g: Seq<Option<usize>>|
        is_solution(g, p) && forall|h: Seq<Option<usize>>| is_solution(h, p) ==> h == g
}

/// The puzzle has two different solutions.
pub open spec fn is_ambiguous(p: Seq<Option<usize>>) -> bool {
    exists|g: Seq<Option<usize>>, h: Seq<Option<usize>>|
        is_solution(g, p) && is_solution(h, p) && g != h
}

/// Every clue of the puzzle is needed: taking any one away leaves a puzzle
/// without a unique solution.
pub open spec fn clues_all_needed(p: Seq<Option<usize>>) -> bool {
    forall|i: int|
        0 <= i < 81 && (#[trigger] p[i]) is Some ==> !has_unique_solution(p.update(i, None))
}

/// A consistent puzzle has no solution, exactly one, or two different ones,
/// and never two of these at once.
pub proof fn lemma_solution_cases(p: Seq<Option<usize>>)
    ensures
        has_unique_solution(p) <==> (has_solution(p) && !is_ambiguous(p)),
{
    if has_unique_solution(p) {
        let g = choose|g: Seq<Option<usize>>|
            is_solution(g, p) && forall|h: Seq<Option<usize>>| is_solution(h, p) ==> h == g;
        assert(is_solution(g, p));
        if is_ambiguous(p) {
            let (a, b) = choose|a: Seq<Option<usize>>, b: Seq<Option<usize>>|
                is_solution(a, p) && is_solution(b, p) && a != b;
            assert(a == g);
            assert(b == g);
        }
    }
    if has_solution(p) && !is_ambiguous(p) {
        let g = choose|g: Seq<Option<usize>>| is_solution(g, p);
        assert forall|h: Seq<Option<usize>>| is_solution(h, p) implies h == g by {
            if h != g {
                assert(is_solution(g, p) && is_solution(h, p) && g != h);
            }
        }
    }
}

/// A full grid is the only grid that keeps all of its digits: its only
/// solution, if any, is itself.
pub proof fn lemma_full_grid_solutions(full: Seq<Option<usize>>, g: Seq<Option<usize>>)
    requires
        is_full(full),
        is_solution(g, full),
    ensures
        g == full,
{
    assert forall|i: int| 0 <= i < 81 implies g[i] == full[i] by {
        assert(full[i] is Some);
    }
    assert(g =~= full);
}

/// A consistent full grid has exactly one solution: itself.
pub proof fn lemma_full_grid_unique(full: Seq<Option<usize>>)
    requires
        is_full(full),
        consistent(full),
    ensures
        is_solution(full, full),
        has_unique_solution(full),
{
    assert(is_solution(full, full));
    assert forall|h: Seq<Option<usize>>| is_solution(h, full) implies h == full by {
        lemma_full_grid_solutions(full, h);
    }
}

/// Removing clues keeps a puzzle consistent.
pub proof fn lemma_fewer_clues_consistent(p: Seq<Option<usize>>, q: Seq<Option<usize>>)
    requires
        clues_within(p, q),
        q.len() == 81,
        consistent(q),
    ensures
        consistent(p),
{
    assert forall|i: int, j: int|
        0 <= i < 81 && 0 <= j < 81 && i != j && (#[trigger] p[i]) is Some && p[i] == (#[trigger] p[j])
        implies !same_unit(i, j) by {
        assert(p[i] == q[i]);
        assert(p[j] == q[j]);
    }
}

} // verus!
