//! Puzzles of the `sudoku_variants` engine: generating, checking and solving.
//!
//! A puzzle holds the engine's `Sudoku` with the standard rules. Its cells are
//! known to the proofs through `puzzle_cells`, row by row, and its block
//! dimensions through `puzzle_dims`.
use vstd::prelude::*;

use sudoku_variants::constraint::DefaultConstraint;
use sudoku_variants::error::SudokuError;
use sudoku_variants::generator::Generator;
use sudoku_variants::generator::Reducer;
use sudoku_variants::solver::BacktrackingSolver;
use sudoku_variants::solver::Solution;
use sudoku_variants::solver::Solver;
use sudoku_variants::Sudoku;

use crate::error::GameError;
use crate::rules::BOX_SIZE;
use crate::rules::clues_all_needed;
use crate::rules::clues_within;
use crate::rules::consistent;
use crate::rules::has_solution;
use crate::rules::has_unique_solution;
use crate::rules::is_ambiguous;
use crate::rules::is_digit_entry;
use crate::rules::is_full;
use crate::rules::is_solution;
use crate::rules::lemma_fewer_clues_consistent;
use crate::rules::lemma_full_grid_solutions;
use crate::rules::lemma_full_grid_unique;
use crate::rules::well_formed_grid;

verus! {

/// The engine's error type, carried through without looking inside.
#[verifier::external_type_specification]
#[verifier::external_body]
pub struct ExSudokuError(SudokuError);

/// A puzzle of the engine under the standard row, column and box rules.
///
/// The engine's `Sudoku<C>` is bounded by a trait of the engine and cannot be
/// declared to the verifier directly, so it is kept here as an opaque value,
/// seen only through `puzzle_cells` and `puzzle_dims`.
#[verifier::external_body]
pub struct Puzzle {
    sudoku: Sudoku<DefaultConstraint>,
}

/// The cells of a puzzle's grid, row by row.
pub uninterp spec fn puzzle_cells(s: Puzzle) -> Seq<Option<usize>>;

/// The block width and block height a puzzle's grid was made with.
pub uninterp spec fn puzzle_dims(s: Puzzle) -> (nat, nat);

/// Number of rows (and of columns) of a puzzle's grid.
pub open spec fn puzzle_size(s: Puzzle) -> nat {
    puzzle_dims(s).0 * puzzle_dims(s).1
}

/// The grid of `s` has the shape its dimensions give, and each cell is empty
/// or holds a number from one to the grid's size.
pub open spec fn puzzle_sound(s: Puzzle) -> bool {
    let size = puzzle_size(s);
    &&& puzzle_dims(s).0 > 0
    &&& puzzle_dims(s).1 > 0
    &&& puzzle_cells(s).len() == size * size
    &&& forall|i: int|
        0 <= i < puzzle_cells(s).len() ==> (#[trigger] puzzle_cells(s)[i] matches Some(n) ==> 1 <= n
            <= size)
}

/// `s` is a sound puzzle on the ordinary 9×9 grid of 3×3 boxes.
pub open spec fn is_standard(s: Puzzle) -> bool {
    puzzle_dims(s) == (3nat, 3nat) && puzzle_sound(s)
}

/// What the engine's solver found.
pub enum Verdict {
    /// No grid solves the puzzle.
    Impossible,
    /// Exactly one grid solves the puzzle; here are its cells, row by row.
    Unique(Vec<Option<usize>>),
    /// More than one grid solves the puzzle.
    Ambiguous,
}

/// Relies on `Sudoku::new_empty`: an empty grid with the given block
/// dimensions, refused only when one of them is zero.
#[verifier::external_body]
pub(crate) fn new_empty_puzzle(block_width: usize, block_height: usize) -> (r: Result<Puzzle, SudokuError>)
    requires
        block_width * block_height * block_width * block_height <= usize::MAX,
    ensures
        r is Ok <==> (block_width > 0 && block_height > 0),
        r matches Ok(s) ==> {
            &&& puzzle_dims(s) == (block_width as nat, block_height as nat)
            &&& puzzle_cells(s) == Seq::new(
                (block_width * block_height * block_width * block_height) as nat,
                |i: int| None::<usize>,
            )
        },
{
    Sudoku::new_empty(block_width, block_height, DefaultConstraint).map(|sudoku| Puzzle { sudoku })
}

/// (column, row) lies inside the grid of `s` and `number` is one of its digits.
pub open spec fn set_cell_fits(s: Puzzle, column: usize, row: usize, number: usize) -> bool {
    column < puzzle_size(s) && row < puzzle_size(s) && 1 <= number <= puzzle_size(s)
}

/// Relies on `SudokuGrid::set_cell`, reached through `Sudoku::grid_mut`: the
/// number is written at (column, row) when both lie inside the grid and the
/// number lies in `1..=size`; otherwise an error, and the grid is unchanged.
#[verifier::external_body]
pub(crate) fn puzzle_set_cell(s: &mut Puzzle, column: usize, row: usize, number: usize) -> (r: Result<(), SudokuError>)
    requires
        puzzle_sound(*old(s)),
    ensures
        puzzle_dims(*final(s)) == puzzle_dims(*old(s)),
        set_cell_fits(*old(s), column, row, number) ==> r is Ok,
        set_cell_fits(*old(s), column, row, number) ==> puzzle_cells(*final(s)) == puzzle_cells(
            *old(s),
        ).update(row * puzzle_size(*old(s)) + column, Some(number)),
        !set_cell_fits(*old(s), column, row, number) ==> r is Err,
        !set_cell_fits(*old(s), column, row, number) ==> puzzle_cells(*final(s)) == puzzle_cells(
            *old(s),
        ),
{
    s.sudoku.grid_mut().set_cell(column, row, number)
}

/// Relies on `SudokuGrid::cells`, reached through `Sudoku::grid`: a copy of
/// the grid's cells, row by row.
#[verifier::external_body]
pub(crate) fn puzzle_cell_values(s: &Puzzle) -> (r: Vec<Option<usize>>)
    ensures
        r@ == puzzle_cells(*s),
{
    s.sudoku.grid().cells().clone()
}

/// Relies on `Sudoku::is_valid` under `DefaultConstraint`: true exactly when
/// no number repeats in a row, a column or a block.
#[verifier::external_body]
pub(crate) fn puzzle_is_valid(s: &Puzzle) -> (r: bool)
    requires
        puzzle_sound(*s),
    ensures
        puzzle_dims(*s) == (3nat, 3nat) ==> r == consistent(puzzle_cells(*s)),
{
    s.sudoku.is_valid()
}

/// Relies on `BacktrackingSolver::solve`, which searches every completion:
/// on a puzzle whose clues break no rule it reports no solution, the one
/// solution, or that there are several. Its search recurses once per cell,
/// so only the 9×9 grid is handed to it.
#[verifier::external_body]
pub(crate) fn solve_puzzle(s: &Puzzle) -> (r: Verdict)
    requires
        is_standard(*s),
    ensures
        consistent(puzzle_cells(*s)) ==> match r {
            Verdict::Impossible => !has_solution(puzzle_cells(*s)),
            Verdict::Unique(g) => {
                &&& is_solution(g@, puzzle_cells(*s))
                &&& forall|h: Seq<Option<usize>>| is_solution(h, puzzle_cells(*s)) ==> h == g@
            },
            Verdict::Ambiguous => is_ambiguous(puzzle_cells(*s)),
        },
{
    match BacktrackingSolver.solve(&s.sudoku) {
        Solution::Impossible => Verdict::Impossible,
        Solution::Unique(grid) => Verdict::Unique(grid.cells().clone()),
        Solution::Ambiguous => Verdict::Ambiguous,
    }
}

/// Relies on `Generator::new_default` and `Generator::generate`: a random
/// full grid with the given block dimensions that `Sudoku::is_valid` accepts.
/// The search tries every digit in every cell until the grid is full, so it
/// fails only when no valid grid exists, which is never the case for 3×3
/// blocks; it recurses once per cell, so only that size is asked for.
#[verifier::external_body]
pub(crate) fn generate_full_puzzle(block_width: usize, block_height: usize) -> (r: Result<Puzzle, SudokuError>)
    requires
        block_width == 3,
        block_height == 3,
    ensures
        r is Ok,
        r matches Ok(s) ==> {
            &&& puzzle_dims(s) == (block_width as nat, block_height as nat)
            &&& puzzle_sound(s)
            &&& forall|i: int| 0 <= i < puzzle_cells(s).len() ==> (#[trigger] puzzle_cells(s)[i]) is Some
            &&& consistent(puzzle_cells(s))
        },
{
    Generator::new_default().generate(block_width, block_height, DefaultConstraint).map(
        |sudoku| Puzzle { sudoku },
    )
}

/// Relies on `Reducer::new_default` and `Reducer::reduce`: every clue is
/// tried once, in random order, and its removal is kept only when the
/// backtracking solver still finds a unique solution. So on a consistent
/// puzzle with a unique solution, every clue left is needed: without it the
/// solution would no longer be unique.
#[verifier::external_body]
pub(crate) fn reduce_puzzle(s: &mut Puzzle)
    requires
        is_standard(*old(s)),
    ensures
        puzzle_dims(*final(s)) == puzzle_dims(*old(s)),
        puzzle_sound(*final(s)),
        clues_within(puzzle_cells(*final(s)), puzzle_cells(*old(s))),
        consistent(puzzle_cells(*old(s))) ==> puzzle_cells(*final(s)) == puzzle_cells(*old(s))
            || has_unique_solution(puzzle_cells(*final(s))),
        consistent(puzzle_cells(*old(s))) && has_unique_solution(puzzle_cells(*old(s)))
            ==> clues_all_needed(puzzle_cells(*final(s))),
{
    Reducer::new_default().reduce(&mut s.sudoku)
}

} // verus!

verus! {

/// Reducing a full, consistent grid — to itself, or to a puzzle with a
/// unique solution that keeps some of its digits — yields a puzzle whose one
/// and only solution is the grid it was reduced from.
pub proof fn lemma_reduction_keeps_solution(full: Seq<Option<usize>>, reduced: Seq<Option<usize>>)
    requires
        is_full(full),
        consistent(full),
        clues_within(reduced, full),
        reduced == full || has_unique_solution(reduced),
    ensures
        is_solution(full, reduced),
        has_unique_solution(reduced),
        forall|g: Seq<Option<usize>>| is_solution(g, reduced) ==> g == full,
{
    assert(is_solution(full, reduced));
    if reduced == full {
        lemma_full_grid_unique(full);
        assert forall|g: Seq<Option<usize>>| is_solution(g, reduced) implies g == full by {
            lemma_full_grid_solutions(full, g);
        }
    } else {
        let u = choose|u: Seq<Option<usize>>|
            is_solution(u, reduced) && forall|h: Seq<Option<usize>>| is_solution(h, reduced) ==> h == u;
        assert(full == u);
    }
}

/// A sound puzzle on the 9×9 grid has 81 entries, each empty or a digit.
proof fn lemma_standard_well_formed(s: Puzzle)
    requires
        is_standard(s),
    ensures
        well_formed_grid(puzzle_cells(s)),
{
    let size = puzzle_size(s);
    assert(size == 9) by {
        assert(puzzle_dims(s).0 == 3 && puzzle_dims(s).1 == 3);
    }
    assert(size * size == 81) by (nonlinear_arith)
        requires
            size == 9,
    ;
    assert(puzzle_cells(s).len() == 81);
    assert forall|i: int| 0 <= i < 81 implies #[trigger] is_digit_entry(puzzle_cells(s)[i]) by {
        assert(puzzle_cells(s)[i] matches Some(n) ==> 1 <= n <= size);
    }
}

/// The engine's puzzle holding the given entries, row by row, on the 9×9
/// grid of 3×3 boxes.
pub(crate) fn puzzle_from_values(values: &Vec<Option<usize>>) -> (p: Puzzle)
    requires
        well_formed_grid(values@),
    ensures
        is_standard(p),
        puzzle_cells(p) == values@,
{
    let mut puzzle = new_empty_puzzle(BOX_SIZE, BOX_SIZE).unwrap();
    proof {
        assert(puzzle_size(puzzle) == 9);
        assert(puzzle_cells(puzzle).len() == 81) by {
            assert(3 * 3 * 3 * 3 == 81);
        }
    }
    let mut i: usize = 0;
    while i < 81
        invariant
            i <= 81,
            well_formed_grid(values@),
            puzzle_dims(puzzle) == (3nat, 3nat),
            is_standard(puzzle),
            puzzle_cells(puzzle).len() == 81,
            forall|j: int| 0 <= j < i ==> #[trigger] puzzle_cells(puzzle)[j] == values@[j],
            forall|j: int| i <= j < 81 ==> #[trigger] puzzle_cells(puzzle)[j] is None,
        decreases 81 - i,
    {
        if let Some(n) = values[i] {
            assert(is_digit_entry(values@[i as int]));
            assert((i / 9) as int * 9 + (i % 9) as int == i as int);
            assert(set_cell_fits(puzzle, i % 9, i / 9, n));
            let _ = puzzle_set_cell(&mut puzzle, i % 9, i / 9, n);
            assert forall|j: int| 0 <= j < puzzle_cells(puzzle).len() implies (
            #[trigger] puzzle_cells(puzzle)[j] matches Some(m) ==> 1 <= m <= puzzle_size(puzzle)) by {
                if j != i {
                    assert(puzzle_cells(puzzle)[j] is None || j < i);
                }
            }
        }
        i = i + 1;
    }
    assert(puzzle_cells(puzzle) =~= values@);
    puzzle
}

/// A random full grid for the 9×9 board, row by row, that breaks no rule.
/// The engine's search always finds one.
pub fn generate_solution() -> (r: Result<Vec<Option<usize>>, GameError>)
    ensures
        r is Ok,
        r matches Ok(v) ==> is_full(v@) && consistent(v@),
{
    let puzzle = match generate_full_puzzle(BOX_SIZE, BOX_SIZE) {
        Ok(p) => p,
        Err(_) => {
            return Err(GameError::GenerationFailed);
        },
    };
    let values = puzzle_cell_values(&puzzle);
    proof {
        lemma_standard_well_formed(puzzle);
    }
    Ok(values)
}

/// Removes clues from a grid given row by row, in random order, for as long
/// as the solution stays unique. The result keeps only clues of the grid; a
/// consistent grid stays consistent, and one with a unique solution keeps
/// exactly that solution, with no clue left that could be spared.
pub fn reduce_grid(values: &Vec<Option<usize>>) -> (r: Vec<Option<usize>>)
    requires
        well_formed_grid(values@),
    ensures
        well_formed_grid(r@),
        clues_within(r@, values@),
        consistent(values@) ==> consistent(r@),
        consistent(values@) ==> r@ == values@ || has_unique_solution(r@),
        consistent(values@) && has_unique_solution(values@) ==> {
            &&& has_unique_solution(r@)
            &&& forall|g: Seq<Option<usize>>| is_solution(g, r@) <==> is_solution(g, values@)
            &&& clues_all_needed(r@)
        },
{
    let mut puzzle = puzzle_from_values(values);
    reduce_puzzle(&mut puzzle);
    let reduced = puzzle_cell_values(&puzzle);
    proof {
        lemma_standard_well_formed(puzzle);
        if consistent(values@) {
            lemma_fewer_clues_consistent(reduced@, values@);
            if has_unique_solution(values@) {
                lemma_reduction_keeps_unique_solution(values@, reduced@);
            }
        }
    }
    reduced
}

/// Taking clues away from a puzzle with a unique solution, down to a puzzle
/// that again has a unique solution, keeps that solution.
proof fn lemma_reduction_keeps_unique_solution(p: Seq<Option<usize>>, q: Seq<Option<usize>>)
    requires
        has_unique_solution(p),
        clues_within(q, p),
        q == p || has_unique_solution(q),
    ensures
        has_unique_solution(q),
        forall|g: Seq<Option<usize>>| is_solution(g, q) <==> is_solution(g, p),
{
    let w = choose|w: Seq<Option<usize>>|
        is_solution(w, p) && forall|h: Seq<Option<usize>>| is_solution(h, p) ==> h == w;
    if q != p {
        assert(is_solution(w, q)) by {
            assert forall|i: int| 0 <= i < q.len() implies (#[trigger] q[i]) is None || q[i] == w[i] by {
                if q[i] is Some {
                    assert(p[i] == q[i]);
                }
            }
        }
        let u = choose|u: Seq<Option<usize>>|
            is_solution(u, q) && forall|h: Seq<Option<usize>>| is_solution(h, q) ==> h == u;
        assert(w == u);
    }
}

/// A new puzzle for the 9×9 board, row by row: a random full grid of the
/// engine with clues removed for as long as its solution stays unique. The
/// puzzle breaks no rule, has exactly one solution, and every clue in it is
/// needed for that.
pub fn generate_puzzle() -> (r: Result<Vec<Option<usize>>, GameError>)
    ensures
        r is Ok,
        r matches Ok(v) ==> {
            &&& well_formed_grid(v@)
            &&& consistent(v@)
            &&& has_unique_solution(v@)
            &&& clues_all_needed(v@)
        },
{
    let full = generate_solution()?;
    proof {
        lemma_full_grid_unique(full@);
    }
    let reduced = reduce_grid(&full);
    proof {
        lemma_reduction_keeps_solution(full@, reduced@);
    }
    Ok(reduced)
}

} // verus!
