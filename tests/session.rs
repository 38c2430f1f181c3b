use sudoku_game::Cell;
use sudoku_game::CellPosition;
use sudoku_game::GameError;
use sudoku_game::Intent;
use sudoku_game::Outcome;
use sudoku_game::Session;
use sudoku_game::Value;
use sudoku_game::generate_solution;
use sudoku_game::reduce_grid;

const PUZZLE: &str = "\
53..7....\
6..195...\
.98....6.\
8...6...3\
4..8.3..1\
7...2...6\
.6....28.\
...419..5\
....8..79";

const SOLUTION: &str = "\
534678912\
672195348\
198342567\
859761423\
426853791\
713924856\
961537284\
287419635\
345286179";

fn grid(text: &str) -> Vec<Option<usize>> {
    text.chars()
        .map(|c| c.to_digit(10).map(|d| d as usize))
        .collect()
}

fn all_positions() -> Vec<CellPosition> {
    let mut out = Vec::new();
    for y in 0..9 {
        for x in 0..9 {
            out.push(CellPosition::new(x, y));
        }
    }
    out
}

fn session_with_values(values: Vec<Option<usize>>) -> Session {
    let mut s = Session::new();
    assert!(s.request_new_game());
    assert_eq!(s.complete_generation(Ok(values)), Ok(()));
    s
}

fn session_with(text: &str) -> Session {
    session_with_values(grid(text))
}

#[test]
fn new_session_is_empty_and_editable() {
    let s = Session::new();
    assert_eq!(s.selected(), None);
    assert!(!s.is_generating());
    for p in all_positions() {
        assert_eq!(s.cell(p), Cell { value: None, enabled: true });
    }
    assert_eq!(s.values(), vec![None; 81]);
}

#[test]
fn one_cell_per_position() {
    let s = session_with(PUZZLE);
    let values = grid(PUZZLE);
    let mut seen = vec![0usize; 81];
    for p in all_positions() {
        let i = p.to_index();
        seen[i] += 1;
        assert_eq!(CellPosition::from_index(i), p);
        assert_eq!(s.cell(p), Cell::new(values[i]));
    }
    assert!(seen.iter().all(|&n| n == 1));
    assert_eq!(s.values().len(), 81);
}

#[test]
fn set_value_on_fixed_cell_changes_nothing() {
    let mut s = session_with(PUZZLE);
    let given = CellPosition::new(0, 0);
    assert!(s.cell(given).is_disabled());
    s.select_cell(given);
    assert_eq!(s.selected(), Some(given));
    s.set_value(Some(Value::Nine));
    assert_eq!(s.cell(given).value(), Some(Value::Five));
    s.set_value(None);
    assert_eq!(s.cell(given).value(), Some(Value::Five));
}

#[test]
fn set_value_fills_and_clears_editable_cell() {
    let mut s = session_with(PUZZLE);
    let blank = CellPosition::new(2, 0);
    s.select_cell(blank);
    s.set_value(Some(Value::Four));
    assert_eq!(s.cell(blank), Cell { value: Some(Value::Four), enabled: true });
    s.set_value(None);
    assert_eq!(s.cell(blank), Cell { value: None, enabled: true });
}

#[test]
fn set_value_without_selection_is_ignored() {
    let mut s = Session::new();
    s.set_value(Some(Value::One));
    assert_eq!(s.values(), vec![None; 81]);
}

#[test]
fn second_selection_replaces_first() {
    let mut s = Session::new();
    let p = CellPosition::new(1, 2);
    let q = CellPosition::new(7, 8);
    assert_eq!(s.select_cell(p), None);
    assert_eq!(s.select_cell(q), Some(p));
    assert_eq!(s.selected(), Some(q));
    assert_eq!(s.select_cell(q), None);
    assert_eq!(s.selected(), Some(q));
}

#[test]
fn selecting_off_the_board_is_ignored() {
    let mut s = Session::new();
    let p = CellPosition::new(3, 3);
    s.select_cell(p);
    assert_eq!(s.select_cell(CellPosition::new(9, 0)), None);
    assert_eq!(s.selected(), Some(p));
}

#[test]
fn reset_clears_only_editable_cells() {
    let mut s = session_with(PUZZLE);
    let blank = CellPosition::new(2, 0);
    s.select_cell(blank);
    s.set_value(Some(Value::Four));
    s.reset();
    assert_eq!(s.values(), grid(PUZZLE));
    assert_eq!(s.cell(blank), Cell { value: None, enabled: true });
    assert_eq!(s.cell(CellPosition::new(1, 0)), Cell { value: Some(Value::Three), enabled: false });
    assert_eq!(s.selected(), Some(blank));
}

#[test]
fn reset_twice_equals_reset_once() {
    let mut s = session_with(PUZZLE);
    s.select_cell(CellPosition::new(2, 0));
    s.set_value(Some(Value::Four));
    s.select_cell(CellPosition::new(8, 8));
    s.set_value(Some(Value::One));
    s.reset();
    let once = s.values();
    let selected = s.selected();
    s.reset();
    assert_eq!(s.values(), once);
    assert_eq!(s.selected(), selected);
}

#[test]
fn clear_selection_when_unselected_is_noop() {
    let mut s = session_with(PUZZLE);
    let before = s.values();
    s.clear_selection();
    assert_eq!(s.selected(), None);
    s.clear_selection();
    assert_eq!(s.selected(), None);
    assert_eq!(s.values(), before);
    s.select_cell(CellPosition::new(4, 4));
    s.clear_selection();
    assert_eq!(s.selected(), None);
}

#[test]
fn solve_fills_unique_solution() {
    let mut s = session_with(PUZZLE);
    let p = CellPosition::new(2, 0);
    s.select_cell(p);
    assert_eq!(s.solve(), Ok(()));
    assert_eq!(s.values(), grid(SOLUTION));
    assert_eq!(s.selected(), Some(p));
    assert!(s.cell(CellPosition::new(0, 0)).is_disabled());
    assert!(s.cell(p).is_enabled());
}

#[test]
fn solve_empty_board_is_ambiguous() {
    let mut s = Session::new();
    assert_eq!(s.solve(), Err(GameError::SolveAmbiguous));
    assert_eq!(s.values(), vec![None; 81]);
}

#[test]
fn solve_with_repeated_digit_in_row_is_invalid() {
    let mut s = Session::new();
    s.select_cell(CellPosition::new(0, 0));
    s.set_value(Some(Value::Seven));
    s.select_cell(CellPosition::new(3, 0));
    s.set_value(Some(Value::Seven));
    let before = s.values();
    assert_eq!(s.solve(), Err(GameError::ValidationError));
    assert_eq!(s.values(), before);
    assert_eq!(s.cell(CellPosition::new(0, 0)).value(), Some(Value::Seven));
    assert_eq!(s.cell(CellPosition::new(3, 0)).value(), Some(Value::Seven));
}

#[test]
fn solve_with_repeated_digit_in_box_is_invalid() {
    let mut s = Session::new();
    s.select_cell(CellPosition::new(0, 0));
    s.set_value(Some(Value::Two));
    s.select_cell(CellPosition::new(2, 2));
    s.set_value(Some(Value::Two));
    assert_eq!(s.solve(), Err(GameError::ValidationError));
}

#[test]
fn solve_without_solution_is_impossible() {
    // Row 0 holds 1 to 8 and column 8 already holds the 9 it would need.
    let mut text = String::from("12345678.");
    text.push_str("........9");
    text.push_str(&".".repeat(63));
    let mut s = session_with(&text);
    let before = s.values();
    assert_eq!(s.solve(), Err(GameError::SolveImpossible));
    assert_eq!(s.values(), before);
}

#[test]
fn solve_overwrites_wrong_entries_when_unique() {
    let mut s = session_with(SOLUTION);
    s.select_cell(CellPosition::new(0, 0));
    s.set_value(Some(Value::One));
    // every cell is fixed, so the entry is refused and the board stays solved
    assert_eq!(s.solve(), Ok(()));
    assert_eq!(s.values(), grid(SOLUTION));
}

#[test]
fn set_value_before_generation_completes_is_discarded() {
    let mut s = Session::new();
    assert!(s.request_new_game());
    assert!(s.is_generating());
    let p = CellPosition::new(2, 0);
    s.select_cell(p);
    s.set_value(Some(Value::Eight));
    assert_eq!(s.cell(p).value(), Some(Value::Eight));
    assert_eq!(s.complete_generation(Ok(grid(PUZZLE))), Ok(()));
    assert!(!s.is_generating());
    assert_eq!(s.selected(), None);
    assert_eq!(s.cell(p), Cell { value: None, enabled: true });
    assert_eq!(s.values(), grid(PUZZLE));
}

#[test]
fn duplicate_new_game_request_is_ignored() {
    let mut s = Session::new();
    assert!(s.request_new_game());
    assert!(!s.request_new_game());
    assert!(s.is_generating());
    assert_eq!(s.complete_generation(Err(GameError::GenerationFailed)), Err(GameError::GenerationFailed));
    assert!(!s.is_generating());
    assert!(s.request_new_game());
}

#[test]
fn failed_generation_keeps_board() {
    let mut s = session_with(PUZZLE);
    let p = CellPosition::new(2, 0);
    s.select_cell(p);
    assert!(s.request_new_game());
    assert_eq!(s.complete_generation(Err(GameError::GenerationFailed)), Err(GameError::GenerationFailed));
    assert_eq!(s.values(), grid(PUZZLE));
    assert_eq!(s.selected(), Some(p));
}

#[test]
fn malformed_generation_result_is_refused() {
    let mut s = Session::new();
    assert!(s.request_new_game());
    assert_eq!(s.complete_generation(Ok(vec![None; 80])), Err(GameError::GenerationFailed));
    let mut bad = vec![None; 81];
    bad[5] = Some(10);
    assert!(s.request_new_game());
    assert_eq!(s.complete_generation(Ok(bad)), Err(GameError::GenerationFailed));
    assert_eq!(s.values(), vec![None; 81]);
}

// A minimal puzzle with four more clues taken from its solution, at (0,0),
// (2,0), (4,4) and (8,8): reducing it always has clues to remove, and its
// search stays short whatever order the reducer picks.
const NEAR_MINIMAL: &str = "\
3657.1...\
.4...6.75\
.....9...\
27..5.1..\
5..23.9..\
......7..\
......39.\
...96..8.\
.....3.46";

const NEAR_MINIMAL_SOLUTION: &str = "\
365781429\
941326875\
728549613\
279658134\
514237968\
683194752\
856412397\
437965281\
192873546";

fn no_repeats(g: &[Option<usize>]) -> bool {
    let units: Vec<Vec<usize>> = (0..9)
        .flat_map(|k| {
            vec![
                (0..9).map(|c| k * 9 + c).collect::<Vec<_>>(),
                (0..9).map(|r| r * 9 + k).collect::<Vec<_>>(),
                (0..9).map(|i| ((k / 3) * 3 + i / 3) * 9 + (k % 3) * 3 + i % 3).collect::<Vec<_>>(),
            ]
        })
        .collect();
    units.iter().all(|unit| {
        let mut seen = [false; 10];
        unit.iter().all(|&i| match g[i] {
            Some(d) => !std::mem::replace(&mut seen[d], true),
            None => true,
        })
    })
}

#[test]
fn generated_solution_is_full_and_valid() {
    let full = generate_solution().expect("generation");
    assert_eq!(full.len(), 81);
    assert!(full.iter().all(|c| matches!(c, Some(d) if (1..=9).contains(d))));
    assert!(no_repeats(&full));
}

#[test]
fn reduced_grid_keeps_its_unique_solution() {
    let input = grid(NEAR_MINIMAL);
    let reduced = reduce_grid(&input);
    assert_eq!(reduced.len(), 81);
    let clues = |g: &[Option<usize>]| g.iter().filter(|c| c.is_some()).count();
    assert!(clues(&reduced) < clues(&input));
    for i in 0..81 {
        assert!(reduced[i].is_none() || reduced[i] == input[i]);
    }
    let mut s = session_with_values(reduced);
    assert_eq!(s.solve(), Ok(()));
    assert_eq!(s.values(), grid(NEAR_MINIMAL_SOLUTION));
}

#[test]
fn full_grid_is_its_own_solution() {
    let mut s = session_with(NEAR_MINIMAL_SOLUTION);
    assert_eq!(s.solve(), Ok(()));
    assert_eq!(s.values(), grid(NEAR_MINIMAL_SOLUTION));
    assert!(no_repeats(&grid(NEAR_MINIMAL_SOLUTION)));
}

#[test]
fn apply_dispatches_intents() {
    let mut s = Session::new();
    let p = CellPosition::new(0, 0);
    let q = CellPosition::new(3, 0);
    assert_eq!(s.apply(Intent::SelectCell(p)), Outcome::Done);
    assert_eq!(s.apply(Intent::SetValue(Some(Value::Seven))), Outcome::Done);
    assert_eq!(s.apply(Intent::SelectCell(q)), Outcome::Deselect(p));
    assert_eq!(s.apply(Intent::SetValue(Some(Value::Seven))), Outcome::Done);
    assert_eq!(s.apply(Intent::Solve), Outcome::Failed(GameError::ValidationError));
    assert_eq!(s.apply(Intent::ClearSelection), Outcome::Done);
    assert_eq!(s.selected(), None);
    assert_eq!(s.apply(Intent::Reset), Outcome::Done);
    assert_eq!(s.values(), vec![None; 81]);
    assert_eq!(s.apply(Intent::NewGame), Outcome::StartGeneration);
    assert_eq!(s.apply(Intent::NewGame), Outcome::Done);
}

#[test]
fn apply_solve_reports_success_and_ambiguity() {
    let mut s = Session::new();
    assert_eq!(s.apply(Intent::Solve), Outcome::Failed(GameError::SolveAmbiguous));
    let mut s = session_with(PUZZLE);
    assert_eq!(s.apply(Intent::Solve), Outcome::Done);
    assert_eq!(s.values(), grid(SOLUTION));
}

#[test]
fn generation_outcome_without_request_is_refused() {
    let mut s = Session::new();
    assert_eq!(s.complete_generation(Ok(grid(PUZZLE))), Err(GameError::NoPendingGeneration));
    assert_eq!(s.values(), vec![None; 81]);
    assert!(s.request_new_game());
    assert_eq!(s.complete_generation(Ok(grid(PUZZLE))), Ok(()));
    s.select_cell(CellPosition::new(2, 0));
    assert_eq!(s.complete_generation(Ok(grid(SOLUTION))), Err(GameError::NoPendingGeneration));
    assert_eq!(s.values(), grid(PUZZLE));
    assert_eq!(s.selected(), Some(CellPosition::new(2, 0)));
}

#[test]
fn reduced_grid_needs_every_clue() {
    let reduced = reduce_grid(&grid(NEAR_MINIMAL));
    for i in 0..81 {
        if reduced[i].is_some() {
            let mut fewer = reduced.clone();
            fewer[i] = None;
            let mut s = session_with_values(fewer);
            assert_eq!(s.solve(), Err(GameError::SolveAmbiguous));
        }
    }
}
