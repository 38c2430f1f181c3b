use sudoku_game::Board;
use sudoku_game::Cell;
use sudoku_game::CellPosition;
use sudoku_game::Value;
use sudoku_game::changed_positions;
use sudoku_game::is_well_formed;

#[test]
fn value_digits_round_trip() {
    for n in 1..=9usize {
        let v = Value::from_usize(n);
        assert_eq!(v.to_usize(), n);
        assert_eq!(v.to_string(), n.to_string());
    }
    assert_eq!(Value::from_usize(7), Value::Seven);
}

#[test]
fn cell_from_grid_entry() {
    let given = Cell::new(Some(4));
    assert_eq!(given.value(), Some(Value::Four));
    assert!(given.is_disabled());
    assert!(!given.is_enabled());
    assert!(!given.is_empty());
    let blank = Cell::new(None);
    assert_eq!(blank, Cell::default());
    assert!(blank.is_enabled());
    assert!(blank.is_empty());
}

#[test]
fn cell_reset_and_set() {
    let mut given = Cell::new(Some(4));
    given.reset();
    assert_eq!(given.value(), Some(Value::Four));
    given.enter(Some(Value::One));
    assert_eq!(given.value(), Some(Value::Four));
    given.set_value(Value::Two);
    assert_eq!(given.value(), Some(Value::Two));
    assert!(given.is_disabled());

    let mut blank = Cell::default();
    blank.set_value(Value::Six);
    assert_eq!(blank.to_number(), Some(6));
    blank.enter(Some(Value::Eight));
    assert_eq!(blank.to_number(), Some(8));
    blank.reset();
    assert!(blank.is_empty());
    assert!(blank.is_enabled());
}

#[test]
fn cell_text() {
    assert_eq!(Cell::new(Some(9)).text(), "9");
    assert_eq!(Cell::new(None).text(), "");
}

#[test]
fn positions_and_indices() {
    let p = CellPosition::new(8, 8);
    assert!(p.is_on_board());
    assert_eq!(p.to_index(), 80);
    assert_eq!(CellPosition::from_index(10), CellPosition::new(1, 1));
    assert!(!CellPosition::new(9, 0).is_on_board());
    assert!(!CellPosition::new(0, 9).is_on_board());
}

#[test]
fn board_from_values_and_back() {
    let mut values = vec![None; 81];
    values[0] = Some(3);
    values[80] = Some(9);
    let mut board = Board::from_values(&values);
    assert_eq!(board.values(), values);
    assert_eq!(board.cell(CellPosition::new(0, 0)), Cell { value: Some(Value::Three), enabled: false });
    assert_eq!(board.cell(CellPosition::new(1, 0)), Cell { value: None, enabled: true });
    board.enter(CellPosition::new(1, 0), Some(Value::Five));
    board.enter(CellPosition::new(0, 0), Some(Value::Five));
    assert_eq!(board.cell(CellPosition::new(1, 0)).value(), Some(Value::Five));
    assert_eq!(board.cell(CellPosition::new(0, 0)).value(), Some(Value::Three));
    board.reset();
    assert_eq!(board.values(), values);
}

#[test]
fn empty_board() {
    let board = Board::new();
    assert_eq!(board.values(), vec![None; 81]);
    assert!(board.cell(CellPosition::new(4, 4)).is_enabled());
}

#[test]
fn board_fill_overwrites_every_cell() {
    let mut values = vec![None; 81];
    values[0] = Some(1);
    let mut board = Board::from_values(&values);
    let full: Vec<Option<usize>> = (0..81).map(|i| Some((i % 9) + 1)).collect();
    board.fill(&full);
    assert_eq!(board.values(), full);
    assert!(board.cell(CellPosition::new(0, 0)).is_disabled());
    assert!(board.cell(CellPosition::new(1, 0)).is_enabled());
}

#[test]
fn changed_positions_in_row_order() {
    let before = vec![None; 81];
    let mut after = before.clone();
    after[80] = Some(2);
    after[9] = Some(1);
    after[3] = Some(5);
    assert_eq!(
        changed_positions(&before, &after),
        vec![CellPosition::new(3, 0), CellPosition::new(0, 1), CellPosition::new(8, 8)]
    );
    assert_eq!(changed_positions(&before, &before), vec![]);
}

#[test]
fn well_formed_grids() {
    assert!(is_well_formed(&vec![None; 81]));
    assert!(is_well_formed(&vec![Some(9); 81]));
    assert!(!is_well_formed(&vec![None; 82]));
    let mut zero = vec![None; 81];
    zero[40] = Some(0);
    assert!(!is_well_formed(&zero));
}
