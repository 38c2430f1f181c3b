//! A cell of the board and its place on it.
use vstd::prelude::*;

use crate::value::Value;
use crate::value::digit_char;

verus! {

/// The place of a cell: column `x` and row `y`, each from zero to eight.
#[derive(Debug, Clone, Copy, PartialEq, Eq, Structural)]
pub struct CellPosition {
    pub x: usize,
    pub y: usize,
}

/// The position of the cell stored at index `i` of a board, row by row.
pub open spec fn position_of(i: int) -> CellPosition {
    CellPosition { x: (i % 9) as usize, y: (i / 9) as usize }
}

impl CellPosition {
    /// The position at column `x` and row `y`.
    pub fn new(x: usize, y: usize) -> (p: CellPosition)
        ensures
            p.x == x,
            p.y == y,
    {
        CellPosition { x, y }
    }

    /// The position lies on the 9×9 board.
    pub open spec fn is_valid(self) -> bool {
        self.x < 9 && self.y < 9
    }

    /// Where the cell at this position is stored on a board, row by row.
    pub open spec fn index(self) -> int {
        self.y * 9 + self.x
    }

    /// Whether the position lies on the board.
    pub fn is_on_board(&self) -> (r: bool)
        ensures
            r == self.is_valid(),
    {
        self.x < 9 && self.y < 9
    }

    /// Where the cell at this position is stored on a board.
    pub fn to_index(&self) -> (i: usize)
        requires
            self.is_valid(),
        ensures
            i == self.index(),
            i < 81,
    {
        self.y * 9 + self.x
    }

    /// The position of the cell stored at index `i`.
    pub fn from_index(i: usize) -> (p: CellPosition)
        requires
            i < 81,
        ensures
            p == position_of(i as int),
            p.is_valid(),
            p.index() == i,
    {
        CellPosition { x: i % 9, y: i / 9 }
    }
}

/// A cell: its digit, if any, and whether the player may change it. A cell
/// that is not enabled holds a given of the puzzle and is fixed.
#[derive(Debug, Clone, Copy, PartialEq, Eq, Structural)]
pub struct Cell {
    pub value: Option<Value>,
    pub enabled: bool,
}

/// The cell made for a grid entry: a digit becomes a fixed given, an empty
/// entry an editable blank.
pub open spec fn cell_for(n: Option<usize>) -> Cell {
    match n {
        Some(d) => Cell { value: Some(Value::of_digit(d as nat)), enabled: false },
        None => Cell { value: None, enabled: true },
    }
}

impl Cell {
    /// The digit of the cell as a grid entry.
    pub open spec fn number(self) -> Option<usize> {
        match self.value {
            Some(v) => Some(v.digit() as usize),
            None => None,
        }
    }

    /// The cell holds a given of the puzzle and cannot be edited.
    pub open spec fn is_fixed(self) -> bool {
        !self.enabled
    }

    /// The cell after a reset: editable cells lose their digit.
    pub open spec fn after_reset(self) -> Cell {
        if self.enabled {
            Cell { value: None, ..self }
        } else {
            self
        }
    }

    /// The cell for a grid entry: a digit gives a fixed cell holding it, no
    /// digit an empty editable cell.
    pub fn new(value: Option<usize>) -> (c: Cell)
        requires
            value matches Some(n) ==> 1 <= n <= 9,
        ensures
            c == cell_for(value),
            c.number() == value,
    {
        match value {
            Some(v) => Cell { value: Some(Value::from_usize(v)), enabled: false },
            None => Cell { value: None, enabled: true },
        }
    }

    /// The digit in the cell, if any.
    pub fn value(&self) -> (v: Option<Value>)
        ensures
            v == self.value,
    {
        self.value
    }

    /// The digit in the cell as a grid entry.
    pub fn to_number(&self) -> (n: Option<usize>)
        ensures
            n == self.number(),
            n matches Some(d) ==> 1 <= d <= 9,
    {
        match self.value {
            Some(v) => Some(v.to_usize()),
            None => None,
        }
    }

    /// Puts `value` in the cell, whether or not it is fixed.
    pub fn set_value(&mut self, value: Value)
        ensures
            *final(self) == (Cell { value: Some(value), ..*old(self) }),
    {
        self.value = Some(value);
    }

    /// Puts `value` in the cell, or empties it, unless the cell is fixed.
    pub fn enter(&mut self, value: Option<Value>)
        ensures
            old(self).enabled ==> *final(self) == (Cell { value, ..*old(self) }),
            !old(self).enabled ==> *final(self) == *old(self),
    {
        if self.enabled {
            self.value = value;
        }
    }

    /// The cell holds no digit.
    pub fn is_empty(&self) -> (r: bool)
        ensures
            r == (self.value is None),
    {
        self.value.is_none()
    }

    /// The player may change the cell.
    pub fn is_enabled(&self) -> (r: bool)
        ensures
            r == self.enabled,
    {
        self.enabled
    }

    /// The cell holds a given and cannot be changed.
    pub fn is_disabled(&self) -> (r: bool)
        ensures
            r == !self.enabled,
    {
        !self.enabled
    }

    /// Empties the cell unless it is fixed.
    pub fn reset(&mut self)
        ensures
            *final(self) == old(self).after_reset(),
    {
        if self.enabled {
            self.value = None;
        }
    }

    /// The text shown on the cell: its digit, or nothing.
    pub fn text(&self) -> (s: String)
        ensures
            self.value matches Some(v) ==> s@ == seq![digit_char(v.digit())],
            self.value is None ==> s@.len() == 0,
    {
        match self.value {
            Some(v) => v.to_string(),
            None => String::new(),
        }
    }
}

impl Default for Cell {
    /// An empty cell the player may fill.
    fn default() -> (c: Cell)
        ensures
            c == (Cell { value: None, enabled: true }),
    {
        Cell { value: None, enabled: true }
    }
}

} // verus!
