//! Turning pointer and keyboard input into the player's intents.
use vstd::prelude::*;

use crate::cell::CellPosition;
use crate::value::Value;

verus! {

/// What the player asks the session to do.
#[derive(Debug, Clone, Copy, PartialEq, Eq, Structural)]
pub enum Intent {
    /// Make the cell at this position the selected one.
    SelectCell(CellPosition),
    /// Leave no cell selected.
    ClearSelection,
    /// Put a digit in the selected cell, or empty it.
    SetValue(Option<Value>),
    /// Empty every cell the player filled.
    Reset,
    /// Start a new game.
    NewGame,
    /// Solve the board as it stands.
    Solve,
}

/// The pointer's state over a surface.
#[derive(Debug, Clone, Copy, PartialEq, Eq, Structural)]
pub enum Interaction {
    Clicked,
    Hovered,
    Idle,
}

/// How a board cell is to be drawn.
#[derive(Debug, Clone, Copy, PartialEq, Eq, Structural)]
pub enum CellStyle {
    Normal,
    Hovered,
    Selected,
}

/// The style of the board cell at `position` under the pointer state
/// `interaction`, with `selected` the selected position.
pub open spec fn board_cell_style(
    position: CellPosition,
    interaction: Interaction,
    selected: Option<CellPosition>,
) -> CellStyle {
    match interaction {
        Interaction::Clicked => CellStyle::Selected,
        Interaction::Hovered => CellStyle::Hovered,
        Interaction::Idle => if selected == Some(position) {
            CellStyle::Selected
        } else {
            CellStyle::Normal
        },
    }
}

/// A change of the pointer's state over the board cell at `position`: how
/// the cell is to be drawn now, and the intent to select it when it was
/// clicked.
pub fn board_cell_button(
    position: CellPosition,
    interaction: Interaction,
    selected: Option<CellPosition>,
) -> (r: (CellStyle, Option<Intent>))
    ensures
        r.0 == board_cell_style(position, interaction, selected),
        interaction == Interaction::Clicked ==> r.1 == Some(Intent::SelectCell(position)),
        interaction != Interaction::Clicked ==> r.1 is None,
{
    match interaction {
        Interaction::Clicked => (CellStyle::Selected, Some(Intent::SelectCell(position))),
        Interaction::Hovered => (CellStyle::Hovered, None),
        Interaction::Idle => {
            let is_selected = match selected {
                Some(p) => p == position,
                None => false,
            };
            if is_selected {
                (CellStyle::Selected, None)
            } else {
                (CellStyle::Normal, None)
            }
        },
    }
}

/// A button of the digit picker: a digit, or none to empty the cell.
#[derive(Debug, Clone, Copy, PartialEq, Eq, Structural)]
pub struct CellMenuButton(pub Option<Value>);

/// The buttons of the digit picker, in order: the one that empties the
/// cell, then the digits one to nine.
pub fn cell_menu_buttons() -> (buttons: Vec<CellMenuButton>)
    ensures
        buttons@.len() == 10,
        buttons@[0] == CellMenuButton(None),
        forall|i: int| 1 <= i < 10 ==> #[trigger] buttons@[i] == CellMenuButton(Some(Value::of_digit(i as nat))),
{
    let mut buttons: Vec<CellMenuButton> = Vec::new();
    let mut i: usize = 0;
    while i < 10
        invariant
            i <= 10,
            buttons@.len() == i,
            i > 0 ==> buttons@[0] == CellMenuButton(None),
            forall|j: int| 1 <= j < i ==> #[trigger] buttons@[j] == CellMenuButton(Some(Value::of_digit(j as nat))),
        decreases 10 - i,
    {
        if i > 0 {
            buttons.push(CellMenuButton(Some(Value::from_usize(i))));
        } else {
            buttons.push(CellMenuButton(None));
        }
        i = i + 1;
    }
    buttons
}

/// A click on a digit picker button asks to put its digit in the selected
/// cell, or to empty it; other pointer states ask nothing.
pub fn cell_menu_button(button: CellMenuButton, interaction: Interaction) -> (r: Option<Intent>)
    ensures
        interaction == Interaction::Clicked ==> r == Some(Intent::SetValue(button.0)),
        interaction != Interaction::Clicked ==> r is None,
{
    match interaction {
        Interaction::Clicked => Some(Intent::SetValue(button.0)),
        _ => None,
    }
}

/// The keys that enter or clear a digit.
#[derive(Debug, Clone, Copy, PartialEq, Eq, Structural)]
pub enum KeyCode {
    Key1,
    Key2,
    Key3,
    Key4,
    Key5,
    Key6,
    Key7,
    Key8,
    Key9,
    Numpad1,
    Numpad2,
    Numpad3,
    Numpad4,
    Numpad5,
    Numpad6,
    Numpad7,
    Numpad8,
    Numpad9,
    Delete,
    Back,
}

/// The keys that stand for one entry, and the entry.
pub struct KeyValues {
    pub key: Vec<KeyCode>,
    pub value: Option<Value>,
}

/// The table from keys to entries: each row lists keys and what they enter.
pub struct CellMenuKeys(pub Vec<KeyValues>);

/// The key of the main row for digit `d`.
pub open spec fn digit_key(d: nat) -> KeyCode {
    if d == 1 {
        KeyCode::Key1
    } else if d == 2 {
        KeyCode::Key2
    } else if d == 3 {
        KeyCode::Key3
    } else if d == 4 {
        KeyCode::Key4
    } else if d == 5 {
        KeyCode::Key5
    } else if d == 6 {
        KeyCode::Key6
    } else if d == 7 {
        KeyCode::Key7
    } else if d == 8 {
        KeyCode::Key8
    } else {
        KeyCode::Key9
    }
}

/// The key of the numeric pad for digit `d`.
pub open spec fn numpad_key(d: nat) -> KeyCode {
    if d == 1 {
        KeyCode::Numpad1
    } else if d == 2 {
        KeyCode::Numpad2
    } else if d == 3 {
        KeyCode::Numpad3
    } else if d == 4 {
        KeyCode::Numpad4
    } else if d == 5 {
        KeyCode::Numpad5
    } else if d == 6 {
        KeyCode::Numpad6
    } else if d == 7 {
        KeyCode::Numpad7
    } else if d == 8 {
        KeyCode::Numpad8
    } else {
        KeyCode::Numpad9
    }
}

/// What the keys of one row emit, in the row's order: the row's entry once
/// for each of its keys that was pressed.
pub open spec fn row_output(keys: Seq<KeyCode>, value: Option<Value>, pressed: Seq<KeyCode>) -> Seq<
    Option<Value>,
>
    decreases keys.len(),
{
    if keys.len() == 0 {
        seq![]
    } else {
        row_output(keys.drop_last(), value, pressed) + if pressed.contains(keys.last()) {
            seq![value]
        } else {
            seq![]
        }
    }
}

/// What a table emits, row after row.
pub open spec fn table_output(rows: Seq<KeyValues>, pressed: Seq<KeyCode>) -> Seq<Option<Value>>
    decreases rows.len(),
{
    if rows.len() == 0 {
        seq![]
    } else {
        table_output(rows.drop_last(), pressed) + row_output(
            rows.last().key@,
            rows.last().value,
            pressed,
        )
    }
}

/// The row of the table for digit `d`: its main-row key and its pad key.
fn digit_row(d: usize) -> (row: KeyValues)
    requires
        1 <= d <= 9,
    ensures
        row.key@ == seq![digit_key(d as nat), numpad_key(d as nat)],
        row.value == Some(Value::of_digit(d as nat)),
{
    let (main, pad) = match d {
        1 => (KeyCode::Key1, KeyCode::Numpad1),
        2 => (KeyCode::Key2, KeyCode::Numpad2),
        3 => (KeyCode::Key3, KeyCode::Numpad3),
        4 => (KeyCode::Key4, KeyCode::Numpad4),
        5 => (KeyCode::Key5, KeyCode::Numpad5),
        6 => (KeyCode::Key6, KeyCode::Numpad6),
        7 => (KeyCode::Key7, KeyCode::Numpad7),
        8 => (KeyCode::Key8, KeyCode::Numpad8),
        _ => (KeyCode::Key9, KeyCode::Numpad9),
    };
    KeyValues { key: vec![main, pad], value: Some(Value::from_usize(d)) }
}

impl Default for CellMenuKeys {
    /// Digits one to nine on the main row or the numeric pad enter that
    /// digit; Delete and Backspace empty the cell.
    fn default() -> (keys: CellMenuKeys)
        ensures
            keys.0@.len() == 10,
            forall|i: int|
                0 <= i < 9 ==> (#[trigger] keys.0@[i]).key@ == seq![
                    digit_key((i + 1) as nat),
                    numpad_key((i + 1) as nat),
                ] && keys.0@[i].value == Some(Value::of_digit((i + 1) as nat)),
            keys.0@[9].key@ == seq![KeyCode::Delete, KeyCode::Back],
            keys.0@[9].value is None,
    {
        let mut rows: Vec<KeyValues> = Vec::new();
        let mut d: usize = 1;
        while d <= 9
            invariant
                1 <= d <= 10,
                rows@.len() == d - 1,
                forall|i: int|
                    0 <= i < d - 1 ==> (#[trigger] rows@[i]).key@ == seq![
                        digit_key((i + 1) as nat),
                        numpad_key((i + 1) as nat),
                    ] && rows@[i].value == Some(Value::of_digit((i + 1) as nat)),
            decreases 10 - d,
        {
            rows.push(digit_row(d));
            d = d + 1;
        }
        rows.push(KeyValues { key: vec![KeyCode::Delete, KeyCode::Back], value: None });
        CellMenuKeys(rows)
    }
}

/// Whether `key` is among the pressed keys.
fn is_pressed(pressed: &Vec<KeyCode>, key: KeyCode) -> (r: bool)
    ensures
        r == pressed@.contains(key),
{
    let mut i: usize = 0;
    while i < pressed.len()
        invariant
            i <= pressed@.len(),
            forall|j: int| 0 <= j < i ==> pressed@[j] != key,
        decreases pressed@.len() - i,
    {
        if pressed[i] == key {
            assert(pressed@[i as int] == key);
            return true;
        }
        i = i + 1;
    }
    false
}

impl CellMenuKeys {
    /// The entries asked for by the keys just pressed, in the table's order.
    /// Keys count only while a cell is selected; otherwise they are dropped.
    pub fn cell_keyboard_input(&self, has_selection: bool, pressed: &Vec<KeyCode>) -> (out: Vec<
        Option<Value>,
    >)
        ensures
            !has_selection ==> out@.len() == 0,
            has_selection ==> out@ == table_output(self.0@, pressed@),
    {
        let mut out: Vec<Option<Value>> = Vec::new();
        if !has_selection {
            return out;
        }
        let rows = &self.0;
        let mut i: usize = 0;
        while i < rows.len()
            invariant
                i <= rows@.len(),
                out@ == table_output(rows@.subrange(0, i as int), pressed@),
            decreases rows@.len() - i,
        {
            let row = &rows[i];
            let ghost before = out@;
            let mut j: usize = 0;
            while j < row.key.len()
                invariant
                    j <= row.key@.len(),
                    out@ == before + row_output(row.key@.subrange(0, j as int), row.value, pressed@),
                decreases row.key@.len() - j,
            {
                let key = row.key[j];
                assert(row.key@.subrange(0, j + 1).drop_last() =~= row.key@.subrange(0, j as int));
                if is_pressed(pressed, key) {
                    out.push(row.value);
                }
                j = j + 1;
                assert(out@ =~= before + row_output(row.key@.subrange(0, j as int), row.value, pressed@));
            }
            assert(row.key@.subrange(0, j as int) =~= row.key@);
            assert(rows@.subrange(0, i + 1).drop_last() =~= rows@.subrange(0, i as int));
            i = i + 1;
            assert(out@ =~= table_output(rows@.subrange(0, i as int), pressed@));
        }
        assert(rows@.subrange(0, i as int) =~= rows@);
        out
    }
}

} // verus!
