//! An interactive Sudoku session: the cell and grid model, selection and
//! value entry, the hand-off of generated puzzles, and the solve workflow.
//!
//! Puzzles are generated, checked and solved by the `sudoku_variants`
//! engine; everything around those calls is verified here.
pub mod board;
pub mod cell;
pub mod error;
pub mod input;
pub mod menu;
pub mod puzzle;
pub mod rules;
pub mod session;
pub mod value;

pub use board::Board;
pub use board::changed_positions;
pub use cell::Cell;
pub use cell::CellPosition;
pub use error::GameError;
pub use input::CellMenuButton;
pub use input::CellMenuKeys;
pub use input::CellStyle;
pub use input::Intent;
pub use input::Interaction;
pub use input::KeyCode;
pub use input::KeyValues;
pub use input::board_cell_button;
pub use input::cell_menu_button;
pub use input::cell_menu_buttons;
pub use menu::Command;
pub use menu::MenuButton;
pub use menu::ThemeMode;
pub use menu::menu_button_pressed;
pub use puzzle::generate_puzzle;
pub use puzzle::generate_solution;
pub use puzzle::reduce_grid;
pub use session::Outcome;
pub use session::Session;
pub use session::is_well_formed;
pub use value::Value;
