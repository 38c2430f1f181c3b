//! The game menu and the light or dark theme.
use vstd::prelude::*;

use crate::input::Intent;
use crate::input::Interaction;

verus! {

/// A button of the game menu.
#[derive(Debug, Clone, Copy, PartialEq, Eq, Structural)]
pub enum MenuButton {
    New,
    Reset,
    Solve,
    ThemeToggle,
    Quit,
}

/// What pressing a menu button asks for.
#[derive(Debug, Clone, Copy, PartialEq, Eq, Structural)]
pub enum Command {
    /// An intent for the session.
    Apply(Intent),
    /// Switch between the light and the dark theme.
    ToggleTheme,
    /// End the program.
    Quit,
}

/// The label shown on a menu button.
pub open spec fn menu_label(b: MenuButton) -> Seq<char> {
    match b {
        MenuButton::New => "New Game"@,
        MenuButton::Reset => "Reset"@,
        MenuButton::Solve => "Solve"@,
        MenuButton::ThemeToggle => "Theme"@,
        MenuButton::Quit => "Quit"@,
    }
}

/// What a menu button asks for.
pub open spec fn menu_command(b: MenuButton) -> Command {
    match b {
        MenuButton::New => Command::Apply(Intent::NewGame),
        MenuButton::Reset => Command::Apply(Intent::Reset),
        MenuButton::Solve => Command::Apply(Intent::Solve),
        MenuButton::ThemeToggle => Command::ToggleTheme,
        MenuButton::Quit => Command::Quit,
    }
}

impl MenuButton {
    /// The menu's buttons, top to bottom.
    pub fn all() -> (buttons: Vec<MenuButton>)
        ensures
            buttons@ == seq![
                MenuButton::New,
                MenuButton::Reset,
                MenuButton::Solve,
                MenuButton::ThemeToggle,
                MenuButton::Quit,
            ],
    {
        let buttons = vec![
            MenuButton::New,
            MenuButton::Reset,
            MenuButton::Solve,
            MenuButton::ThemeToggle,
            MenuButton::Quit,
        ];
        assert(buttons@ =~= seq![
            MenuButton::New,
            MenuButton::Reset,
            MenuButton::Solve,
            MenuButton::ThemeToggle,
            MenuButton::Quit,
        ]);
        buttons
    }

    /// The label shown on the button.
    pub fn label(&self) -> (s: String)
        ensures
            s@ == menu_label(*self),
    {
        let lit = match self {
            MenuButton::New => "New Game",
            MenuButton::Reset => "Reset",
            MenuButton::Solve => "Solve",
            MenuButton::ThemeToggle => "Theme",
            MenuButton::Quit => "Quit",
        };
        lit.to_owned()
    }

    /// What the button asks for.
    pub fn command(&self) -> (c: Command)
        ensures
            c == menu_command(*self),
    {
        match self {
            MenuButton::New => Command::Apply(Intent::NewGame),
            MenuButton::Reset => Command::Apply(Intent::Reset),
            MenuButton::Solve => Command::Apply(Intent::Solve),
            MenuButton::ThemeToggle => Command::ToggleTheme,
            MenuButton::Quit => Command::Quit,
        }
    }
}

/// A change of the pointer's state over a menu button: a click asks for the
/// button's command, anything else for nothing.
pub fn menu_button_pressed(button: MenuButton, interaction: Interaction) -> (r: Option<Command>)
    ensures
        interaction == Interaction::Clicked ==> r == Some(menu_command(button)),
        interaction != Interaction::Clicked ==> r is None,
{
    match interaction {
        Interaction::Clicked => Some(button.command()),
        _ => None,
    }
}

/// The colour theme.
#[derive(Debug, Clone, Copy, PartialEq, Eq, Structural)]
pub enum ThemeMode {
    Light,
    Dark,
}

impl ThemeMode {
    /// The other theme.
    pub fn toggled(&self) -> (t: ThemeMode)
        ensures
            t != *self,
            *self == ThemeMode::Light ==> t == ThemeMode::Dark,
            *self == ThemeMode::Dark ==> t == ThemeMode::Light,
    {
        match self {
            ThemeMode::Light => ThemeMode::Dark,
            ThemeMode::Dark => ThemeMode::Light,
        }
    }
}

impl Default for ThemeMode {
    /// The light theme.
    fn default() -> (t: ThemeMode)
        ensures
            t == ThemeMode::Light,
    {
        ThemeMode::Light
    }
}

} // verus!
