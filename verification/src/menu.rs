//! The menu in front of the game: what a pressed button leads to.

use vstd::prelude::*;

verus! {

/// Which screen the application shows.
#[derive(Clone, Copy, Debug, PartialEq, Eq, Hash, Structural)]
pub enum AppState {
    Menu,
    Game,
}

/// What the pointer does to a button.
#[derive(Clone, Copy, Debug, PartialEq, Eq, Structural)]
pub enum Interaction {
    Pressed,
    Hovered,
    Nothing,
}

/// What a button of the menu stands for.
#[derive(Clone, Copy, Debug, PartialEq, Eq, Structural)]
pub enum MenuButtonAction {
    Play,
    Quit,
}

/// What the menu asks of the application.
#[derive(Clone, Copy, Debug, PartialEq, Eq, Structural)]
pub enum MenuCommand {
    /// Show another screen.
    Enter(AppState),
    /// End the application, with success.
    Exit,
}

/// The menu's stage.
#[derive(Clone, Copy, Debug, Default, PartialEq, Eq, Structural)]
pub struct MenuPlugin;

impl Default for AppState {
    fn default() -> (result: Self)
        ensures
            result == AppState::Menu,
    {
        AppState::Menu
    }
}

impl MenuPlugin {
    /// The command that follows from a button whose interaction has changed.
    pub open spec fn command(interaction: Interaction, button: MenuButtonAction) -> Option<MenuCommand> {
        match (interaction, button) {
            (Interaction::Pressed, MenuButtonAction::Play) => Some(MenuCommand::Enter(AppState::Game)),
            (Interaction::Pressed, MenuButtonAction::Quit) => Some(MenuCommand::Exit),
            _ => None,
        }
    }

    /// Decides what a button whose interaction has changed leads to: a
    /// pressed `Play` starts the game, a pressed `Quit` ends the
    /// application, and a button that is not pressed does nothing.
    pub fn action(&self, interaction: Interaction, button: MenuButtonAction) -> (result: Option<
        MenuCommand,
    >)
        ensures
            result == Self::command(interaction, button),
            result is Some <==> interaction == Interaction::Pressed,
    {
        match interaction {
            Interaction::Pressed => match button {
                MenuButtonAction::Play => Some(MenuCommand::Enter(AppState::Game)),
                MenuButtonAction::Quit => Some(MenuCommand::Exit),
            },
            _ => None,
        }
    }

    /// The screen shown after `command`, or nothing where the application
    /// ends.
    pub fn next_state(&self, state: AppState, command: Option<MenuCommand>) -> (result: Option<AppState>)
        ensures
            result == match command {
                Some(MenuCommand::Enter(next)) => Some(next),
                Some(MenuCommand::Exit) => None,
                None => Some(state),
            },
    {
        match command {
            Some(MenuCommand::Enter(next)) => Some(next),
            Some(MenuCommand::Exit) => None,
            None => Some(state),
        }
    }
}

} // verus!
