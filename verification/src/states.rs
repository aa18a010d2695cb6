//! The screens of the program and the ways between them.

use crate::midi::MidiInputState;
use vstd::prelude::*;

verus! {

/// The screen that the program shows.
#[derive(Clone, Copy, Debug, PartialEq, Eq, Hash, Structural)]
pub enum AppState {
    /// The menu at the start.
    StartMenu,
    /// The list of devices to choose from.
    DeviceSelect,
    /// The game.
    Game,
}

impl Default for AppState {
    fn default() -> (state: AppState)
        ensures
            state == AppState::StartMenu,
    {
        AppState::StartMenu
    }
}

/// The way out of the start menu: the screen to go to when the player has chosen to
/// start the game, and none as long as the player has not.
pub fn start_menu_system(start_game_clicked: bool) -> (next: Option<AppState>)
    ensures
        start_game_clicked ==> next == Some(AppState::DeviceSelect),
        !start_game_clicked ==> next.is_none(),
{
    if start_game_clicked {
        Some(AppState::DeviceSelect)
    } else {
        None
    }
}

/// The way out of the device list: once a device is connected the game begins; until
/// then the list stays.
pub fn device_select_redirect(input_state: &MidiInputState) -> (next: Option<AppState>)
    ensures
        input_state.connected ==> next == Some(AppState::Game),
        !input_state.connected ==> next.is_none(),
{
    if input_state.connected {
        Some(AppState::Game)
    } else {
        None
    }
}

} // verus!
