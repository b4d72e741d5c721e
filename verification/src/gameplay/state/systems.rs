//! The transitions between the states of the game.

use vstd::prelude::*;
use crate::gameplay::state::components::{CameraState, GameState};

verus! {

/// The state that pausing asks for.
pub fn _pause_game() -> (next: GameState)
    ensures
        next == GameState::Pause,
{
    GameState::Pause
}

/// The state that resuming asks for.
pub fn _resume_game() -> (next: GameState)
    ensures
        next == GameState::Playing,
{
    GameState::Playing
}

/// Answers the key that leads to the main menu: if it has just been pressed
/// and the game is not in the main menu, the camera and the game go there.
pub fn transition_to_main_menu_state(menu_key_just_pressed: bool, app_state: GameState) -> (next:
    Option<(CameraState, GameState)>)
    ensures
        next == if menu_key_just_pressed && app_state != GameState::MainMenu {
            Some((CameraState::MainMenuCamera, GameState::MainMenu))
        } else {
            None
        },
{
    if menu_key_just_pressed && app_state != GameState::MainMenu {
        Some((CameraState::MainMenuCamera, GameState::MainMenu))
    } else {
        None
    }
}

/// Answers the key that starts the game: if it has just been pressed and the
/// game is not being played, the game starts with the camera under manual
/// control.
pub fn transition_to_game_state(start_key_just_pressed: bool, app_state: GameState) -> (next:
    Option<(CameraState, GameState)>)
    ensures
        next == if start_key_just_pressed && app_state != GameState::Playing {
            Some((CameraState::ManualCameraControl, GameState::Playing))
        } else {
            None
        },
{
    if start_key_just_pressed && app_state != GameState::Playing {
        Some((CameraState::ManualCameraControl, GameState::Playing))
    } else {
        None
    }
}

} // verus!
