//! The states of the game as a whole.

use vstd::prelude::*;

verus! {

/// What the camera does.
#[derive(Clone, Copy, Debug, PartialEq, Eq, Hash, Structural)]
pub enum CameraState {
    MainMenuCamera,
    FollowPlayer,
    ManualCameraControl,
}

impl Default for CameraState {
    fn default() -> (state: CameraState)
        ensures
            state == CameraState::MainMenuCamera,
    {
        CameraState::MainMenuCamera
    }
}

/// What the game shows.
#[derive(Clone, Copy, Debug, PartialEq, Eq, Hash, Structural)]
pub enum GameState {
    MainMenu,
    Loading,
    Playing,
    Pause,
    MainDialogue,
    SideDialogue,
}

impl Default for GameState {
    fn default() -> (state: GameState)
        ensures
            state == GameState::MainMenu,
    {
        GameState::MainMenu
    }
}

/// How far a request for conversation content has come.
#[derive(Clone, Copy, Debug, PartialEq, Eq, Hash, Structural)]
pub enum HttpRequestState {
    Idle,
    Loading,
    Success,
    Error,
}

impl Default for HttpRequestState {
    fn default() -> (state: HttpRequestState)
        ensures
            state == HttpRequestState::Idle,
    {
        HttpRequestState::Idle
    }
}

} // verus!
