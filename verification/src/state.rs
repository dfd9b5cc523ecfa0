//! The screens of the game and the rules that move between them.

use vstd::prelude::*;

verus! {

/// The screen the game is on.
#[derive(Clone, Copy, Debug, PartialEq, Eq, Structural, Hash)]
pub enum AppState {
    Loading,
    Menu,
    Settings,
    Battle,
    Practice,
    Score,
}

/// Where the escape key leads: back to the menu when it was just pressed.
pub fn escape_system(escape_just_pressed: bool) -> (next: Option<AppState>)
    ensures
        next == (if escape_just_pressed { Some(AppState::Menu) } else { None::<AppState> }),
{
    if escape_just_pressed {
        Some(AppState::Menu)
    } else {
        None
    }
}

/// How far the loading of the game's assets has come, as the asset server
/// reports it for the whole group.
#[derive(Clone, Copy, Debug, PartialEq, Eq, Structural)]
pub enum LoadState {
    NotLoaded,
    Loading,
    Loaded,
    Failed,
    Unloaded,
}

/// What the loading screen does with a load state.
#[derive(Clone, Copy, Debug, PartialEq, Eq, Structural)]
pub enum LoadingStep {
    /// Keep waiting.
    Wait,
    /// Every asset is in: go to this screen.
    Enter(AppState),
    /// An asset failed to load: quit the application.
    Exit,
}

/// The loading screen's rule: once every asset is loaded the menu opens, a
/// failure quits, anything else waits.
pub fn check_assets_loaded(state: LoadState) -> (step: LoadingStep)
    ensures
        step == (match state {
            LoadState::Loaded => LoadingStep::Enter(AppState::Menu),
            LoadState::Failed => LoadingStep::Exit,
            _ => LoadingStep::Wait,
        }),
{
    match state {
        LoadState::Loaded => LoadingStep::Enter(AppState::Menu),
        LoadState::Failed => LoadingStep::Exit,
        _ => LoadingStep::Wait,
    }
}

/// How the cursor is held in the window.
#[derive(Clone, Copy, Debug, PartialEq, Eq, Structural)]
pub enum CursorGrab {
    /// The cursor moves freely.
    Free,
    /// The cursor stays inside the window.
    Confined,
    /// The cursor stays in place.
    Locked,
}

/// The cursor's grab and visibility on a screen.
#[derive(Clone, Copy, Debug, PartialEq, Eq, Structural)]
pub struct CursorSetting {
    pub grab: CursorGrab,
    pub visible: bool,
}

/// Whether the paddle is played on this screen (a match or a practice).
pub open spec fn is_play_state(state: AppState) -> bool {
    state == AppState::Battle || state == AppState::Practice
}

/// The cursor while on `state`: hidden and held while playing (locked where
/// the platform only supports locking, confined elsewhere), free and shown on
/// every other screen.
pub fn lock_release_cursor(state: AppState, platform_locks: bool) -> (s: CursorSetting)
    ensures
        is_play_state(state) ==> s == (CursorSetting {
            grab: if platform_locks { CursorGrab::Locked } else { CursorGrab::Confined },
            visible: false,
        }),
        !is_play_state(state) ==> s == (CursorSetting { grab: CursorGrab::Free, visible: true }),
{
    match state {
        AppState::Battle | AppState::Practice => {
            let grab = if platform_locks {
                CursorGrab::Locked
            } else {
                CursorGrab::Confined
            };
            CursorSetting { grab, visible: false }
        },
        _ => CursorSetting { grab: CursorGrab::Free, visible: true },
    }
}

} // verus!
