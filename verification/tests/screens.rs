use bounce_up::menu::{button_action, button_audio, button_system};
use bounce_up::state::{check_assets_loaded, escape_system, lock_release_cursor};
use bounce_up::{
    AppState, ButtonAction, ButtonLook, ButtonSound, CursorGrab, CursorSetting, Interaction,
    LoadState, LoadingStep,
};

#[test]
fn escape_returns_to_menu() {
    assert_eq!(escape_system(true), Some(AppState::Menu));
    assert_eq!(escape_system(false), None);
}

#[test]
fn loading_moves_on_when_loaded() {
    assert_eq!(check_assets_loaded(LoadState::Loaded), LoadingStep::Enter(AppState::Menu));
    assert_eq!(check_assets_loaded(LoadState::Failed), LoadingStep::Exit);
    assert_eq!(check_assets_loaded(LoadState::Loading), LoadingStep::Wait);
    assert_eq!(check_assets_loaded(LoadState::NotLoaded), LoadingStep::Wait);
    assert_eq!(check_assets_loaded(LoadState::Unloaded), LoadingStep::Wait);
}

#[test]
fn cursor_is_held_while_playing() {
    let hidden_locked = CursorSetting { grab: CursorGrab::Locked, visible: false };
    let hidden_confined = CursorSetting { grab: CursorGrab::Confined, visible: false };
    let free = CursorSetting { grab: CursorGrab::Free, visible: true };
    assert_eq!(lock_release_cursor(AppState::Battle, true), hidden_locked);
    assert_eq!(lock_release_cursor(AppState::Practice, false), hidden_confined);
    assert_eq!(lock_release_cursor(AppState::Battle, false), hidden_confined);
    for state in [AppState::Loading, AppState::Menu, AppState::Settings, AppState::Score] {
        assert_eq!(lock_release_cursor(state, true), free);
        assert_eq!(lock_release_cursor(state, false), free);
    }
}

#[test]
fn buttons_lead_to_their_screens() {
    assert_eq!(ButtonAction::Play.target(), AppState::Battle);
    assert_eq!(ButtonAction::Tutorial.target(), AppState::Practice);
    assert_eq!(ButtonAction::Settings.target(), AppState::Settings);
    assert_eq!(ButtonAction::Back.target(), AppState::Menu);
    assert_eq!(button_action(Interaction::Clicked, ButtonAction::Play), Some(AppState::Battle));
    assert_eq!(button_action(Interaction::Hovered, ButtonAction::Play), None);
    assert_eq!(button_action(Interaction::Idle, ButtonAction::Back), None);
}

#[test]
fn button_looks_and_sounds() {
    assert_eq!(button_system(Interaction::Clicked), ButtonLook::Pressed);
    assert_eq!(button_system(Interaction::Hovered), ButtonLook::Hovered);
    assert_eq!(button_system(Interaction::Idle), ButtonLook::Normal);
    assert_eq!(button_audio(Interaction::Clicked, false), Some(ButtonSound::Click));
    assert_eq!(button_audio(Interaction::Clicked, true), Some(ButtonSound::Click));
    assert_eq!(button_audio(Interaction::Hovered, true), Some(ButtonSound::Hover));
    assert_eq!(button_audio(Interaction::Hovered, false), None);
    assert_eq!(button_audio(Interaction::Idle, true), None);
}
