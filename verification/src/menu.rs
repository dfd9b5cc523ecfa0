//! The menu's buttons: where they lead, how they look and what they sound
//! like.

use crate::state::AppState;
use vstd::prelude::*;

verus! {

/// What a menu button does when clicked.
#[derive(Clone, Copy, Debug, PartialEq, Eq, Structural)]
pub enum ButtonAction {
    Play,
    Tutorial,
    Settings,
    Back,
}

/// The pointer's relation to a button.
#[derive(Clone, Copy, Debug, PartialEq, Eq, Structural)]
pub enum Interaction {
    Clicked,
    Hovered,
    /// Neither clicked nor hovered.
    Idle,
}

/// The screen a button leads to.
pub open spec fn action_target(action: ButtonAction) -> AppState {
    match action {
        ButtonAction::Play => AppState::Battle,
        ButtonAction::Tutorial => AppState::Practice,
        ButtonAction::Settings => AppState::Settings,
        ButtonAction::Back => AppState::Menu,
    }
}

impl ButtonAction {
    /// The screen this button leads to: play starts a match, the tutorial
    /// starts a practice, settings open the settings, back returns to the
    /// menu.
    pub fn target(self) -> (s: AppState)
        ensures
            s == action_target(self),
    {
        match self {
            ButtonAction::Play => AppState::Battle,
            ButtonAction::Tutorial => AppState::Practice,
            ButtonAction::Settings => AppState::Settings,
            ButtonAction::Back => AppState::Menu,
        }
    }
}

/// The screen change that a button's new interaction causes: a click moves to
/// the button's target, hovering or leaving changes nothing.
pub fn button_action(interaction: Interaction, action: ButtonAction) -> (next: Option<AppState>)
    ensures
        next == (if interaction == Interaction::Clicked {
            Some(action_target(action))
        } else {
            None::<AppState>
        }),
{
    match interaction {
        Interaction::Clicked => Some(action.target()),
        _ => None,
    }
}

/// The look of a button and of its label.
#[derive(Clone, Copy, Debug, PartialEq, Eq, Structural)]
pub enum ButtonLook {
    Pressed,
    Hovered,
    Normal,
}

/// A button looks pressed while clicked, hovered while hovered, normal
/// otherwise.
pub fn button_system(interaction: Interaction) -> (look: ButtonLook)
    ensures
        look == (match interaction {
            Interaction::Clicked => ButtonLook::Pressed,
            Interaction::Hovered => ButtonLook::Hovered,
            Interaction::Idle => ButtonLook::Normal,
        }),
{
    match interaction {
        Interaction::Clicked => ButtonLook::Pressed,
        Interaction::Hovered => ButtonLook::Hovered,
        Interaction::Idle => ButtonLook::Normal,
    }
}

/// The sounds of the buttons.
#[derive(Clone, Copy, Debug, PartialEq, Eq, Structural)]
pub enum ButtonSound {
    Click,
    Hover,
}

/// The sound a button's new interaction makes: every click clicks; hovering
/// sounds only over a button that has an action; leaving is silent.
pub fn button_audio(interaction: Interaction, has_action: bool) -> (sound: Option<ButtonSound>)
    ensures
        sound == (match interaction {
            Interaction::Clicked => Some(ButtonSound::Click),
            Interaction::Hovered => if has_action {
                Some(ButtonSound::Hover)
            } else {
                None::<ButtonSound>
            },
            Interaction::Idle => None::<ButtonSound>,
        }),
{
    match interaction {
        Interaction::Clicked => Some(ButtonSound::Click),
        Interaction::Hovered => {
            if has_action {
                Some(ButtonSound::Hover)
            } else {
                None
            }
        },
        Interaction::Idle => None,
    }
}

} // verus!
