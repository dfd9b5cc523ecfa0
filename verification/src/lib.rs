//! Game rules of "Bounce Up!", a two-paddle ball game: the state machines,
//! counters and collision filters that decide what happens in a frame.
//! Rendering, audio output and float physics live in the application around
//! this library.

pub mod ball;
pub mod base;
pub mod cycle;
pub mod effects;
pub mod game_over;
pub mod layers;
pub mod menu;
pub mod modes;
mod random;
pub mod slits;
pub mod state;
pub mod text;
pub mod timing;

pub use game_over::{GameOver, GameOverEvent, TimeScaleAction};
pub use modes::{BattlePlugin, PracticePlugin, PracticeState, StoryPlugin};
pub use layers::{Contact, LayerMask, PhysicsLayers};
pub use menu::{ButtonAction, ButtonLook, ButtonSound, Interaction};
pub use state::{AppState, CursorGrab, CursorSetting, LoadState, LoadingStep};

use vstd::prelude::*;

verus! {

} // verus!
