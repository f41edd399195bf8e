//! Verified core of a third-person action-game character controller.
//!
//! The crate covers the animation state machine (states, guarded transitions,
//! blended poses), the locomotion controllers that turn held actions or AI
//! steering into velocity commands and animation intent, the ground-contact
//! rule, and the characters that compose them. All continuous quantities are
//! fixed-point integers: scalars in thousandths of a unit, time in
//! milliseconds. The engine around this core (rendering, physics stepping,
//! input polling, asset loading) stays outside the crate and exchanges plain
//! values with it.

pub mod bot;
pub mod bot_ai;
pub mod character;
pub mod character_animation;
pub mod character_body;
pub mod keyboard_input;
pub mod machine;
pub mod math;
pub mod movement_controller;
pub mod player;
pub mod settings;
