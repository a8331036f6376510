//! Player control and sprite animation for a small top-down farming game.
//!
//! Each frame the host hands the library a snapshot of the keys and the time
//! that has passed. The controller turns the keys into a facing direction, an
//! activity and a selected tool; the animation driver advances a repeating
//! timer and, when it fires, steps the frame shown from the sprite sheet.

pub mod sprite;
pub mod animation;
pub mod input;
pub mod display;
pub mod player;
