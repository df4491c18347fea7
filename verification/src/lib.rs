//! Plays an animation of RGBA frames in a terminal, with ANSI escape
//! sequences alone.
//!
//! A frame is rasterized into lines of text, two rows of pixels to a line
//! ([`render`]); its size is chosen from the terminal's and the user's wishes
//! ([`layout`]); the lines are placed on the screen once ([`display`]); and a
//! state machine says, step by step, what to write and how long to sleep
//! ([`animation`], [`schedule`]). The library writes nothing itself: its
//! caller does what each step asks for.

pub mod animation;
pub mod args;
pub mod display;
pub mod escape;
pub mod layout;
pub mod pixels;
pub mod render;
pub mod schedule;
pub mod screen;
pub mod terminal;
pub mod terminal_consts;
pub mod text;
pub mod types;
