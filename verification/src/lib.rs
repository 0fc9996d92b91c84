//! An embryonic terminal Pong game: a two-state screen selector driven by
//! keyboard input, and a renderer that produces the frame content for each
//! screen as plain text. Terminal setup, event reading and drawing live in
//! the surrounding binary; everything here is pure state and text.

pub mod render;
pub mod state;
