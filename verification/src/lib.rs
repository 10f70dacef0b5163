//! Renders raw RGB video frames as ASCII art.
//!
//! The library covers the pure core of a terminal video player: predicting
//! the byte layout of the decoder's fixed-header frame stream, slicing that
//! stream into frames with a reusable buffer, classifying pixels into a
//! brightness-ordered glyph ramp, and building the character grid that a
//! frontend writes to the terminal. Process handling and terminal I/O live
//! outside the library and hand it plain bytes.

pub mod classify;
pub mod error;
pub mod format;
pub mod playback;
pub mod render;
pub mod source;
