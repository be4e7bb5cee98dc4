//! Core logic of a one-click screen color picker: exact color-space
//! conversion from an 8-bit RGB triple to hex / rgb / rgba / hsl text,
//! decoding of a packed true-color pixel value, output-format selection,
//! and the state machine that governs the pointer-grab capture session.

pub mod color;
pub mod digits;
pub mod output;
pub mod pixel;
pub mod session;
