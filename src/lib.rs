//! Conversion between text and pager two-touch input codes, where every character is
//! typed as two digits and a voiced kana as its base kana followed by the mark.
//!
//! Device-specific input methods are not supported.

pub mod tables;
pub mod two_touch_input;
pub mod laws;
