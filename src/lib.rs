//! Terminal color and style escape sequences.
//!
//! A [`Codes`] table holds the ANSI select-graphic-rendition sequences for the
//! basic style attributes and the sixteen foreground and background colors,
//! ready to be printed around text. [`init_on`] fills every field with its
//! sequence, [`init_off`] leaves every field empty, and [`init_auto`] picks one
//! of the two from whether standard output is an interactive terminal and
//! whether the `NO_COLOR` opt-out is present.
pub mod codes;
pub mod sgr;

pub use codes::{init_auto, init_off, init_on, Attributes, Codes, Colors};
