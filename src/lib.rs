//! A terminal system-information banner: an art block, a column of labelled
//! facts placed beside it, and a colour swatch strip.
//!
//! The library decides what is drawn, where, and in which escape sequences;
//! the program around it reads the facts, measures the terminal and writes
//! the result.

pub mod layout;
pub mod fact;
pub mod text;
pub mod panel;
pub mod art;
pub mod scan;
pub mod source;
pub mod escape;
