//! Command-safety engine: checks risky shell commands, splits compound
//! commands, and drives the configuration editor's state.
use vstd::prelude::*;

pub mod engine;
pub mod text;
pub mod tui;
pub mod wrap;

verus! {
} // verus!
