//! Result of checking the edited settings before they are written.
use vstd::prelude::*;

verus! {

#[derive(Debug, Clone, PartialEq, Eq)]
pub struct ValidationError {
    pub path: String,
    pub message: String,
}

#[derive(Debug, Clone)]
pub struct ValidationReport {
    pub errors: Vec<ValidationError>,
}

impl Default for ValidationReport {
    fn default() -> (r: Self)
        ensures
            r.errors@.len() == 0,
    {
        ValidationReport { errors: Vec::new() }
    }
}

impl ValidationReport {
    /// True when no error was found.
    pub fn is_ok(&self) -> (r: bool)
        ensures
            r == (self.errors@.len() == 0),
    {
        self.errors.len() == 0
    }
}

} // verus!
