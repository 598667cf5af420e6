//! Live validation of a regular expression being typed.
use vstd::prelude::*;
use crate::engine::pattern::{regex_compiles, regex_error_text, Pattern};

verus! {

#[derive(Debug, Clone)]
pub enum RegexValidity {
    Empty,
    Valid,
    /// The compiler's message.
    Invalid(String),
}

impl RegexValidity {
    /// Empty text, a pattern that compiles, or one that does not (with the
    /// compiler's message).
    pub fn for_value(s: &str) -> (r: Self)
        ensures
            s@.len() == 0 ==> r is Empty,
            s@.len() > 0 && regex_compiles(s@) ==> r is Valid,
            s@.len() > 0 && !regex_compiles(s@) ==> (r matches RegexValidity::Invalid(m) && m@
                == regex_error_text(s@)),
    {
        if s.is_empty() {
            RegexValidity::Empty
        } else {
            match Pattern::new(s) {
                Ok(_) => RegexValidity::Valid,
                Err(e) => RegexValidity::Invalid(e),
            }
        }
    }
}

} // verus!
