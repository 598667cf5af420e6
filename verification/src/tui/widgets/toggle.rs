//! On/off toggle bound to a `bool`.
use vstd::prelude::*;

verus! {

/// A toggle as it is drawn.
pub struct Toggle<'a> {
    pub label: &'a str,
    pub value: bool,
    pub focused: bool,
}

impl<'a> Toggle<'a> {
    pub fn new(label: &'a str, value: bool, focused: bool) -> (r: Self)
        ensures
            r.label == label,
            r.value == value,
            r.focused == focused,
    {
        Toggle { label, value, focused }
    }
}

} // verus!
