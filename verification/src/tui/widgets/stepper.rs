//! Numeric stepper: an integer moved by steps within a range.
use vstd::prelude::*;
use crate::tui::keys::{KeyCode, KeyEvent};

verus! {

/// A stepper as it is drawn.
pub struct Stepper<'a> {
    pub label: &'a str,
    pub value: i64,
    pub min: i64,
    pub max: i64,
    pub focused: bool,
}

#[derive(Debug, PartialEq, Eq)]
pub enum StepperOutcome {
    /// The key was not used.
    Ignored,
    Changed(i64),
    OutOfRange,
}

/// `x` clamped to the range of `i64` (saturating arithmetic).
pub open spec fn saturate(x: int) -> int {
    if x > i64::MAX {
        i64::MAX as int
    } else if x < i64::MIN {
        i64::MIN as int
    } else {
        x
    }
}

/// The outcome of a key: up/down (or `k`/`j`) step by one and refuse to
/// leave the range; page up/down step by a hundred and stop at its ends.
pub open spec fn stepper_step(code: KeyCode, current: int, min: int, max: int) -> StepperOutcome {
    match code {
        KeyCode::Up | KeyCode::Char('k') => {
            let next = saturate(current + 1);
            if next > max {
                StepperOutcome::OutOfRange
            } else {
                StepperOutcome::Changed(next as i64)
            }
        },
        KeyCode::Down | KeyCode::Char('j') => {
            let next = saturate(current - 1);
            if next < min {
                StepperOutcome::OutOfRange
            } else {
                StepperOutcome::Changed(next as i64)
            }
        },
        KeyCode::PageUp => {
            let next = saturate(current + 100);
            StepperOutcome::Changed(
                if next <= max {
                    next as i64
                } else {
                    max as i64
                },
            )
        },
        KeyCode::PageDown => {
            let next = saturate(current - 100);
            StepperOutcome::Changed(
                if next >= min {
                    next as i64
                } else {
                    min as i64
                },
            )
        },
        _ => StepperOutcome::Ignored,
    }
}

fn saturating_add_i64(x: i64, d: i64) -> (r: i64)
    requires
        d >= 0,
    ensures
        r == saturate(x + d),
{
    if x > i64::MAX - d {
        i64::MAX
    } else {
        x + d
    }
}

fn saturating_sub_i64(x: i64, d: i64) -> (r: i64)
    requires
        d >= 0,
    ensures
        r == saturate(x - d),
{
    if x < i64::MIN + d {
        i64::MIN
    } else {
        x - d
    }
}

/// What a key does to a stepper holding `current` within `min..=max`.
pub fn handle_stepper_key(key: KeyEvent, current: i64, min: i64, max: i64) -> (r: StepperOutcome)
    ensures
        r == stepper_step(key.code, current as int, min as int, max as int),
{
    match key.code {
        KeyCode::Up | KeyCode::Char('k') => {
            let next = saturating_add_i64(current, 1);
            if next > max {
                StepperOutcome::OutOfRange
            } else {
                StepperOutcome::Changed(next)
            }
        },
        KeyCode::Down | KeyCode::Char('j') => {
            let next = saturating_sub_i64(current, 1);
            if next < min {
                StepperOutcome::OutOfRange
            } else {
                StepperOutcome::Changed(next)
            }
        },
        KeyCode::PageUp => {
            let next = saturating_add_i64(current, 100);
            StepperOutcome::Changed(
                if next <= max {
                    next
                } else {
                    max
                },
            )
        },
        KeyCode::PageDown => {
            let next = saturating_sub_i64(current, 100);
            StepperOutcome::Changed(
                if next >= min {
                    next
                } else {
                    min
                },
            )
        },
        _ => StepperOutcome::Ignored,
    }
}

} // verus!
