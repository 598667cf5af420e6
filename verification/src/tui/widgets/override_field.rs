//! Two-state override: inherit the global value, or set a custom one.
use vstd::prelude::*;
use crate::tui::keys::{KeyCode, KeyEvent};

verus! {

#[derive(Debug, Clone, Copy, PartialEq, Eq, Structural)]
pub enum OverrideState {
    Inherit,
    Custom,
}

impl Default for OverrideState {
    fn default() -> (r: Self)
        ensures
            r == OverrideState::Inherit,
    {
        OverrideState::Inherit
    }
}

/// An override field as it is drawn.
pub struct OverrideField<'a> {
    pub label: &'a str,
    pub state: &'a OverrideState,
    pub inherited_display: &'a str,
    pub focused: bool,
}

/// The other state.
pub fn toggle_override(state: &OverrideState) -> (r: OverrideState)
    ensures
        r == match *state {
            OverrideState::Inherit => OverrideState::Custom,
            OverrideState::Custom => OverrideState::Inherit,
        },
        r != *state,
{
    match state {
        OverrideState::Inherit => OverrideState::Custom,
        OverrideState::Custom => OverrideState::Inherit,
    }
}

/// Tab or space flips the state; other keys leave it.
pub fn handle_override_key(key: KeyEvent, state: &OverrideState) -> (r: Option<OverrideState>)
    ensures
        r == match key.code {
            KeyCode::Tab | KeyCode::Char(' ') => Some(
                match *state {
                    OverrideState::Inherit => OverrideState::Custom,
                    OverrideState::Custom => OverrideState::Inherit,
                },
            ),
            _ => None,
        },
{
    match key.code {
        KeyCode::Tab | KeyCode::Char(' ') => Some(toggle_override(state)),
        _ => None,
    }
}

/// Flipping twice gives the state back.
pub proof fn lemma_toggle_twice(s: OverrideState)
    ensures
        match (match s {
            OverrideState::Inherit => OverrideState::Custom,
            OverrideState::Custom => OverrideState::Inherit,
        }) {
            OverrideState::Inherit => OverrideState::Custom,
            OverrideState::Custom => OverrideState::Inherit,
        } == s,
{
}

} // verus!
