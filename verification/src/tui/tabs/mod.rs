//! The editor's tabs: their cursor state, and what a tab tells the editor
//! after a key.
use vstd::prelude::*;

pub mod context;
pub mod custom_checks;
pub mod escalation;
pub mod general;
pub mod groups;
pub mod ignore_deny;
pub mod llm;
pub mod wrap;

verus! {

/// Information about the focused field, shown in the editor's help strip.
#[derive(Debug, Clone)]
pub struct FieldFocus {
    pub name: String,
    pub badges: Vec<&'static str>,
    pub help: String,
}

impl Default for FieldFocus {
    fn default() -> (r: Self)
        ensures
            r.name@.len() == 0,
            r.badges@.len() == 0,
            r.help@.len() == 0,
    {
        FieldFocus { name: String::new(), badges: Vec::new(), help: String::new() }
    }
}

/// A focused-field description as a mathematical value.
pub struct FocusModel {
    pub name: Seq<char>,
    pub badges: Seq<Seq<char>>,
    pub help: Seq<char>,
}

impl View for FieldFocus {
    type V = FocusModel;

    open spec fn view(&self) -> FocusModel {
        FocusModel {
            name: self.name@,
            badges: self.badges@.map_values(|b: &'static str| b@),
            help: self.help@,
        }
    }
}

/// The focus description `name`, with one badge and a help line.
pub fn focus_with(name: String, badge: &'static str, help: &str) -> (r: FieldFocus)
    ensures
        r@ == (FocusModel { name: name@, badges: seq![badge@], help: help@ }),
{
    let mut badges: Vec<&'static str> = Vec::new();
    badges.push(badge);
    let r = FieldFocus { name, badges, help: crate::text::owned(help) };
    proof {
        assert(r.badges@.map_values(|b: &'static str| b@) =~= seq![badge@]);
    }
    r
}

/// A tab outcome as a mathematical value.
pub enum TabResult {
    Ignored,
    FocusChanged(FocusModel),
    Mutated,
    Consumed,
}

/// What a tab did with a key.
#[derive(Debug)]
pub enum TabOutcome {
    /// The tab did not use the key; the editor may (arrows switch tabs).
    Ignored,
    /// Focus moved to another field.
    FieldFocusChanged(FieldFocus),
    /// The edited settings changed.
    Mutated,
    /// The key was used but nothing visible changed.
    Consumed,
}

impl Default for TabOutcome {
    fn default() -> (r: Self)
        ensures
            r is Ignored,
    {
        TabOutcome::Ignored
    }
}

impl View for TabOutcome {
    type V = TabResult;

    open spec fn view(&self) -> TabResult {
        match self {
            TabOutcome::Ignored => TabResult::Ignored,
            TabOutcome::FieldFocusChanged(f) => TabResult::FocusChanged(f@),
            TabOutcome::Mutated => TabResult::Mutated,
            TabOutcome::Consumed => TabResult::Consumed,
        }
    }
}

} // verus!
