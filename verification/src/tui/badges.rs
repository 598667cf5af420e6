//! Mode badges (`shell`, `ai`, `wrap`, `all`) shown beside settings.
use vstd::prelude::*;
use crate::text::str_eq;

verus! {

/// A badge as it is drawn.
pub struct Badge<'a> {
    pub label: &'a str,
}

/// Background of a badge.
#[derive(Debug, Clone, Copy, PartialEq, Eq, Structural)]
pub enum BadgeColor {
    Cyan,
    Magenta,
    Yellow,
    Gray,
}

pub fn badge_widget(label: &'static str) -> (r: Badge<'static>)
    ensures
        r.label == label,
{
    Badge { label }
}

impl<'a> Badge<'a> {
    /// `shell` is cyan, `ai` magenta, `wrap` yellow, anything else gray.
    pub fn color(&self) -> (r: BadgeColor)
        ensures
            r == if self.label@ == "shell"@ {
                BadgeColor::Cyan
            } else if self.label@ == "ai"@ {
                BadgeColor::Magenta
            } else if self.label@ == "wrap"@ {
                BadgeColor::Yellow
            } else {
                BadgeColor::Gray
            },
    {
        if str_eq(self.label, "shell") {
            BadgeColor::Cyan
        } else if str_eq(self.label, "ai") {
            BadgeColor::Magenta
        } else if str_eq(self.label, "wrap") {
            BadgeColor::Yellow
        } else {
            BadgeColor::Gray
        }
    }
}

} // verus!
