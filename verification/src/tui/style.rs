//! Shared layout measures of the editor's tabs.
use vstd::prelude::*;

verus! {

/// Padding from a tab's left edge to its content.
pub const CONTENT_LEFT_PAD: u16 = 0;

/// Indent of content inside a section.
pub const SECTION_INDENT: u16 = 2;

/// Width kept for a section badge at the right of its header.
pub const BADGE_WIDTH: u16 = 8;

/// Column where radio descriptions start: after the 4-character bullet,
/// the longest label and a 4-character gap.
pub fn description_column(area_x: u16, max_label_width: u16) -> (r: u16)
    requires
        area_x + max_label_width + 8 <= u16::MAX,
    ensures
        r == area_x + 4 + max_label_width + 4,
{
    area_x + 4 + max_label_width + 4
}

} // verus!
