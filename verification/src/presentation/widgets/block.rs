//! The bordered box every section sits in; highlighted in the mode's
//! colour when its section has focus.

use vstd::prelude::*;

use crate::enums::user_mode::{mode_color, UserMode};
use crate::enums::widgets::BlockData;
use crate::style::{plain_style, Color, TextStyle};

verus! {

/// The border style a section's box carries: the mode's colour when the
/// section has focus, unstyled otherwise.
pub open spec fn section_border_style(highlight: bool, mode: UserMode) -> TextStyle {
    if highlight {
        TextStyle { fg: mode_color(mode), bg: Color::Reset, bold: false }
    } else {
        plain_style()
    }
}

pub open spec fn section_block(highlight: bool, mode: UserMode, b: BlockData) -> bool {
    &&& b.title is None
    &&& b.borders == true
    &&& b.rounded == true
    &&& b.border_style == section_border_style(highlight, mode)
}

/// The rounded, all-sides border every section is drawn in.
pub fn build(highlight: bool, mode: &UserMode) -> (r: BlockData)
    ensures
        section_block(highlight, *mode, r),
{
    let style = if highlight {
        TextStyle { fg: mode.to_color(), bg: Color::Reset, bold: false }
    } else {
        TextStyle::plain()
    };
    BlockData { title: Option::None, borders: true, rounded: true, border_style: style }
}

} // verus!
