//! The loading animation: one frame of the spinner and the index of the
//! next. Drawing the frame onto the terminal is the shell's side; this is
//! the part that decides what the frame says.

use vstd::prelude::*;

use crate::strutil::string_push;

verus! {

/// The text of one loading frame and the index the animation continues
/// with: the frame shows the indicated spinner symbol, and the index walks
/// the symbols cyclically.
pub fn loading_frame(symbols: &str, index: usize) -> (r: (String, usize))
    requires
        symbols@.len() > 0,
        index < symbols@.len(),
    ensures
        r.0@ == "  "@.push(symbols@[index as int]) + " Loading...  "@,
        r.1 == (if index + 1 < symbols@.len() {
            index + 1
        } else {
            0
        }),
{
    let n = symbols.unicode_len();
    let c = symbols.get_char(index);
    let mut text = crate::strutil::str_to_string("  ");
    string_push(&mut text, c);
    text.append(" Loading...  ");
    let next: usize = if index + 1 < n {
        index + 1
    } else {
        0
    };
    (text, next)
}

} // verus!
