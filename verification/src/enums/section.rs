//! The rectangular screen regions a frame is partitioned into; each has its
//! own dirty check and its own slot in the frame's widget map.

use vstd::prelude::*;

use crate::strutil::str_eq;

verus! {

#[derive(Clone, Copy, PartialEq, Eq, Structural, Debug)]
pub enum Section {
    Channel,
    Message,
    Input,
    StatusLine,
    Thread,
    Command,
    Unknown,
}

/// The name a section's widgets are filed under in the frame map.
pub open spec fn section_name(s: Section) -> Seq<char> {
    match s {
        Section::Channel => "channel"@,
        Section::Message => "message"@,
        Section::Input => "input"@,
        Section::StatusLine => "status_line"@,
        _ => Seq::<char>::empty(),
    }
}

impl Section {
    pub fn to_string(&self) -> (r: String)
        ensures
            r@ == section_name(*self),
    {
        match self {
            Section::Channel => String::from_str("channel"),
            Section::Message => String::from_str("message"),
            Section::Input => String::from_str("input"),
            Section::StatusLine => String::from_str("status_line"),
            _ => String::new(),
        }
    }

    pub fn from_str(value: &str) -> (r: Section)
        ensures
            value@ == "channel"@ ==> r is Channel,
            value@ == "message"@ ==> r is Message,
            value@ == "input"@ ==> r is Input,
            value@ == "status_line"@ ==> r is StatusLine,
            value@ != "channel"@ && value@ != "message"@ && value@ != "input"@ && value@
                != "status_line"@ ==> r is Unknown,
    {
        proof {
            reveal_strlit("channel");
            reveal_strlit("message");
            reveal_strlit("input");
            reveal_strlit("status_line");
            assert("channel"@ != "message"@) by {
                assert("channel"@[0] == 'c' && "message"@[0] == 'm');
            }
            assert("channel"@ != "input"@) by {
                assert("channel"@.len() == 7 && "input"@.len() == 5);
            }
            assert("channel"@ != "status_line"@) by {
                assert("channel"@.len() == 7 && "status_line"@.len() == 11);
            }
            assert("message"@ != "input"@) by {
                assert("message"@.len() == 7 && "input"@.len() == 5);
            }
            assert("message"@ != "status_line"@) by {
                assert("message"@.len() == 7 && "status_line"@.len() == 11);
            }
            assert("input"@ != "status_line"@) by {
                assert("input"@.len() == 5 && "status_line"@.len() == 11);
            }
        }
        if str_eq(value, "channel") {
            Section::Channel
        } else if str_eq(value, "message") {
            Section::Message
        } else if str_eq(value, "input") {
            Section::Input
        } else if str_eq(value, "status_line") {
            Section::StatusLine
        } else {
            Section::Unknown
        }
    }
}

} // verus!
