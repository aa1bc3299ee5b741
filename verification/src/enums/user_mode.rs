//! The input discipline the user is in, and its presentation.

use vstd::prelude::*;

use crate::style::Color;

verus! {

#[derive(Clone, Copy, PartialEq, Eq, Structural, Debug)]
pub enum UserMode {
    Normal,
    Interact,
    Search,
}

/// The status-line label of a mode.
pub open spec fn mode_name(m: UserMode) -> Seq<char> {
    match m {
        UserMode::Normal => "NORMAL"@,
        UserMode::Interact => "INTERACT"@,
        UserMode::Search => "SEARCH"@,
    }
}

/// The accent colour of a mode.
pub open spec fn mode_color(m: UserMode) -> Color {
    match m {
        UserMode::Normal => Color::Green,
        UserMode::Interact => Color::Blue,
        UserMode::Search => Color::Yellow,
    }
}

impl UserMode {
    pub fn to_string(&self) -> (r: String)
        ensures
            r@ == mode_name(*self),
    {
        match self {
            UserMode::Normal => String::from_str("NORMAL"),
            UserMode::Interact => String::from_str("INTERACT"),
            UserMode::Search => String::from_str("SEARCH"),
        }
    }

    pub fn to_color(&self) -> (r: Color)
        ensures
            r == mode_color(*self),
    {
        match self {
            UserMode::Normal => Color::Green,
            UserMode::Interact => Color::Blue,
            UserMode::Search => Color::Yellow,
        }
    }
}

} // verus!
