//! The state the application starts in.

use vstd::prelude::*;

use crate::states::{is_initial_state, State};

verus! {

/// The fresh domain state every run begins with.
pub fn initialize() -> (r: State)
    ensures
        is_initial_state(r),
{
    State::new()
}

} // verus!
