//! View-based equality helpers shared by the data model.
//!
//! The snapshot types carry `String` and `Vec` fields, so the equality that
//! the render loop's change detection needs is equality of contents, stated
//! here as spec relations over views, each with an executable test.

use vstd::prelude::*;

verus! {

pub open spec fn opt_string_equal(a: Option<String>, b: Option<String>) -> bool {
    match (a, b) {
        (Option::None, Option::None) => true,
        (Option::Some(x), Option::Some(y)) => x@ == y@,
        _ => false,
    }
}

pub fn opt_string_eq(a: &Option<String>, b: &Option<String>) -> (r: bool)
    ensures
        r == opt_string_equal(*a, *b),
{
    match (a, b) {
        (Option::None, Option::None) => true,
        (Option::Some(x), Option::Some(y)) => x.eq(y),
        _ => false,
    }
}

pub open spec fn strings_equal(a: Seq<String>, b: Seq<String>) -> bool {
    a.len() == b.len() && forall|i: int| 0 <= i < a.len() ==> a[i]@ == b[i]@
}

pub fn strings_eq(a: &Vec<String>, b: &Vec<String>) -> (r: bool)
    ensures
        r == strings_equal(a@, b@),
{
    if a.len() != b.len() {
        return false;
    }
    let n = a.len();
    let mut i: usize = 0;
    while i < n
        invariant
            n == a.len() == b.len(),
            0 <= i <= n,
            forall|j: int| 0 <= j < i ==> a@[j]@ == b@[j]@,
        decreases n - i,
    {
        if !(a[i] == b[i]) {
            return false;
        }
        i += 1;
    }
    true
}

/// Duplicate an optional string; the copy has the same contents.
pub fn opt_string_dup(a: &Option<String>) -> (r: Option<String>)
    ensures
        opt_string_equal(r, *a),
{
    match a {
        Option::None => Option::None,
        Option::Some(s) => Option::Some(s.clone()),
    }
}

} // verus!
