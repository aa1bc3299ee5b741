//! The screen registry: the table from route paths to screens. Every route
//! a screen can push is registered here, so lookup on a live stack never
//! fails.

use vstd::prelude::*;

use crate::strutil::{str_eq, str_to_string};

verus! {

/// The screen a route names; behaviour varies only by which screen is
/// installed, selected by this table.
#[derive(Clone, Copy, PartialEq, Eq, Structural, Debug)]
pub enum ScreenId {
    Landing,
    Home,
}

/// The registry as a table: which screen each route path names.
pub open spec fn route_screen(r: Seq<char>) -> Option<ScreenId> {
    if r == "/"@ {
        Option::Some(ScreenId::Landing)
    } else if r == "/home"@ {
        Option::Some(ScreenId::Home)
    } else {
        Option::None
    }
}

pub open spec fn registered(r: Seq<char>) -> bool {
    route_screen(r) is Some
}

/// The whole table, in registration order.
pub fn get_all() -> (r: Vec<(String, ScreenId)>)
    ensures
        r@.len() == 2,
        r@[0].0@ == "/"@ && r@[0].1 == ScreenId::Landing,
        r@[1].0@ == "/home"@ && r@[1].1 == ScreenId::Home,
        forall|i: int| 0 <= i < r@.len() ==> route_screen(#[trigger] r@[i].0@) == Option::Some(
            r@[i].1,
        ),
{
    proof {
        reveal_strlit("/");
        reveal_strlit("/home");
        assert("/"@ != "/home"@) by {
            assert("/"@.len() == 1 && "/home"@.len() == 5);
        }
    }
    let mut routes: Vec<(String, ScreenId)> = Vec::new();
    routes.push((str_to_string("/"), ScreenId::Landing));
    routes.push((str_to_string("/home"), ScreenId::Home));
    routes
}

/// The screen a route names, if the route is registered.
pub fn lookup(name: &str) -> (r: Option<ScreenId>)
    ensures
        r == route_screen(name@),
{
    if str_eq(name, "/") {
        Option::Some(ScreenId::Landing)
    } else if str_eq(name, "/home") {
        Option::Some(ScreenId::Home)
    } else {
        Option::None
    }
}

/// The screen in charge of a registered route.
pub fn get(name: &str) -> (r: ScreenId)
    requires
        registered(name@),
    ensures
        Option::Some(r) == route_screen(name@),
{
    match lookup(name) {
        Option::Some(s) => s,
        Option::None => vstd::pervasive::unreached(),
    }
}

} // verus!
