//! The snapshot: everything the interface depends on at one point in time.
//!
//! Loops never share a snapshot by reference; each works on its own copy and
//! publishes a replacement. The route stack's last entry names the current
//! screen, and an empty stack is the one exit signal.

use vstd::prelude::*;

use crate::entities::authorization::{authorization_eq, authorization_equal, Authorization};
use crate::enums::user_mode::UserMode;
use crate::eqv::{strings_eq, strings_equal};
use crate::states::{state_eq, state_equal, is_initial_state, State};
use crate::strutil::str_to_string;

verus! {

pub struct Context {
    pub mode: UserMode,
    pub routes: Vec<String>,
    pub command: String,
    pub loading: bool,
    pub auth: Option<Authorization>,
    pub state: State,
    pub focus_id: String,
}

pub open spec fn opt_authorization_equal(a: Option<Authorization>, b: Option<Authorization>) -> bool {
    match (a, b) {
        (Option::None, Option::None) => true,
        (Option::Some(x), Option::Some(y)) => authorization_equal(x, y),
        _ => false,
    }
}

/// Equality of snapshot contents: the one signal that decides whether the
/// render loop redraws.
pub open spec fn ctx_equal(a: Context, b: Context) -> bool {
    &&& a.mode == b.mode
    &&& strings_equal(a.routes@, b.routes@)
    &&& a.command@ == b.command@
    &&& a.loading == b.loading
    &&& opt_authorization_equal(a.auth, b.auth)
    &&& state_equal(a.state, b.state)
    &&& a.focus_id@ == b.focus_id@
}

/// Everything outside the domain state and the mode agrees between the two
/// snapshots.
pub open spec fn ctx_same_outside_state(b: Context, a: Context) -> bool {
    &&& b.routes == a.routes
    &&& b.command == a.command
    &&& b.loading == a.loading
    &&& b.auth == a.auth
    &&& b.focus_id == a.focus_id
}

/// Only the route stack may differ between the snapshots.
pub open spec fn only_routes_changed(b: Context, a: Context) -> bool {
    &&& b.mode == a.mode
    &&& b.command == a.command
    &&& b.loading == a.loading
    &&& b.auth == a.auth
    &&& b.state == a.state
    &&& b.focus_id == a.focus_id
}

/// Only the loading flag may differ between the snapshots.
pub open spec fn only_loading_changed(b: Context, a: Context) -> bool {
    &&& b.mode == a.mode
    &&& b.routes == a.routes
    &&& b.command == a.command
    &&& b.auth == a.auth
    &&& b.state == a.state
    &&& b.focus_id == a.focus_id
}

/// Only the command buffer may differ between the snapshots.
pub open spec fn only_command_changed(b: Context, a: Context) -> bool {
    &&& b.mode == a.mode
    &&& b.routes == a.routes
    &&& b.loading == a.loading
    &&& b.auth == a.auth
    &&& b.state == a.state
    &&& b.focus_id == a.focus_id
}

/// Only the focus may differ between the snapshots.
pub open spec fn only_focus_changed(b: Context, a: Context) -> bool {
    &&& b.mode == a.mode
    &&& b.routes == a.routes
    &&& b.command == a.command
    &&& b.loading == a.loading
    &&& b.auth == a.auth
    &&& b.state == a.state
}

/// The route stack lost its top entry; with an empty stack nothing happens.
pub open spec fn routes_popped(b: Context, a: Context) -> bool {
    if a.routes@.len() > 0 {
        b.routes@ == a.routes@.drop_last()
    } else {
        b.routes@ == a.routes@
    }
}

/// The route stack gained a route with the given name on top.
pub open spec fn routes_pushed(b: Context, a: Context, name: Seq<char>) -> bool {
    &&& b.routes@.len() == a.routes@.len() + 1
    &&& (forall|i: int| 0 <= i < a.routes@.len() ==> b.routes@[i] == a.routes@[i])
    &&& b.routes@.last()@ == name
}

/// The snapshot everything starts from: the landing route alone on the
/// stack, normal mode, nothing loaded and nothing focused.
pub open spec fn is_default_context(c: Context) -> bool {
    &&& c.mode == UserMode::Normal
    &&& c.routes@.len() == 1 && c.routes@[0]@ == "/"@
    &&& c.command@.len() == 0
    &&& c.loading == false
    &&& c.auth is None
    &&& is_initial_state(c.state)
    &&& c.focus_id@.len() == 0
}

impl Default for Context {
    fn default() -> (r: Self)
        ensures
            is_default_context(r),
    {
        let mut routes: Vec<String> = Vec::new();
        routes.push(str_to_string("/"));
        Context {
            mode: UserMode::Normal,
            command: String::new(),
            routes,
            loading: false,
            auth: Option::None,
            state: State::new(),
            focus_id: String::new(),
        }
    }
}

impl Context {
    /// The route on top of the stack: the screen in charge.
    pub fn current_route(&self) -> (r: &String)
        requires
            self.routes@.len() > 0,
        ensures
            r@ == self.routes@.last()@,
    {
        let n = self.routes.len();
        &self.routes[n - 1]
    }

    pub fn clear_command(&mut self)
        ensures
            final(self).command@.len() == 0,
            final(self).mode == old(self).mode,
            final(self).routes == old(self).routes,
            final(self).loading == old(self).loading,
            final(self).auth == old(self).auth,
            final(self).state == old(self).state,
            final(self).focus_id == old(self).focus_id,
    {
        self.command = String::new();
    }

    /// Navigate forward: the pushed route becomes current.
    pub fn route_push(&mut self, route: String)
        ensures
            final(self).routes@ == old(self).routes@.push(route),
            final(self).mode == old(self).mode,
            final(self).command == old(self).command,
            final(self).loading == old(self).loading,
            final(self).auth == old(self).auth,
            final(self).state == old(self).state,
            final(self).focus_id == old(self).focus_id,
    {
        self.routes.push(route);
    }

    /// Navigate back; popping the last route is the exit signal.
    pub fn route_pop(&mut self)
        ensures
            old(self).routes@.len() > 0 ==> final(self).routes@ == old(self).routes@.drop_last(),
            old(self).routes@.len() == 0 ==> final(self).routes@ == old(self).routes@,
            final(self).mode == old(self).mode,
            final(self).command == old(self).command,
            final(self).loading == old(self).loading,
            final(self).auth == old(self).auth,
            final(self).state == old(self).state,
            final(self).focus_id == old(self).focus_id,
    {
        let _ = self.routes.pop();
    }

    pub fn is_exit(&self) -> (r: bool)
        ensures
            r == (self.routes@.len() == 0),
    {
        self.routes.is_empty()
    }

    pub fn show_loading(&mut self)
        ensures
            final(self).loading == true,
            final(self).mode == old(self).mode,
            final(self).routes == old(self).routes,
            final(self).command == old(self).command,
            final(self).auth == old(self).auth,
            final(self).state == old(self).state,
            final(self).focus_id == old(self).focus_id,
    {
        self.loading = true;
    }

    pub fn hide_loading(&mut self)
        ensures
            final(self).loading == false,
            final(self).mode == old(self).mode,
            final(self).routes == old(self).routes,
            final(self).command == old(self).command,
            final(self).auth == old(self).auth,
            final(self).state == old(self).state,
            final(self).focus_id == old(self).focus_id,
    {
        self.loading = false;
    }

    pub fn is_focus(&self, id: &String) -> (r: bool)
        ensures
            r == (self.focus_id@ == id@),
    {
        self.focus_id.eq(id)
    }

    pub fn set_focus(&mut self, id: String)
        ensures
            final(self).focus_id == id,
            final(self).mode == old(self).mode,
            final(self).routes == old(self).routes,
            final(self).command == old(self).command,
            final(self).loading == old(self).loading,
            final(self).auth == old(self).auth,
            final(self).state == old(self).state,
    {
        self.focus_id = id;
    }
}

impl Clone for Context {
    fn clone(&self) -> (res: Self)
        ensures
            ctx_equal(res, *self),
    {
        let mut routes: Vec<String> = Vec::new();
        let n = self.routes.len();
        let mut i: usize = 0;
        while i < n
            invariant
                n == self.routes.len(),
                0 <= i <= n,
                routes@.len() == i,
                forall|j: int| 0 <= j < i ==> routes@[j]@ == self.routes@[j]@,
            decreases n - i,
        {
            routes.push(self.routes[i].clone());
            i += 1;
        }
        Context {
            mode: self.mode,
            routes,
            command: self.command.clone(),
            loading: self.loading,
            auth: match &self.auth {
                Option::None => Option::None,
                Option::Some(a) => Option::Some(a.clone()),
            },
            state: self.state.clone(),
            focus_id: self.focus_id.clone(),
        }
    }
}

pub fn opt_authorization_eq(a: &Option<Authorization>, b: &Option<Authorization>) -> (r: bool)
    ensures
        r == opt_authorization_equal(*a, *b),
{
    match (a, b) {
        (Option::None, Option::None) => true,
        (Option::Some(x), Option::Some(y)) => authorization_eq(x, y),
        _ => false,
    }
}

/// The change test the render loop runs each tick.
pub fn context_eq(a: &Context, b: &Context) -> (r: bool)
    ensures
        r == ctx_equal(*a, *b),
{
    a.mode == b.mode && strings_eq(&a.routes, &b.routes) && a.command == b.command && a.loading
        == b.loading && opt_authorization_eq(&a.auth, &b.auth) && state_eq(&a.state, &b.state)
        && a.focus_id == b.focus_id
}

} // verus!
