//! The landing screen: a command line that logs the user in and moves on
//! to the home screen.

use vstd::prelude::*;

use crate::context::{
    only_command_changed, only_loading_changed, only_routes_changed, routes_popped, routes_pushed,
    Context,
};
use crate::entities::configuration::Configuration;
use crate::enums::request::Request;
use crate::strutil::{string_pop, string_push, str_to_string};
use crate::utils::keycode::{Event, KeyCode};

verus! {

/// What the landing commands do: "exit" navigates back, the loading
/// commands drive the loading flag, "login" raises the one request of this
/// screen — authorization, with "login_success" to run afterwards — and
/// "login_success" pushes the home route.
pub open spec fn landing_cmd_rel(cmd: Seq<char>, a: Context, b: Context, r: Option<Request>) -> bool {
    if cmd == "exit"@ {
        only_routes_changed(b, a) && routes_popped(b, a) && r is None
    } else if cmd == "loading show"@ {
        only_loading_changed(b, a) && b.loading == true && r is None
    } else if cmd == "loading hide"@ {
        only_loading_changed(b, a) && b.loading == false && r is None
    } else if cmd == "login"@ {
        b == a && (match r {
            Option::Some(Request::Authorization(c)) => c@ == "login_success"@,
            _ => false,
        })
    } else if cmd == "login_success"@ {
        only_routes_changed(b, a) && routes_pushed(b, a, "/home"@) && r is None
    } else {
        b == a && r is None
    }
}

/// Apply one landing command to the snapshot.
pub fn commands(_config: &Configuration, command: &String, context: &mut Context) -> (r: Option<
    Request,
>)
    ensures
        landing_cmd_rel(command@, *old(context), *final(context), r),
{
    let cmd = command.as_str();
    if crate::strutil::str_eq(cmd, "exit") {
        context.route_pop();
        Option::None
    } else if crate::strutil::str_eq(cmd, "loading show") {
        context.show_loading();
        Option::None
    } else if crate::strutil::str_eq(cmd, "loading hide") {
        context.hide_loading();
        Option::None
    } else if crate::strutil::str_eq(cmd, "login") {
        Option::Some(Request::Authorization(str_to_string("login_success")))
    } else if crate::strutil::str_eq(cmd, "login_success") {
        context.route_push(str_to_string("/home"));
        Option::None
    } else {
        Option::None
    }
}

/// What the landing keymap does: characters and Backspace edit the command
/// buffer, and Enter submits the buffer's contents as a command and clears
/// it.
pub open spec fn landing_key_rel(ev: Event, a: Context, b: Context, r: Option<String>) -> bool {
    match ev {
        Event::Key(k) => {
            if k.code matches KeyCode::Char(_) {
                only_command_changed(b, a) && b.command@ == a.command@.push(k.code->Char_0)
                    && r is None
            } else if k.code == KeyCode::Backspace {
                only_command_changed(b, a) && b.command@ == (if a.command@.len() > 0 {
                    a.command@.drop_last()
                } else {
                    a.command@
                }) && r is None
            } else if k.code == KeyCode::Enter {
                only_command_changed(b, a) && b.command@.len() == 0 && r is Some && r.unwrap()@
                    == a.command@
            } else {
                b == a && r is None
            }
        },
        _ => b == a && r is None,
    }
}

/// Turn one key press on the landing screen into a command.
pub fn keymaps(_config: &Configuration, event: &Event, context: &mut Context) -> (r: Option<
    String,
>)
    ensures
        landing_key_rel(*event, *old(context), *final(context), r),
{
    match event {
        Event::Key(k) => {
            match k.code {
                KeyCode::Char(c) => {
                    string_push(&mut context.command, c);
                    Option::None
                },
                KeyCode::Backspace => {
                    let _ = string_pop(&mut context.command);
                    Option::None
                },
                KeyCode::Enter => {
                    let submitted = context.command.clone();
                    context.clear_command();
                    Option::Some(submitted)
                },
                _ => Option::None,
            }
        },
        _ => Option::None,
    }
}

} // verus!
