//! The home screen: the workspace view. Commands and key presses go to the
//! focused sub-widget first; the screen itself handles navigating back and
//! moving focus.

use vstd::prelude::*;

use crate::context::{only_focus_changed, only_routes_changed, routes_popped, Context};
use crate::entities::configuration::Configuration;
use crate::enums::request::Request;
use crate::keymaps::config_keys_valid;
use crate::presentation::widgets::channels;
use crate::strutil::{starts_with, str_after_prefix, str_eq, str_starts_with, str_to_string};
use crate::utils::keycode::{Event, KeyCode, KeyModifiers};

verus! {

/// The screen's own pass over a command, run after the focused widget:
/// "back" navigates back and "focus <id>" moves focus.
pub open spec fn home_post_rel(cmd: Seq<char>, m: Context, b: Context) -> bool {
    if cmd == "back"@ {
        only_routes_changed(b, m) && routes_popped(b, m)
    } else if starts_with(cmd, "focus "@) {
        only_focus_changed(b, m) && b.focus_id@ == cmd.subrange(6, cmd.len() as int)
    } else {
        b == m
    }
}

/// What the home commands do: with the channel list focused the command
/// first runs through it — where any request arises — and the screen's own
/// pass follows.
pub open spec fn home_cmd_rel(cmd: Seq<char>, a: Context, b: Context, r: Option<Request>) -> bool {
    if a.focus_id@ == "channels"@ {
        exists|m: Context|
            #[trigger] channels::channels_cmd_rel(cmd, a, m, r) && home_post_rel(cmd, m, b)
    } else {
        r is None && home_post_rel(cmd, a, b)
    }
}

/// Apply one command to the home screen.
pub fn commands(_config: &Configuration, command: &String, context: &mut Context) -> (r: Option<
    Request,
>)
    ensures
        home_cmd_rel(command@, *old(context), *final(context), r),
{
    proof {
        reveal_strlit("focus ");
    }
    let focused = str_eq(context.focus_id.as_str(), "channels");
    let focus_commands: Option<Request> = if focused {
        channels::commands(_config, command, context)
    } else {
        Option::None
    };
    let ghost mid = *context;

    let cmd = command.as_str();
    if str_eq(cmd, "back") {
        context.route_pop();
    } else if str_starts_with(cmd, "focus ") {
        let focus_id = str_after_prefix(cmd, "focus ");
        context.set_focus(focus_id);
    }
    proof {
        if old(context).focus_id@ == "channels"@ {
            assert(channels::channels_cmd_rel(command@, *old(context), mid, focus_commands)
                && home_post_rel(command@, mid, *context));
        }
    }
    focus_commands
}

/// What the home keymap yields: shift-Q always means back, any other key
/// with nothing focused focuses the channel list, and otherwise the
/// focused widget's reading stands. The snapshot is left alone.
pub open spec fn home_key_rel(cfg: Configuration, ev: Event, a: Context, r: Option<String>) -> bool {
    match ev {
        Event::Key(k) => {
            if k.modifiers == KeyModifiers::Shift && k.code == KeyCode::Char('Q') {
                r is Some && r.unwrap()@ == "back"@
            } else if a.focus_id@.len() == 0 {
                r is Some && r.unwrap()@ == "focus channels"@
            } else if a.focus_id@ == "channels"@ {
                channels::channels_key_rel(cfg, ev, a, r)
            } else {
                r is None
            }
        },
        _ => {
            if a.focus_id@ == "channels"@ {
                channels::channels_key_rel(cfg, ev, a, r)
            } else {
                r is None
            }
        },
    }
}

/// Turn one key press on the home screen into a command.
pub fn keymaps(_config: &Configuration, event: &Event, _context: &mut Context) -> (r: Option<
    String,
>)
    requires
        config_keys_valid(*_config),
    ensures
        *final(_context) == *old(_context),
        home_key_rel(*_config, *event, *old(_context), r),
{
    let focused = str_eq(_context.focus_id.as_str(), "channels");
    let focus_keymaps: Option<String> = if focused {
        channels::keymaps(_config, event, _context)
    } else {
        Option::None
    };

    match event {
        Event::Key(k) => {
            if k.modifiers == KeyModifiers::Shift && k.code == KeyCode::Char('Q') {
                Option::Some(str_to_string("back"))
            } else if _context.focus_id.as_str().is_empty() {
                Option::Some(str_to_string("focus channels"))
            } else {
                focus_keymaps
            }
        },
        _ => focus_keymaps,
    }
}

} // verus!
