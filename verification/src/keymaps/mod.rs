//! The keymap layer of the input loop: how one terminal key press, under
//! the configured bindings, rewrites the snapshot — moving focus between
//! sections, walking selections, and editing the input and search buffers.

use vstd::prelude::*;

use crate::context::{ctx_same_outside_state, Context};
use crate::entities::configuration::Configuration;
use crate::entities::messages::{message_eq, message_equal, Message};
use crate::enums::section::Section;
use crate::enums::user_mode::UserMode;
use crate::strutil::{char_upper, string_pop, string_push, upper_of};
use crate::utils::keycode::{from_string, key_spec, Event, KeyCode, KeyModifiers};

verus! {

/// Every configured binding names a key.
pub open spec fn config_keys_valid(c: Configuration) -> bool {
    &&& key_spec(c.keymaps.up@) is Some
    &&& key_spec(c.keymaps.down@) is Some
    &&& key_spec(c.keymaps.left@) is Some
    &&& key_spec(c.keymaps.right@) is Some
    &&& key_spec(c.keymaps.exit@) is Some
    &&& key_spec(c.keymaps.open@) is Some
    &&& key_spec(c.keymaps.search@) is Some
    &&& key_spec(c.keymaps.interact@) is Some
    &&& key_spec(c.keymaps.send@) is Some
    &&& key_spec(c.keymaps.focus.up@) is Some
    &&& key_spec(c.keymaps.focus.down@) is Some
    &&& key_spec(c.keymaps.focus.left@) is Some
    &&& key_spec(c.keymaps.focus.right@) is Some
}

/// Check every configured binding; the keymaps demand this once at startup.
pub fn validate_config(c: &Configuration) -> (r: bool)
    ensures
        r == config_keys_valid(*c),
{
    crate::utils::keycode::parse_key(c.keymaps.up.as_str()).is_some()
        && crate::utils::keycode::parse_key(c.keymaps.down.as_str()).is_some()
        && crate::utils::keycode::parse_key(c.keymaps.left.as_str()).is_some()
        && crate::utils::keycode::parse_key(c.keymaps.right.as_str()).is_some()
        && crate::utils::keycode::parse_key(c.keymaps.exit.as_str()).is_some()
        && crate::utils::keycode::parse_key(c.keymaps.open.as_str()).is_some()
        && crate::utils::keycode::parse_key(c.keymaps.search.as_str()).is_some()
        && crate::utils::keycode::parse_key(c.keymaps.interact.as_str()).is_some()
        && crate::utils::keycode::parse_key(c.keymaps.send.as_str()).is_some()
        && crate::utils::keycode::parse_key(c.keymaps.focus.up.as_str()).is_some()
        && crate::utils::keycode::parse_key(c.keymaps.focus.down.as_str()).is_some()
        && crate::utils::keycode::parse_key(c.keymaps.focus.left.as_str()).is_some()
        && crate::utils::keycode::parse_key(c.keymaps.focus.right.as_str()).is_some()
}

/// A key press hits the binding named by the given string.
pub open spec fn hits(k: crate::utils::keycode::KeyPress, binding: Seq<char>) -> bool {
    (k.modifiers, k.code) == key_spec(binding).unwrap()
}

/// Only the focused section may differ between the snapshots.
pub open spec fn only_section_changed(b: Context, a: Context) -> bool {
    &&& b.mode == a.mode
    &&& ctx_same_outside_state(b, a)
    &&& b.state.global.members == a.state.global.members
    &&& b.state.global.exit == a.state.global.exit
    &&& b.state.channel == a.state.channel
    &&& b.state.message == a.state.message
    &&& b.state.input == a.state.input
    &&& b.state.thread == a.state.thread
}

/// What the section-navigation keymap does: in normal mode the focus keys
/// move between sections and the exit key raises the exit flag; everything
/// else leaves the snapshot alone.
pub open spec fn generic_rel(cfg: Configuration, ev: Event, a: Context, b: Context) -> bool {
    if a.mode != UserMode::Normal {
        b == a
    } else {
        match ev {
            Event::Key(k) => {
                if hits(k, cfg.keymaps.focus.up@) {
                    if a.state.global.section == Section::Input {
                        only_section_changed(b, a) && b.state.global.section == (
                        if a.state.message.opened is Some {
                            Section::Thread
                        } else {
                            Section::Message
                        })
                    } else {
                        b == a
                    }
                } else if hits(k, cfg.keymaps.focus.down@) {
                    if a.state.global.section == Section::Message || a.state.global.section
                        == Section::Thread {
                        only_section_changed(b, a) && b.state.global.section == Section::Input
                    } else {
                        b == a
                    }
                } else if hits(k, cfg.keymaps.focus.left@) {
                    if a.state.global.section == Section::Message || a.state.global.section
                        == Section::Input {
                        only_section_changed(b, a) && b.state.global.section == Section::Channel
                    } else if a.state.global.section == Section::Thread {
                        only_section_changed(b, a) && b.state.global.section == Section::Message
                    } else {
                        b == a
                    }
                } else if hits(k, cfg.keymaps.focus.right@) {
                    if a.state.global.section == Section::Channel {
                        only_section_changed(b, a) && b.state.global.section == Section::Message
                    } else if a.state.global.section == Section::Message {
                        if a.state.message.opened is Some {
                            only_section_changed(b, a) && b.state.global.section == Section::Thread
                        } else {
                            b == a
                        }
                    } else {
                        b == a
                    }
                } else if hits(k, cfg.keymaps.exit@) {
                    &&& b.mode == a.mode
                    &&& ctx_same_outside_state(b, a)
                    &&& b.state.global.members == a.state.global.members
                    &&& b.state.global.section == a.state.global.section
                    &&& b.state.global.exit == true
                    &&& b.state.channel == a.state.channel
                    &&& b.state.message == a.state.message
                    &&& b.state.input == a.state.input
                    &&& b.state.thread == a.state.thread
                } else {
                    b == a
                }
            },
            _ => b == a,
        }
    }
}

/// Move focus between sections and catch the exit key.
pub fn generic(event: &Event, config: &Configuration, context: &mut Context)
    requires
        config_keys_valid(*config),
    ensures
        generic_rel(*config, *event, *old(context), *final(context)),
{
    let up = from_string(config.keymaps.focus.up.clone());
    let down = from_string(config.keymaps.focus.down.clone());
    let left = from_string(config.keymaps.focus.left.clone());
    let right = from_string(config.keymaps.focus.right.clone());
    let quit = from_string(config.keymaps.exit.clone());

    if !(context.mode == UserMode::Normal) {
        return;
    }
    match event {
        Event::Key(k) => {
            if k.modifiers == up.0 && k.code == up.1 {
                if context.state.global.section == Section::Input {
                    context.state.global.section = if context.state.message.opened.is_some() {
                        Section::Thread
                    } else {
                        Section::Message
                    };
                }
            } else if k.modifiers == down.0 && k.code == down.1 {
                if context.state.global.section == Section::Message || context.state.global.section
                    == Section::Thread {
                    context.state.global.section = Section::Input;
                }
            } else if k.modifiers == left.0 && k.code == left.1 {
                if context.state.global.section == Section::Message || context.state.global.section
                    == Section::Input {
                    context.state.global.section = Section::Channel;
                } else if context.state.global.section == Section::Thread {
                    context.state.global.section = Section::Message;
                }
            } else if k.modifiers == right.0 && k.code == right.1 {
                if context.state.global.section == Section::Channel {
                    context.state.global.section = Section::Message;
                } else if context.state.global.section == Section::Message {
                    if context.state.message.opened.is_some() {
                        context.state.global.section = Section::Thread;
                    }
                }
            } else if k.modifiers == quit.0 && k.code == quit.1 {
                context.state.global.exit = true;
            }
        },
        _ => {},
    }
}

/// Only the input buffer and the mode may differ between the snapshots.
pub open spec fn only_input_changed(b: Context, a: Context) -> bool {
    &&& ctx_same_outside_state(b, a)
    &&& b.state.global == a.state.global
    &&& b.state.channel == a.state.channel
    &&& b.state.message == a.state.message
    &&& b.state.thread == a.state.thread
}

/// What the composer keymap does: in normal mode the interact key enters
/// interact mode and Enter marks the buffer for sending; in interact mode
/// keys edit the buffer, the send key marks it, and Escape returns to
/// normal mode.
pub open spec fn input_rel(cfg: Configuration, ev: Event, a: Context, b: Context) -> bool {
    if a.state.global.section != Section::Input {
        b == a
    } else if a.mode == UserMode::Normal {
        match ev {
            Event::Key(k) => {
                if hits(k, cfg.keymaps.interact@) {
                    only_input_changed(b, a) && b.mode == UserMode::Interact && b.state.input
                        == a.state.input
                } else if k.modifiers == KeyModifiers::Plain && k.code == KeyCode::Enter {
                    only_input_changed(b, a) && b.mode == a.mode && b.state.input.value
                        == a.state.input.value && b.state.input.send == true
                } else {
                    b == a
                }
            },
            _ => b == a,
        }
    } else if a.mode == UserMode::Interact {
        match ev {
            Event::Key(k) => {
                if hits(k, cfg.keymaps.send@) {
                    only_input_changed(b, a) && b.mode == a.mode && b.state.input.value
                        == a.state.input.value && b.state.input.send == true
                } else if k.modifiers == KeyModifiers::Plain && (k.code matches KeyCode::Char(_)) {
                    only_input_changed(b, a) && b.mode == a.mode && b.state.input.send
                        == a.state.input.send && b.state.input.value@ == a.state.input.value@.push(
                        k.code->Char_0,
                    )
                } else if k.modifiers == KeyModifiers::Shift && (k.code matches KeyCode::Char(_)) {
                    only_input_changed(b, a) && b.mode == a.mode && b.state.input.send
                        == a.state.input.send && b.state.input.value@ == a.state.input.value@
                        + upper_of(k.code->Char_0)
                } else if k.modifiers == KeyModifiers::Plain && (k.code == KeyCode::Delete
                    || k.code == KeyCode::Backspace) {
                    only_input_changed(b, a) && b.mode == a.mode && b.state.input.send
                        == a.state.input.send && b.state.input.value@ == (
                    if a.state.input.value@.len() > 0 {
                        a.state.input.value@.drop_last()
                    } else {
                        a.state.input.value@
                    })
                } else if k.modifiers == KeyModifiers::Plain && k.code == KeyCode::Enter {
                    only_input_changed(b, a) && b.mode == a.mode && b.state.input.send
                        == a.state.input.send && b.state.input.value@ == a.state.input.value@.push(
                        '\n',
                    )
                } else if k.modifiers == KeyModifiers::Plain && k.code == KeyCode::Esc {
                    only_input_changed(b, a) && b.mode == UserMode::Normal && b.state.input
                        == a.state.input
                } else {
                    b == a
                }
            },
            _ => b == a,
        }
    } else {
        b == a
    }
}

/// Edit the composer buffer and switch between normal and interact mode.
pub fn input(event: &Event, config: &Configuration, context: &mut Context)
    requires
        config_keys_valid(*config),
    ensures
        input_rel(*config, *event, *old(context), *final(context)),
{
    if !(context.state.global.section == Section::Input) {
        return;
    }
    let interact = from_string(config.keymaps.interact.clone());
    let send = from_string(config.keymaps.send.clone());

    if context.mode == UserMode::Normal {
        match event {
            Event::Key(k) => {
                if k.modifiers == interact.0 && k.code == interact.1 {
                    context.mode = UserMode::Interact;
                } else if k.modifiers == KeyModifiers::Plain && k.code == KeyCode::Enter {
                    context.state.input.send = true;
                }
            },
            _ => {},
        }
    } else if context.mode == UserMode::Interact {
        match event {
            Event::Key(k) => {
                if k.modifiers == send.0 && k.code == send.1 {
                    context.state.input.send = true;
                } else if k.modifiers == KeyModifiers::Plain && (matches!(k.code, KeyCode::Char(_))) {
                    match k.code {
                        KeyCode::Char(c) => {
                            string_push(&mut context.state.input.value, c);
                        },
                        _ => {},
                    }
                } else if k.modifiers == KeyModifiers::Shift && (matches!(k.code, KeyCode::Char(_))) {
                    match k.code {
                        KeyCode::Char(c) => {
                            let u = char_upper(c);
                            context.state.input.value.append(u.as_str());
                        },
                        _ => {},
                    }
                } else if k.modifiers == KeyModifiers::Plain && (k.code == KeyCode::Delete
                    || k.code == KeyCode::Backspace) {
                    let _ = string_pop(&mut context.state.input.value);
                } else if k.modifiers == KeyModifiers::Plain && k.code == KeyCode::Enter {
                    string_push(&mut context.state.input.value, '\n');
                } else if k.modifiers == KeyModifiers::Plain && k.code == KeyCode::Esc {
                    context.mode = UserMode::Normal;
                }
            },
            _ => {},
        }
    }
}

/// The first position holding a message with the same contents.
pub open spec fn msg_pos_from(s: Seq<Message>, m: Message, i: int) -> Option<int>
    decreases s.len() - i,
{
    if i < 0 || i >= s.len() {
        Option::None
    } else if message_equal(s[i], m) {
        Option::Some(i)
    } else {
        msg_pos_from(s, m, i + 1)
    }
}

pub fn position_of_message(msgs: &Vec<Message>, sel: &Message) -> (r: Option<usize>)
    ensures
        match r {
            Option::None => msg_pos_from(msgs@, *sel, 0) is None,
            Option::Some(p) => p < msgs@.len() && msg_pos_from(msgs@, *sel, 0) == Option::Some(
                p as int,
            ),
        },
{
    let n = msgs.len();
    let mut i: usize = 0;
    while i < n
        invariant
            n == msgs@.len(),
            0 <= i <= n,
            msg_pos_from(msgs@, *sel, 0) == msg_pos_from(msgs@, *sel, i as int),
        decreases n - i,
    {
        if message_eq(&msgs[i], sel) {
            return Option::Some(i);
        }
        i += 1;
    }
    Option::None
}

/// The index a selection step lands on when walking up a listing: one step
/// back from the current position, staying put at the top, and the bottom
/// of the listing when nothing was selected or the selection is gone.
pub open spec fn step_up(cur: Option<Message>, s: Seq<Message>, last: int) -> int {
    match cur {
        Option::Some(sel) => match msg_pos_from(s, sel, 0) {
            Option::Some(idx) => if idx > 0 {
                idx - 1
            } else {
                idx
            },
            Option::None => last,
        },
        Option::None => last,
    }
}

/// The index a selection step lands on when walking down: one step forward,
/// staying put at the bottom; `missing` names where a lost or absent
/// selection lands.
pub open spec fn step_down(cur: Option<Message>, s: Seq<Message>, last: int, missing: int) -> int {
    match cur {
        Option::Some(sel) => match msg_pos_from(s, sel, 0) {
            Option::Some(idx) => if idx < last {
                idx + 1
            } else {
                idx
            },
            Option::None => last,
        },
        Option::None => missing,
    }
}

/// Only the message section may differ between the snapshots.
pub open spec fn only_message_changed(b: Context, a: Context) -> bool {
    &&& b.mode == a.mode
    &&& ctx_same_outside_state(b, a)
    &&& b.state.global.members == a.state.global.members
    &&& b.state.global.exit == a.state.global.exit
    &&& b.state.channel == a.state.channel
    &&& b.state.input == a.state.input
    &&& b.state.thread == a.state.thread
}

/// A selection landed on index `n` of the listing: the index is recorded
/// and the selected copy holds the same contents.
pub open spec fn selected_at(sel: Option<Message>, idx: Option<usize>, s: Seq<Message>, n: int) -> bool {
    &&& idx == Option::Some(n as usize)
    &&& sel is Some
    &&& message_equal(sel.unwrap(), s[n])
}

/// What the message-list keymap does: in normal mode with the message
/// section focused, the up and down keys walk the selection and the right
/// key opens the selected message's thread.
pub open spec fn messages_rel(cfg: Configuration, ev: Event, a: Context, b: Context) -> bool {
    let s = a.state.message.messages@;
    let last: int = if s.len() == 0 {
        0
    } else {
        s.len() - 1
    };
    if a.state.global.section != Section::Message {
        b == a
    } else if a.mode != UserMode::Normal {
        b == a
    } else {
        match ev {
            Event::Key(k) => {
                if hits(k, cfg.keymaps.up@) {
                    if s.len() == 0 {
                        b == a
                    } else {
                        let n = step_up(a.state.message.selected, s, last);
                        only_message_changed(b, a) && b.state.global.section
                            == a.state.global.section && b.state.message.messages
                            == a.state.message.messages && b.state.message.opened
                            == a.state.message.opened && selected_at(
                            b.state.message.selected,
                            b.state.message.selected_index,
                            s,
                            n,
                        )
                    }
                } else if hits(k, cfg.keymaps.down@) {
                    if s.len() == 0 {
                        b == a
                    } else {
                        let n = step_down(a.state.message.selected, s, last, last);
                        only_message_changed(b, a) && b.state.global.section
                            == a.state.global.section && b.state.message.messages
                            == a.state.message.messages && b.state.message.opened
                            == a.state.message.opened && selected_at(
                            b.state.message.selected,
                            b.state.message.selected_index,
                            s,
                            n,
                        )
                    }
                } else if hits(k, cfg.keymaps.right@) {
                    if a.state.message.selected is Some {
                        only_message_changed(b, a) && b.state.global.section == Section::Thread
                            && b.state.message.messages == a.state.message.messages
                            && b.state.message.selected == a.state.message.selected
                            && b.state.message.selected_index == a.state.message.selected_index
                            && crate::entities::messages::opt_message_equal(
                            b.state.message.opened,
                            a.state.message.selected,
                        )
                    } else {
                        b == a
                    }
                } else {
                    b == a
                }
            },
            _ => b == a,
        }
    }
}

/// Walk and open the message-list selection.
pub fn messages(event: &Event, config: &Configuration, context: &mut Context)
    requires
        config_keys_valid(*config),
    ensures
        messages_rel(*config, *event, *old(context), *final(context)),
{
    if !(context.state.global.section == Section::Message) {
        return;
    }
    if !(context.mode == UserMode::Normal) {
        return;
    }
    let up = from_string(config.keymaps.up.clone());
    let down = from_string(config.keymaps.down.clone());
    let right = from_string(config.keymaps.right.clone());

    let len = context.state.message.messages.len();
    let last: usize = if len == 0 {
        0
    } else {
        len - 1
    };

    match event {
        Event::Key(k) => {
            if k.modifiers == up.0 && k.code == up.1 {
                if len == 0 {
                    return;
                }
                let next: usize = match &context.state.message.selected {
                    Option::Some(sel) => match position_of_message(
                        &context.state.message.messages,
                        sel,
                    ) {
                        Option::Some(idx) => if idx > 0 {
                            idx - 1
                        } else {
                            idx
                        },
                        Option::None => last,
                    },
                    Option::None => last,
                };
                let m = context.state.message.messages[next].clone();
                context.state.message.selected = Option::Some(m);
                context.state.message.selected_index = Option::Some(next);
            } else if k.modifiers == down.0 && k.code == down.1 {
                if len == 0 {
                    return;
                }
                let next: usize = match &context.state.message.selected {
                    Option::Some(sel) => match position_of_message(
                        &context.state.message.messages,
                        sel,
                    ) {
                        Option::Some(idx) => if idx < last {
                            idx + 1
                        } else {
                            idx
                        },
                        Option::None => last,
                    },
                    Option::None => last,
                };
                let m = context.state.message.messages[next].clone();
                context.state.message.selected = Option::Some(m);
                context.state.message.selected_index = Option::Some(next);
            } else if k.modifiers == right.0 && k.code == right.1 {
                if context.state.message.selected.is_some() {
                    context.state.message.opened = crate::entities::messages::opt_message_dup(
                        &context.state.message.selected,
                    );
                    context.state.global.section = Section::Thread;
                }
            }
        },
        _ => {},
    }
}

/// What the channel-list keymap does, after the stale-selection check `p`:
/// in normal mode the walk keys move the selection one step, the open keys
/// open the selection and focus the message section, the search key enters
/// search mode and Escape clears the search; in search mode typing edits
/// the search buffer, Enter keeps it and leaves search mode, and Escape
/// clears it and leaves search mode.
pub open spec fn channels_rel(cfg: Configuration, ev: Event, a: Context, b: Context) -> bool {
    if a.state.global.section != Section::Channel {
        b == a
    } else {
        let p = crate::presentation::widgets::channels::pruned_ctx(a);
        let s = p.state.channel.channels@;
        let q = p.state.channel.search@;
        let ids = crate::presentation::widgets::channels::filtered_ids(s, q);
        let last: int = if ids.len() == 0 {
            0
        } else {
            ids.len() - 1
        };
        let pos = match p.state.channel.selected {
            Option::Some(sel) => crate::presentation::widgets::channels::chan_pos_from(
                s,
                ids,
                sel,
                0,
            ),
            Option::None => Option::None,
        };
        if p.mode == UserMode::Normal {
            match ev {
                Event::Key(k) => {
                    if hits(k, cfg.keymaps.up@) {
                        if ids.len() == 0 {
                            b == p
                        } else {
                            let n = crate::presentation::widgets::channels::chan_up_target(
                                pos,
                                last,
                                1,
                            );
                            crate::presentation::widgets::channels::only_channel_sel_changed(b, p)
                                && crate::presentation::widgets::channels::chan_selected_at(
                                b,
                                s,
                                ids,
                                n,
                            )
                        }
                    } else if hits(k, cfg.keymaps.down@) {
                        if ids.len() == 0 {
                            b == p
                        } else {
                            let n = crate::presentation::widgets::channels::chan_down_target(
                                pos,
                                last,
                                1,
                            );
                            crate::presentation::widgets::channels::only_channel_sel_changed(b, p)
                                && crate::presentation::widgets::channels::chan_selected_at(
                                b,
                                s,
                                ids,
                                n,
                            )
                        }
                    } else if hits(k, cfg.keymaps.open@) || hits(k, cfg.keymaps.right@) {
                        let changed = !crate::entities::conversations::opt_channel_equal(
                            p.state.channel.opened,
                            p.state.channel.selected,
                        );
                        &&& b.mode == p.mode
                        &&& ctx_same_outside_state(b, p)
                        &&& b.state.global.members == p.state.global.members
                        &&& b.state.global.exit == p.state.global.exit
                        &&& b.state.global.section == Section::Message
                        &&& b.state.input == p.state.input
                        &&& b.state.channel.channels == p.state.channel.channels
                        &&& b.state.channel.direct_messages == p.state.channel.direct_messages
                        &&& b.state.channel.selected == p.state.channel.selected
                        &&& b.state.channel.selected_index == p.state.channel.selected_index
                        &&& b.state.channel.search == p.state.channel.search
                        &&& if changed {
                            &&& crate::entities::conversations::opt_channel_equal(
                                b.state.channel.opened,
                                p.state.channel.selected,
                            )
                            &&& crate::states::is_initial_message_state(b.state.message)
                            &&& crate::states::is_initial_thread_state(b.state.thread)
                        } else {
                            &&& b.state.channel.opened == p.state.channel.opened
                            &&& b.state.message == p.state.message
                            &&& b.state.thread == p.state.thread
                        }
                    } else if hits(k, cfg.keymaps.search@) {
                        b.mode == UserMode::Search && ctx_same_outside_state(b, p) && b.state
                            == p.state
                    } else if k.modifiers == KeyModifiers::Plain && k.code == KeyCode::Esc {
                        &&& b.mode == p.mode
                        &&& ctx_same_outside_state(b, p)
                        &&& b.state.global == p.state.global
                        &&& b.state.message == p.state.message
                        &&& b.state.input == p.state.input
                        &&& b.state.thread == p.state.thread
                        &&& b.state.channel.channels == p.state.channel.channels
                        &&& b.state.channel.direct_messages == p.state.channel.direct_messages
                        &&& b.state.channel.selected == p.state.channel.selected
                        &&& b.state.channel.selected_index == p.state.channel.selected_index
                        &&& b.state.channel.opened == p.state.channel.opened
                        &&& b.state.channel.search@.len() == 0
                    } else {
                        b == p
                    }
                },
                _ => b == p,
            }
        } else if p.mode == UserMode::Search {
            match ev {
                Event::Key(k) => {
                    if k.code matches KeyCode::Char(_) {
                        &&& b.mode == p.mode
                        &&& ctx_same_outside_state(b, p)
                        &&& b.state.global == p.state.global
                        &&& b.state.message == p.state.message
                        &&& b.state.input == p.state.input
                        &&& b.state.thread == p.state.thread
                        &&& b.state.channel.channels == p.state.channel.channels
                        &&& b.state.channel.direct_messages == p.state.channel.direct_messages
                        &&& b.state.channel.selected == p.state.channel.selected
                        &&& b.state.channel.selected_index == p.state.channel.selected_index
                        &&& b.state.channel.opened == p.state.channel.opened
                        &&& b.state.channel.search@ == p.state.channel.search@.push(
                            k.code->Char_0,
                        )
                    } else if k.code == KeyCode::Delete || k.code == KeyCode::Backspace {
                        &&& b.mode == p.mode
                        &&& ctx_same_outside_state(b, p)
                        &&& b.state.global == p.state.global
                        &&& b.state.message == p.state.message
                        &&& b.state.input == p.state.input
                        &&& b.state.thread == p.state.thread
                        &&& b.state.channel.channels == p.state.channel.channels
                        &&& b.state.channel.direct_messages == p.state.channel.direct_messages
                        &&& b.state.channel.selected == p.state.channel.selected
                        &&& b.state.channel.selected_index == p.state.channel.selected_index
                        &&& b.state.channel.opened == p.state.channel.opened
                        &&& b.state.channel.search@ == (if p.state.channel.search@.len() > 0 {
                            p.state.channel.search@.drop_last()
                        } else {
                            p.state.channel.search@
                        })
                    } else if k.code == KeyCode::Enter {
                        b.mode == UserMode::Normal && ctx_same_outside_state(b, p) && b.state
                            == p.state
                    } else if k.code == KeyCode::Esc {
                        &&& b.mode == UserMode::Normal
                        &&& ctx_same_outside_state(b, p)
                        &&& b.state.global == p.state.global
                        &&& b.state.message == p.state.message
                        &&& b.state.input == p.state.input
                        &&& b.state.thread == p.state.thread
                        &&& b.state.channel.channels == p.state.channel.channels
                        &&& b.state.channel.direct_messages == p.state.channel.direct_messages
                        &&& b.state.channel.selected == p.state.channel.selected
                        &&& b.state.channel.selected_index == p.state.channel.selected_index
                        &&& b.state.channel.opened == p.state.channel.opened
                        &&& b.state.channel.search@.len() == 0
                    } else {
                        b == p
                    }
                },
                _ => b == p,
            }
        } else {
            b == p
        }
    }
}

/// Filter, walk and open the channel-list selection, and drive the search.
pub fn channels(event: &Event, config: &Configuration, context: &mut Context)
    requires
        config_keys_valid(*config),
    ensures
        channels_rel(*config, *event, *old(context), *final(context)),
{
    if !(context.state.global.section == Section::Channel) {
        return;
    }
    let up = from_string(config.keymaps.up.clone());
    let down = from_string(config.keymaps.down.clone());
    let right = from_string(config.keymaps.right.clone());
    let open = from_string(config.keymaps.open.clone());
    let search = from_string(config.keymaps.search.clone());

    let ids = crate::presentation::widgets::channels::filtered_channel_ids(
        &context.state.channel.channels,
        context.state.channel.search.as_str(),
    );
    proof {
        crate::presentation::widgets::channels::lemma_filtered_ids_in_range(
            context.state.channel.channels@,
            context.state.channel.search@,
        );
        assert(ids@.map_values(|x: usize| x as int)
            =~= crate::presentation::widgets::channels::filtered_ids(
            context.state.channel.channels@,
            context.state.channel.search@,
        ));
    }
    crate::presentation::widgets::channels::prune_selection(context, &ids);
    let last: usize = if ids.len() == 0 {
        0
    } else {
        ids.len() - 1
    };

    if context.mode == UserMode::Normal {
        match event {
            Event::Key(k) => {
                if k.modifiers == up.0 && k.code == up.1 {
                    if ids.len() == 0 {
                        return;
                    }
                    let pos = match &context.state.channel.selected {
                        Option::Some(sel) => crate::presentation::widgets::channels::position_in_filtered(
                            &context.state.channel.channels,
                            &ids,
                            sel,
                        ),
                        Option::None => Option::None,
                    };
                    let next: usize = match pos {
                        Option::Some(idx) => if idx == 0 {
                            last
                        } else {
                            idx - 1
                        },
                        Option::None => last,
                    };
                    let c = context.state.channel.channels[ids[next]].clone();
                    context.state.channel.selected = Option::Some(c);
                    context.state.channel.selected_index = Option::Some(next);
                } else if k.modifiers == down.0 && k.code == down.1 {
                    if ids.len() == 0 {
                        return;
                    }
                    let pos = match &context.state.channel.selected {
                        Option::Some(sel) => crate::presentation::widgets::channels::position_in_filtered(
                            &context.state.channel.channels,
                            &ids,
                            sel,
                        ),
                        Option::None => Option::None,
                    };
                    let next: usize = match pos {
                        Option::Some(idx) => if idx == last {
                            0
                        } else {
                            idx + 1
                        },
                        Option::None => 0,
                    };
                    let c = context.state.channel.channels[ids[next]].clone();
                    context.state.channel.selected = Option::Some(c);
                    context.state.channel.selected_index = Option::Some(next);
                } else if (k.modifiers == open.0 && k.code == open.1) || (k.modifiers == right.0
                    && k.code == right.1) {
                    let same = crate::entities::conversations::opt_channel_eq(
                        &context.state.channel.opened,
                        &context.state.channel.selected,
                    );
                    if !same {
                        context.state.channel.opened = crate::entities::conversations::opt_channel_dup(
                            &context.state.channel.selected,
                        );
                        context.state.message = crate::states::MessageState::new();
                        context.state.thread = crate::states::ThreadState::new();
                    }
                    context.state.global.section = Section::Message;
                } else if k.modifiers == search.0 && k.code == search.1 {
                    context.mode = UserMode::Search;
                } else if k.modifiers == KeyModifiers::Plain && k.code == KeyCode::Esc {
                    context.state.channel.search = String::new();
                }
            },
            _ => {},
        }
    } else if context.mode == UserMode::Search {
        match event {
            Event::Key(k) => {
                match k.code {
                    KeyCode::Char(c) => {
                        string_push(&mut context.state.channel.search, c);
                    },
                    KeyCode::Delete | KeyCode::Backspace => {
                        let _ = string_pop(&mut context.state.channel.search);
                    },
                    KeyCode::Enter => {
                        context.mode = UserMode::Normal;
                    },
                    KeyCode::Esc => {
                        context.mode = UserMode::Normal;
                        context.state.channel.search = String::new();
                    },
                    _ => {},
                }
            },
            _ => {},
        }
    }
}

/// Only the thread section may differ between the snapshots.
pub open spec fn only_thread_changed(b: Context, a: Context) -> bool {
    &&& b.mode == a.mode
    &&& ctx_same_outside_state(b, a)
    &&& b.state.global.members == a.state.global.members
    &&& b.state.global.exit == a.state.global.exit
    &&& b.state.channel == a.state.channel
    &&& b.state.input == a.state.input
}

/// What the thread keymap does: the up and down keys walk the reply
/// selection, and Escape closes the thread and hands focus back to the
/// message list.
pub open spec fn thread_rel(cfg: Configuration, ev: Event, a: Context, b: Context) -> bool {
    let s = a.state.thread.messages@;
    let last: int = if s.len() == 0 {
        0
    } else {
        s.len() - 1
    };
    if a.state.global.section != Section::Thread {
        b == a
    } else if a.mode != UserMode::Normal {
        b == a
    } else {
        match ev {
            Event::Key(k) => {
                if hits(k, cfg.keymaps.up@) {
                    if s.len() == 0 {
                        b == a
                    } else {
                        let n = step_up(a.state.thread.selected, s, last);
                        only_thread_changed(b, a) && b.state.global == a.state.global
                            && b.state.message == a.state.message && b.state.thread.messages
                            == a.state.thread.messages && selected_at(
                            b.state.thread.selected,
                            b.state.thread.selected_index,
                            s,
                            n,
                        )
                    }
                } else if hits(k, cfg.keymaps.down@) {
                    if s.len() == 0 {
                        b == a
                    } else {
                        let n = step_down(a.state.thread.selected, s, last, 0);
                        only_thread_changed(b, a) && b.state.global == a.state.global
                            && b.state.message == a.state.message && b.state.thread.messages
                            == a.state.thread.messages && selected_at(
                            b.state.thread.selected,
                            b.state.thread.selected_index,
                            s,
                            n,
                        )
                    }
                } else if k.modifiers == KeyModifiers::Plain && k.code == KeyCode::Esc {
                    &&& only_thread_changed(b, a)
                    &&& b.state.global.members == a.state.global.members
                    &&& b.state.global.exit == a.state.global.exit
                    &&& b.state.global.section == Section::Message
                    &&& b.state.message.messages == a.state.message.messages
                    &&& b.state.message.selected == a.state.message.selected
                    &&& b.state.message.selected_index == a.state.message.selected_index
                    &&& b.state.message.opened is None
                    &&& crate::states::is_initial_thread_state(b.state.thread)
                } else {
                    b == a
                }
            },
            _ => b == a,
        }
    }
}

/// Walk the thread selection and close the thread on Escape.
pub fn thread(event: &Event, config: &Configuration, context: &mut Context)
    requires
        config_keys_valid(*config),
    ensures
        thread_rel(*config, *event, *old(context), *final(context)),
{
    if !(context.state.global.section == Section::Thread) {
        return;
    }
    if !(context.mode == UserMode::Normal) {
        return;
    }
    let up = from_string(config.keymaps.up.clone());
    let down = from_string(config.keymaps.down.clone());

    let len = context.state.thread.messages.len();
    let last: usize = if len == 0 {
        0
    } else {
        len - 1
    };

    match event {
        Event::Key(k) => {
            if k.modifiers == up.0 && k.code == up.1 {
                if len == 0 {
                    return;
                }
                let next: usize = match &context.state.thread.selected {
                    Option::Some(sel) => match position_of_message(
                        &context.state.thread.messages,
                        sel,
                    ) {
                        Option::Some(idx) => if idx > 0 {
                            idx - 1
                        } else {
                            idx
                        },
                        Option::None => last,
                    },
                    Option::None => last,
                };
                let m = context.state.thread.messages[next].clone();
                context.state.thread.selected = Option::Some(m);
                context.state.thread.selected_index = Option::Some(next);
            } else if k.modifiers == down.0 && k.code == down.1 {
                if len == 0 {
                    return;
                }
                let next: usize = match &context.state.thread.selected {
                    Option::Some(sel) => match position_of_message(
                        &context.state.thread.messages,
                        sel,
                    ) {
                        Option::Some(idx) => if idx < last {
                            idx + 1
                        } else {
                            idx
                        },
                        Option::None => last,
                    },
                    Option::None => 0,
                };
                let m = context.state.thread.messages[next].clone();
                context.state.thread.selected = Option::Some(m);
                context.state.thread.selected_index = Option::Some(next);
            } else if k.modifiers == KeyModifiers::Plain && k.code == KeyCode::Esc {
                context.state.message.opened = Option::None;
                context.state.global.section = Section::Message;
                context.state.thread = crate::states::ThreadState::new();
            }
        },
        _ => {},
    }
}

} // verus!
