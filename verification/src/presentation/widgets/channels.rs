//! The channel list: filtering by the search buffer, walking and opening
//! the selection, and turning key presses into its commands.

use vstd::prelude::*;

use crate::context::{ctx_same_outside_state, Context};
use crate::entities::configuration::Configuration;
use crate::entities::conversations::{channel_eq, channel_equal, opt_channel_eq, Channel};
use crate::enums::request::Request;
use crate::enums::section::Section;
use crate::enums::user_mode::UserMode;
use crate::keymaps::{config_keys_valid, hits};
use crate::states::{ChannelState, State};
use crate::strutil::{
    has_substring, parse_dec, str_after_prefix, str_contains, str_starts_with, str_to_string,
    starts_with, all_dec_digits, dec_value,
};
use crate::utils::keycode::{from_string, Event, KeyCode, KeyModifiers};

verus! {

/// The name a conversation is shown and searched under: its name, or its
/// identifier when it has none.
pub open spec fn channel_label(c: Channel) -> Seq<char> {
    match c.name {
        Option::Some(n) => n@,
        Option::None => c.id@,
    }
}

pub open spec fn channel_matches(c: Channel, q: Seq<char>) -> bool {
    has_substring(channel_label(c), q)
}

/// The positions of the conversations that match the search, in order.
pub open spec fn filtered_ids(s: Seq<Channel>, q: Seq<char>) -> Seq<int>
    decreases s.len(),
{
    if s.len() == 0 {
        Seq::empty()
    } else if channel_matches(s.last(), q) {
        filtered_ids(s.drop_last(), q).push(s.len() - 1)
    } else {
        filtered_ids(s.drop_last(), q)
    }
}

pub proof fn lemma_filtered_ids_in_range(s: Seq<Channel>, q: Seq<char>)
    ensures
        forall|k: int| 0 <= k < filtered_ids(s, q).len() ==> 0 <= #[trigger] filtered_ids(s, q)[k]
            < s.len(),
    decreases s.len(),
{
    if s.len() > 0 {
        lemma_filtered_ids_in_range(s.drop_last(), q);
        let pre = filtered_ids(s.drop_last(), q);
        assert forall|k: int|
            0 <= k < filtered_ids(s, q).len() implies 0 <= #[trigger] filtered_ids(s, q)[k]
            < s.len() by {
            if channel_matches(s.last(), q) {
                assert(filtered_ids(s, q) == pre.push(s.len() - 1));
                if k < pre.len() {
                    assert(filtered_ids(s, q)[k] == pre[k]);
                }
            } else {
                assert(filtered_ids(s, q) == pre);
            }
        }
    }
}

fn label_of(c: &Channel) -> (r: &str)
    ensures
        r@ == channel_label(*c),
{
    match &c.name {
        Option::Some(n) => n.as_str(),
        Option::None => c.id.as_str(),
    }
}

/// The matching positions, ready for indexing.
#[verifier::loop_isolation(false)]
pub fn filtered_channel_ids(channels: &Vec<Channel>, search: &str) -> (r: Vec<usize>)
    ensures
        r@.len() == filtered_ids(channels@, search@).len(),
        forall|k: int| 0 <= k < r@.len() ==> r@[k] as int == filtered_ids(channels@, search@)[k]
            && r@[k] < channels@.len(),
{
    let n = channels.len();
    let mut r: Vec<usize> = Vec::new();
    let mut i: usize = 0;
    while i < n
        invariant
            0 <= i <= n,
            r@.len() == filtered_ids(channels@.subrange(0, i as int), search@).len(),
            forall|k: int| 0 <= k < r@.len() ==> r@[k] as int == filtered_ids(
                channels@.subrange(0, i as int),
                search@,
            )[k] && r@[k] < i,
        decreases n - i,
    {
        proof {
            assert(channels@.subrange(0, i + 1).drop_last() =~= channels@.subrange(0, i as int));
            assert(channels@.subrange(0, i + 1).last() == channels@[i as int]);
        }
        if str_contains(label_of(&channels[i]), search) {
            r.push(i);
        }
        i += 1;
    }
    proof {
        assert(channels@.subrange(0, n as int) =~= channels@);
    }
    r
}

/// The first filtered position whose conversation has the same contents as
/// the selection.
pub open spec fn chan_pos_from(s: Seq<Channel>, ids: Seq<int>, sel: Channel, k: int) -> Option<
    int,
>
    decreases ids.len() - k,
{
    if k < 0 || k >= ids.len() {
        Option::None
    } else if 0 <= ids[k] < s.len() && channel_equal(s[ids[k]], sel) {
        Option::Some(k)
    } else {
        chan_pos_from(s, ids, sel, k + 1)
    }
}

#[verifier::loop_isolation(false)]
pub fn position_in_filtered(channels: &Vec<Channel>, ids: &Vec<usize>, sel: &Channel) -> (r:
    Option<usize>)
    requires
        forall|k: int| 0 <= k < ids@.len() ==> #[trigger] ids@[k] < channels@.len(),
    ensures
        match r {
            Option::None => chan_pos_from(
                channels@,
                ids@.map_values(|x: usize| x as int),
                *sel,
                0,
            ) is None,
            Option::Some(p) => p < ids@.len() && chan_pos_from(
                channels@,
                ids@.map_values(|x: usize| x as int),
                *sel,
                0,
            ) == Option::Some(p as int),
        },
{
    let ghost gids = ids@.map_values(|x: usize| x as int);
    let n = ids.len();
    let mut k: usize = 0;
    while k < n
        invariant
            0 <= k <= n,
            chan_pos_from(channels@, gids, *sel, 0) == chan_pos_from(
                channels@,
                gids,
                *sel,
                k as int,
            ),
        decreases n - k,
    {
        if channel_eq(&channels[ids[k]], sel) {
            return Option::Some(k);
        }
        k += 1;
    }
    Option::None
}

/// The snapshot after the stale-selection check: a selection that no
/// longer appears in the filtered listing is dropped.
pub open spec fn pruned_ctx(a: Context) -> Context {
    let ids = filtered_ids(a.state.channel.channels@, a.state.channel.search@);
    match a.state.channel.selected {
        Option::Some(sel) => if chan_pos_from(a.state.channel.channels@, ids, sel, 0) is None {
            Context {
                state: State {
                    channel: ChannelState {
                        selected: Option::None,
                        selected_index: Option::None,
                        ..a.state.channel
                    },
                    ..a.state
                },
                ..a
            }
        } else {
            a
        },
        Option::None => a,
    }
}

pub(crate) fn prune_selection(context: &mut Context, ids: &Vec<usize>)
    requires
        ids@.map_values(|x: usize| x as int) == filtered_ids(
            old(context).state.channel.channels@,
            old(context).state.channel.search@,
        ),
        forall|k: int| 0 <= k < ids@.len() ==> #[trigger] ids@[k]
            < old(context).state.channel.channels@.len(),
    ensures
        *final(context) == pruned_ctx(*old(context)),
{
    let drop_it = match &context.state.channel.selected {
        Option::Some(sel) => position_in_filtered(&context.state.channel.channels, ids, sel)
            .is_none(),
        Option::None => false,
    };
    if drop_it {
        context.state.channel.selected = Option::None;
        context.state.channel.selected_index = Option::None;
    }
}

/// Everything but the channel selection agrees between the snapshots.
pub open spec fn only_channel_sel_changed(b: Context, p: Context) -> bool {
    &&& b.mode == p.mode
    &&& ctx_same_outside_state(b, p)
    &&& b.state.global == p.state.global
    &&& b.state.message == p.state.message
    &&& b.state.input == p.state.input
    &&& b.state.thread == p.state.thread
    &&& b.state.channel.channels == p.state.channel.channels
    &&& b.state.channel.direct_messages == p.state.channel.direct_messages
    &&& b.state.channel.opened == p.state.channel.opened
    &&& b.state.channel.search == p.state.channel.search
}

/// The selection landed on filtered position `n`.
pub open spec fn chan_selected_at(b: Context, s: Seq<Channel>, ids: Seq<int>, n: int) -> bool {
    &&& b.state.channel.selected_index == Option::Some(n as usize)
    &&& b.state.channel.selected is Some
    &&& channel_equal(b.state.channel.selected.unwrap(), s[ids[n]])
}

/// Where walking up by `n` lands from the current filtered position.
pub open spec fn chan_up_target(pos: Option<int>, last: int, n: nat) -> int {
    match pos {
        Option::Some(idx) => if idx == 0 {
            last
        } else if n >= idx {
            0
        } else {
            idx - n
        },
        Option::None => last,
    }
}

/// Where walking down by `n` lands from the current filtered position.
pub open spec fn chan_down_target(pos: Option<int>, last: int, n: nat) -> int {
    match pos {
        Option::Some(idx) => if idx == last {
            0
        } else if n > last - idx {
            last
        } else {
            idx + n
        },
        Option::None => 0,
    }
}

/// The first conversation carrying the given identifier.
pub open spec fn chan_with_id_from(s: Seq<Channel>, id: Seq<char>, i: int) -> Option<int>
    decreases s.len() - i,
{
    if i < 0 || i >= s.len() {
        Option::None
    } else if s[i].id@ == id {
        Option::Some(i)
    } else {
        chan_with_id_from(s, id, i + 1)
    }
}

#[verifier::loop_isolation(false)]
fn find_channel_by_id(channels: &Vec<Channel>, id: &str) -> (r: Option<usize>)
    ensures
        match r {
            Option::None => chan_with_id_from(channels@, id@, 0) is None,
            Option::Some(p) => p < channels@.len() && chan_with_id_from(channels@, id@, 0)
                == Option::Some(p as int),
        },
{
    let n = channels.len();
    let mut i: usize = 0;
    while i < n
        invariant
            0 <= i <= n,
            chan_with_id_from(channels@, id@, 0) == chan_with_id_from(channels@, id@, i as int),
        decreases n - i,
    {
        if crate::strutil::str_eq(channels[i].id.as_str(), id) {
            return Option::Some(i);
        }
        i += 1;
    }
    Option::None
}

/// What the channel commands do, after the stale-selection check `p`:
/// "move up N" and "move down N" walk the filtered selection, and
/// "open <id>" opens that conversation and asks for its history — the one
/// command here that raises a request.
pub open spec fn channels_cmd_rel(cmd: Seq<char>, a: Context, b: Context, r: Option<Request>) -> bool {
    let p = pruned_ctx(a);
    let s = p.state.channel.channels@;
    let q = p.state.channel.search@;
    let ids = filtered_ids(s, q);
    let last: int = if ids.len() == 0 {
        0
    } else {
        ids.len() - 1
    };
    let pos = match p.state.channel.selected {
        Option::Some(sel) => chan_pos_from(s, ids, sel, 0),
        Option::None => Option::None,
    };
    if starts_with(cmd, "move up "@) {
        let tail = cmd.subrange(8, cmd.len() as int);
        if tail.len() > 0 && all_dec_digits(tail) && dec_value(tail) <= u64::MAX && ids.len() > 0 {
            let n = chan_up_target(pos, last, dec_value(tail));
            only_channel_sel_changed(b, p) && chan_selected_at(b, s, ids, n) && r is None
        } else {
            b == p && r is None
        }
    } else if starts_with(cmd, "move down "@) {
        let tail = cmd.subrange(10, cmd.len() as int);
        if tail.len() > 0 && all_dec_digits(tail) && dec_value(tail) <= u64::MAX && ids.len() > 0 {
            let n = chan_down_target(pos, last, dec_value(tail));
            only_channel_sel_changed(b, p) && chan_selected_at(b, s, ids, n) && r is None
        } else {
            b == p && r is None
        }
    } else if starts_with(cmd, "open "@) {
        let id = cmd.subrange(5, cmd.len() as int);
        match chan_with_id_from(s, id, 0) {
            Option::Some(i) => {
                &&& b.mode == p.mode
                &&& ctx_same_outside_state(b, p)
                &&& b.state.global == p.state.global
                &&& b.state.message == p.state.message
                &&& b.state.input == p.state.input
                &&& b.state.thread == p.state.thread
                &&& b.state.channel.channels == p.state.channel.channels
                &&& b.state.channel.direct_messages == p.state.channel.direct_messages
                &&& b.state.channel.selected == p.state.channel.selected
                &&& b.state.channel.selected_index == p.state.channel.selected_index
                &&& b.state.channel.search == p.state.channel.search
                &&& b.state.channel.opened is Some
                &&& channel_equal(b.state.channel.opened.unwrap(), s[i])
                &&& (match r {
                    Option::Some(Request::GetConversationHistory(cid)) => cid@ == id,
                    _ => false,
                })
            },
            Option::None => b == p && r is None,
        }
    } else {
        b == p && r is None
    }
}

/// Apply one channel command to the snapshot.
pub fn commands(_config: &Configuration, command: &String, context: &mut Context) -> (r: Option<
    Request,
>)
    ensures
        channels_cmd_rel(command@, *old(context), *final(context), r),
{
    proof {
        reveal_strlit("move up ");
        reveal_strlit("move down ");
        reveal_strlit("open ");
    }
    let ids = filtered_channel_ids(
        &context.state.channel.channels,
        context.state.channel.search.as_str(),
    );
    proof {
        lemma_filtered_ids_in_range(
            context.state.channel.channels@,
            context.state.channel.search@,
        );
        assert(ids@.map_values(|x: usize| x as int) =~= filtered_ids(
            context.state.channel.channels@,
            context.state.channel.search@,
        ));
    }
    prune_selection(context, &ids);
    let last: usize = if ids.len() == 0 {
        0
    } else {
        ids.len() - 1
    };

    let cmd = command.as_str();
    if str_starts_with(cmd, "move up ") {
        let tail = str_after_prefix(cmd, "move up ");
        match parse_dec(tail.as_str()) {
            Option::Some(n) => {
                if ids.len() > 0 {
                    let pos = match &context.state.channel.selected {
                        Option::Some(sel) => position_in_filtered(
                            &context.state.channel.channels,
                            &ids,
                            sel,
                        ),
                        Option::None => Option::None,
                    };
                    let next: usize = match pos {
                        Option::Some(idx) => if idx == 0 {
                            last
                        } else if n >= idx as u64 {
                            0
                        } else {
                            idx - (n as usize)
                        },
                        Option::None => last,
                    };
                    let c = context.state.channel.channels[ids[next]].clone();
                    context.state.channel.selected = Option::Some(c);
                    context.state.channel.selected_index = Option::Some(next);
                }
            },
            Option::None => {},
        }
        Option::None
    } else if str_starts_with(cmd, "move down ") {
        let tail = str_after_prefix(cmd, "move down ");
        match parse_dec(tail.as_str()) {
            Option::Some(n) => {
                if ids.len() > 0 {
                    let pos = match &context.state.channel.selected {
                        Option::Some(sel) => position_in_filtered(
                            &context.state.channel.channels,
                            &ids,
                            sel,
                        ),
                        Option::None => Option::None,
                    };
                    let next: usize = match pos {
                        Option::Some(idx) => if idx == last {
                            0
                        } else if n > (last - idx) as u64 {
                            last
                        } else {
                            idx + (n as usize)
                        },
                        Option::None => 0,
                    };
                    let c = context.state.channel.channels[ids[next]].clone();
                    context.state.channel.selected = Option::Some(c);
                    context.state.channel.selected_index = Option::Some(next);
                }
            },
            Option::None => {},
        }
        Option::None
    } else if str_starts_with(cmd, "open ") {
        let channel_id = str_after_prefix(cmd, "open ");
        match find_channel_by_id(&context.state.channel.channels, channel_id.as_str()) {
            Option::Some(i) => {
                let c = context.state.channel.channels[i].clone();
                context.state.channel.opened = Option::Some(c);
                Option::Some(Request::GetConversationHistory(channel_id))
            },
            Option::None => Option::None,
        }
    } else {
        Option::None
    }
}

/// What the channel keymap yields: back on shift-Q, a one-step move on the
/// walk keys, and an open command carrying the selected conversation's
/// identifier on the open key. It reads the snapshot and never writes it.
pub open spec fn channels_key_rel(cfg: Configuration, ev: Event, a: Context, r: Option<String>) -> bool {
    match ev {
        Event::Key(k) => {
            if k.modifiers == KeyModifiers::Shift && k.code == KeyCode::Char('Q') {
                r is Some && r.unwrap()@ == "back"@
            } else if hits(k, cfg.keymaps.up@) {
                r is Some && r.unwrap()@ == "move up 1"@
            } else if hits(k, cfg.keymaps.down@) {
                r is Some && r.unwrap()@ == "move down 1"@
            } else if hits(k, cfg.keymaps.open@) {
                match a.state.channel.selected {
                    Option::Some(sel) => r is Some && r.unwrap()@ == "open "@ + sel.id@,
                    Option::None => r is None,
                }
            } else {
                r is None
            }
        },
        _ => r is None,
    }
}

/// Turn one key press over the channel list into a command.
pub fn keymaps(_config: &Configuration, event: &Event, _context: &mut Context) -> (r: Option<
    String,
>)
    requires
        config_keys_valid(*_config),
    ensures
        *final(_context) == *old(_context),
        channels_key_rel(*_config, *event, *old(_context), r),
{
    let up = from_string(_config.keymaps.up.clone());
    let down = from_string(_config.keymaps.down.clone());
    let open = from_string(_config.keymaps.open.clone());

    match event {
        Event::Key(k) => {
            if k.modifiers == KeyModifiers::Shift && k.code == KeyCode::Char('Q') {
                Option::Some(str_to_string("back"))
            } else if k.modifiers == up.0 && k.code == up.1 {
                Option::Some(str_to_string("move up 1"))
            } else if k.modifiers == down.0 && k.code == down.1 {
                Option::Some(str_to_string("move down 1"))
            } else if k.modifiers == open.0 && k.code == open.1 {
                match &_context.state.channel.selected {
                    Option::Some(sel) => {
                        let mut cmd = str_to_string("open ");
                        cmd.append(sel.id.as_str());
                        Option::Some(cmd)
                    },
                    Option::None => Option::None,
                }
            } else {
                Option::None
            }
        },
        _ => Option::None,
    }
}

} // verus!
