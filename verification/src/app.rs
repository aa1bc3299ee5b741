//! One step of each control loop: what the input loop does with an event,
//! the command loop with a command, the worker loop with a fetched result,
//! and the render loop with the latest snapshot. The shell runs these in
//! four concurrent loops joined only by channels; everything they decide is
//! here.

use vstd::prelude::*;

use crate::context::{ctx_equal, Context};
use crate::entities::authorization::Authorization;
use crate::entities::configuration::Configuration;
use crate::entities::conversations::{opt_channel_equal, Channel};
use crate::entities::messages::Message;
use crate::entities::users::Member;
use crate::enums::request::Request;
use crate::datasources::slack::{
    chans_sorted, keep_direct, keep_regular, partition_conversations, sort_channels,
};
use crate::keymaps::config_keys_valid;
use crate::presentation::screen::{home, landing};
use crate::route::{registered, route_screen, ScreenId};
use crate::strutil::str_to_string;
use crate::utils::keycode::Event;

verus! {

/// Every route on the stack is registered, so screen lookup cannot fail.
pub open spec fn ctx_wf(c: Context) -> bool {
    forall|i: int| 0 <= i < c.routes@.len() ==> registered(#[trigger] c.routes@[i]@)
}

/// What one input-loop step does: resolve the screen named by the current
/// route and let its keymap read the event, yielding at most one command.
pub open spec fn input_step_rel(cfg: Configuration, ev: Event, a: Context, b: Context, r: Option<
    String,
>) -> bool {
    match route_screen(a.routes@.last()@) {
        Option::Some(ScreenId::Landing) => landing::landing_key_rel(ev, a, b, r),
        Option::Some(ScreenId::Home) => b == a && home::home_key_rel(cfg, ev, a, r),
        Option::None => false,
    }
}

/// One step of the input loop.
pub fn input_step(config: &Configuration, event: &Event, context: &mut Context) -> (r: Option<
    String,
>)
    requires
        config_keys_valid(*config),
        ctx_wf(*old(context)),
        old(context).routes@.len() > 0,
    ensures
        input_step_rel(*config, *event, *old(context), *final(context), r),
        ctx_wf(*final(context)),
        final(context).routes == old(context).routes,
{
    let screen = crate::route::get(context.current_route().as_str());
    match screen {
        ScreenId::Landing => landing::keymaps(config, event, context),
        ScreenId::Home => home::keymaps(config, event, context),
    }
}

/// The screen's own pass over one command.
pub open spec fn screen_cmd_rel(cmd: Seq<char>, a: Context, m: Context, r: Option<Request>) -> bool {
    match route_screen(a.routes@.last()@) {
        Option::Some(ScreenId::Landing) => landing::landing_cmd_rel(cmd, a, m, r),
        Option::Some(ScreenId::Home) => home::home_cmd_rel(cmd, a, m, r),
        Option::None => false,
    }
}

/// What one command-loop step does: resolve the screen named by the
/// current route and let its command handler rewrite the snapshot; when a
/// request comes out for the worker, the snapshot is also marked loading.
pub open spec fn cmd_step_rel(cmd: Seq<char>, a: Context, b: Context, r: Option<Request>) -> bool {
    exists|m: Context|
        #[trigger] screen_cmd_rel(cmd, a, m, r) && (if r is Some {
            crate::context::only_loading_changed(b, m) && b.loading == true
        } else {
            b == m
        })
}

/// One step of the command loop.
pub fn cmd_step(config: &Configuration, command: &String, context: &mut Context) -> (r: Option<
    Request,
>)
    requires
        ctx_wf(*old(context)),
        old(context).routes@.len() > 0,
    ensures
        cmd_step_rel(command@, *old(context), *final(context), r),
        ctx_wf(*final(context)),
{
    let screen = crate::route::get(context.current_route().as_str());
    let r = match screen {
        ScreenId::Landing => landing::commands(config, command, context),
        ScreenId::Home => home::commands(config, command, context),
    };
    let ghost mid = *context;
    if r.is_some() {
        context.show_loading();
    }
    proof {
        assert(screen_cmd_rel(command@, *old(context), mid, r) && (if r is Some {
            crate::context::only_loading_changed(*context, mid) && context.loading == true
        } else {
            *context == mid
        }));
        lemma_cmd_step_preserves_wf(command@, *old(context), mid, r);
    }
    r
}

/// A command only pushes registered routes or pops, so the stack stays
/// well formed.
proof fn lemma_cmd_step_preserves_wf(cmd: Seq<char>, a: Context, b: Context, r: Option<Request>)
    requires
        ctx_wf(a),
        a.routes@.len() > 0,
        screen_cmd_rel(cmd, a, b, r),
    ensures
        ctx_wf(b),
{
    reveal_strlit("/home");
    assert forall|i: int| 0 <= i < b.routes@.len() implies registered(#[trigger] b.routes@[i]@) by {
        if i < a.routes@.len() {
            if b.routes@[i] == a.routes@[i] {
            }
        }
    }
}

/// What one render tick decides.
pub enum RenderAction {
    /// The snapshot is the one already on screen: build nothing, paint
    /// nothing.
    Skip,
    /// The snapshot signals exit; the flag says whether a stale loading
    /// frame must be wiped first.
    Exit(bool),
    /// Rebuild and paint; the flag says whether a stale loading frame must
    /// be wiped first.
    Redraw(bool),
}

pub open spec fn action_equal(x: RenderAction, y: RenderAction) -> bool {
    match (x, y) {
        (RenderAction::Skip, RenderAction::Skip) => true,
        (RenderAction::Exit(a), RenderAction::Exit(b)) => a == b,
        (RenderAction::Redraw(a), RenderAction::Redraw(b)) => a == b,
        _ => false,
    }
}

/// What the render loop does with the latest snapshot, against the one it
/// last painted: skip when nothing changed, stop when the snapshot signals
/// exit, and otherwise rebuild — clearing first when loading just ended.
pub open spec fn render_decision(cur: Context, last: Option<Context>) -> RenderAction {
    let changed = match last {
        Option::None => true,
        Option::Some(l) => !ctx_equal(l, cur),
    };
    if !changed {
        RenderAction::Skip
    } else {
        let clear = (match last {
            Option::Some(l) => l.loading,
            Option::None => false,
        }) && !cur.loading;
        if cur.routes@.len() == 0 {
            RenderAction::Exit(clear)
        } else {
            RenderAction::Redraw(clear)
        }
    }
}

/// One tick of the render loop's change detection.
pub fn render_tick(cur: &Context, last: &Option<Context>) -> (r: RenderAction)
    ensures
        action_equal(r, render_decision(*cur, *last)),
{
    let changed = match last {
        Option::None => true,
        Option::Some(l) => !crate::context::context_eq(l, cur),
    };
    if !changed {
        RenderAction::Skip
    } else {
        let clear = (match last {
            Option::Some(l) => l.loading,
            Option::None => false,
        }) && !cur.loading;
        if cur.is_exit() {
            RenderAction::Exit(clear)
        } else {
            RenderAction::Redraw(clear)
        }
    }
}

/// Snapshots with equal contents never reach a screen's build: the render
/// loop skips the frame outright, and nothing is painted.
pub proof fn lemma_unchanged_skips_build(a: Context, b: Context)
    requires
        ctx_equal(a, b),
    ensures
        render_decision(b, Option::Some(a)) is Skip,
{
}

/// A snapshot carrying the exit signal — the empty route stack — stops
/// every loop within its next step: the input, command and worker loops'
/// continuation test is exactly this emptiness (`is_exit`), and the render
/// loop's next tick decides to stop rather than draw, whatever snapshot it
/// painted last.
pub proof fn lemma_exit_signal_stops_every_loop(b: Context, last_drawn: Context)
    requires
        b.routes@.len() == 0,
        last_drawn.routes@.len() > 0,
    ensures
        render_decision(b, Option::Some(last_drawn)) is Exit,
{
    assert(!crate::eqv::strings_equal(last_drawn.routes@, b.routes@));
}

/// For every screen, command and snapshot: when one command-loop step
/// leaves the snapshot with the exit signal, the whole system is
/// terminal. The published snapshot fails the input, command and worker
/// loops' continuation test, and the render loop's next tick stops.
pub proof fn lemma_cmd_exit_is_terminal(
    cmd: Seq<char>,
    a: Context,
    b: Context,
    r: Option<Request>,
    last_drawn: Context,
)
    requires
        cmd_step_rel(cmd, a, b, r),
        b.routes@.len() == 0,
        last_drawn.routes@.len() > 0,
    ensures
        render_decision(b, Option::Some(last_drawn)) is Exit,
{
    lemma_exit_signal_stops_every_loop(b, last_drawn);
}

/// Popping the last route turns the snapshot into the exit signal, and
/// every loop stops within its next step.
pub proof fn lemma_pop_last_exits(a: Context, b: Context, last_drawn: Context)
    requires
        a.routes@.len() == 1,
        crate::context::routes_popped(b, a),
        last_drawn.routes@.len() > 0,
    ensures
        b.routes@.len() == 0,
        render_decision(b, Option::Some(last_drawn)) is Exit,
{
    lemma_exit_signal_stops_every_loop(b, last_drawn);
}

/// Merge an authorization result into the snapshot: the session is stored,
/// the fetched conversations are split into channels and direct messages,
/// each ranked by most recent update, and the member list is installed.
pub fn apply_authorization(
    context: &mut Context,
    auth: Authorization,
    conversations: Vec<Channel>,
    members: Vec<Member>,
)
    ensures
        final(context).auth == Option::Some(auth),
        chans_sorted(final(context).state.channel.channels@),
        final(context).state.channel.channels@.to_multiset() == keep_regular(
            conversations@,
        ).to_multiset(),
        chans_sorted(final(context).state.channel.direct_messages@),
        final(context).state.channel.direct_messages@.to_multiset() == keep_direct(
            conversations@,
        ).to_multiset(),
        final(context).state.global.members == members,
        final(context).mode == old(context).mode,
        final(context).routes == old(context).routes,
        final(context).command == old(context).command,
        final(context).loading == old(context).loading,
        final(context).focus_id == old(context).focus_id,
        final(context).state.global.section == old(context).state.global.section,
        final(context).state.global.exit == old(context).state.global.exit,
        final(context).state.channel.selected == old(context).state.channel.selected,
        final(context).state.channel.selected_index == old(context).state.channel.selected_index,
        final(context).state.channel.opened == old(context).state.channel.opened,
        final(context).state.channel.search == old(context).state.channel.search,
        final(context).state.message == old(context).state.message,
        final(context).state.input == old(context).state.input,
        final(context).state.thread == old(context).state.thread,
{
    let (mut regular, mut direct) = partition_conversations(conversations);
    sort_channels(&mut regular);
    sort_channels(&mut direct);
    context.auth = Option::Some(auth);
    context.state.channel.channels = regular;
    context.state.channel.direct_messages = direct;
    context.state.global.members = members;
}

/// Merge a fetched, merged channel history into the snapshot.
pub fn apply_history(context: &mut Context, merged: Vec<Message>)
    ensures
        final(context).state.message.messages == merged,
        final(context).mode == old(context).mode,
        final(context).routes == old(context).routes,
        final(context).command == old(context).command,
        final(context).loading == old(context).loading,
        final(context).auth == old(context).auth,
        final(context).focus_id == old(context).focus_id,
        final(context).state.global == old(context).state.global,
        final(context).state.channel == old(context).state.channel,
        final(context).state.message.selected == old(context).state.message.selected,
        final(context).state.message.selected_index == old(context).state.message.selected_index,
        final(context).state.message.opened == old(context).state.message.opened,
        final(context).state.input == old(context).state.input,
        final(context).state.thread == old(context).state.thread,
{
    context.state.message.messages = merged;
}

/// Merge fetched, merged thread replies into the snapshot.
pub fn apply_replies(context: &mut Context, merged: Vec<Message>)
    ensures
        final(context).state.thread.messages == merged,
        final(context).mode == old(context).mode,
        final(context).routes == old(context).routes,
        final(context).command == old(context).command,
        final(context).loading == old(context).loading,
        final(context).auth == old(context).auth,
        final(context).focus_id == old(context).focus_id,
        final(context).state.global == old(context).state.global,
        final(context).state.channel == old(context).state.channel,
        final(context).state.message == old(context).state.message,
        final(context).state.input == old(context).state.input,
        final(context).state.thread.selected == old(context).state.thread.selected,
        final(context).state.thread.selected_index == old(context).state.thread.selected_index,
{
    context.state.thread.messages = merged;
}

/// The follow-up command a finished request feeds back into the command
/// loop: exactly the continuation an authorization request carries.
pub fn worker_followup(request: &Request) -> (r: Option<String>)
    ensures
        match request {
            Request::Authorization(cb) => r is Some && r.unwrap()@ == cb@,
            _ => r is None,
        },
{
    match request {
        Request::Authorization(cb) => Option::Some(cb.clone()),
        _ => Option::None,
    }
}

/// What a composed message becomes: exactly when the composer holds text,
/// it is marked for sending and a conversation is open, the text leaves
/// the snapshot — buffer and mark cleared — addressed to that conversation
/// and, with a thread open, to that thread.
pub fn outgoing_message(context: &mut Context) -> (r: Option<(String, String, Option<u64>)>)
    ensures
        match r {
            Option::Some(out) => {
                &&& old(context).state.input.value@.len() > 0
                &&& old(context).state.input.send
                &&& old(context).state.channel.opened is Some
                &&& out.0@ == old(context).state.channel.opened.unwrap().id@
                &&& out.1@ == old(context).state.input.value@
                &&& out.2 == (match old(context).state.message.opened {
                    Option::Some(m) => Option::Some(m.ts),
                    Option::None => Option::None::<u64>,
                })
                &&& final(context).state.input.value@.len() == 0
                &&& final(context).state.input.send == false
            },
            Option::None => {
                &&& (old(context).state.input.value@.len() == 0 || !old(
                    context,
                ).state.input.send || old(context).state.channel.opened is None)
                &&& *final(context) == *old(context)
            },
        },
        final(context).mode == old(context).mode,
        final(context).routes == old(context).routes,
        final(context).command == old(context).command,
        final(context).loading == old(context).loading,
        final(context).auth == old(context).auth,
        final(context).focus_id == old(context).focus_id,
        final(context).state.global == old(context).state.global,
        final(context).state.channel == old(context).state.channel,
        final(context).state.message == old(context).state.message,
        final(context).state.thread == old(context).state.thread,
{
    let ready = context.state.input.value.as_str().unicode_len() > 0 && context.state.input.send
        && context.state.channel.opened.is_some();
    if !ready {
        return Option::None;
    }
    let channel = match &context.state.channel.opened {
        Option::Some(c) => str_to_string(c.id.as_str()),
        Option::None => vstd::pervasive::unreached(),
    };
    let text = str_to_string(context.state.input.value.as_str());
    let thread_ts = match &context.state.message.opened {
        Option::Some(m) => Option::Some(m.ts),
        Option::None => Option::None,
    };
    context.state.input.value = String::new();
    context.state.input.send = false;
    Option::Some((channel, text, thread_ts))
}

/// The one history fetch a frame needs: the identifier of the newly opened
/// channel, exactly when the opened channel changed to one. A reopened or
/// unchanged channel asks for nothing here.
pub fn opened_channel_changed(old_ctx: &Context, new_ctx: &Context) -> (r: Option<String>)
    ensures
        match r {
            Option::Some(id) => new_ctx.state.channel.opened is Some && !opt_channel_equal(
                old_ctx.state.channel.opened,
                new_ctx.state.channel.opened,
            ) && id@ == new_ctx.state.channel.opened.unwrap().id@,
            Option::None => new_ctx.state.channel.opened is None || opt_channel_equal(
                old_ctx.state.channel.opened,
                new_ctx.state.channel.opened,
            ),
        },
{
    if crate::entities::conversations::opt_channel_eq(
        &old_ctx.state.channel.opened,
        &new_ctx.state.channel.opened,
    ) {
        return Option::None;
    }
    match &new_ctx.state.channel.opened {
        Option::Some(c) => Option::Some(str_to_string(c.id.as_str())),
        Option::None => Option::None,
    }
}

} // verus!
