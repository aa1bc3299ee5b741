//! The frame plan: which rectangle each section gets, each section's dirty
//! check, and the rule that a clean section's fragments are carried over
//! from the previous frame untouched.

use vstd::prelude::*;

use crate::cache::Cache;
use crate::context::Context;
use crate::entities::configuration::Configuration;
use crate::entities::conversations::opt_channel_equal;
use crate::enums::section::Section;
use crate::enums::widgets::WidgetData;
use crate::states::{channel_state_equal, message_state_equal};
use crate::style::Rect;

verus! {

/// Whether the channel section must be rebuilt for the new snapshot.
pub open spec fn channel_dirty(a: Context, b: Context) -> bool {
    ||| !channel_state_equal(a.state.channel, b.state.channel)
    ||| a.mode != b.mode
    ||| a.state.global.section != b.state.global.section
}

/// Whether the composer section must be rebuilt.
pub open spec fn input_dirty(a: Context, b: Context) -> bool {
    ||| a.state.input.value@ != b.state.input.value@
    ||| !opt_channel_equal(a.state.channel.opened, b.state.channel.opened)
    ||| a.state.global.section != b.state.global.section
    ||| a.mode != b.mode
}

/// Whether the message section must be rebuilt.
pub open spec fn messages_dirty(a: Context, b: Context) -> bool {
    ||| !opt_channel_equal(a.state.channel.opened, b.state.channel.opened)
    ||| a.mode != b.mode
    ||| a.state.global.section != b.state.global.section
    ||| !message_state_equal(a.state.message, b.state.message)
}

/// Whether the status line must be rebuilt.
pub open spec fn status_line_dirty(a: Context, b: Context) -> bool {
    ||| a.mode != b.mode
    ||| !opt_channel_equal(a.state.channel.opened, b.state.channel.opened)
}

/// Whether the thread section must be rebuilt: always, while it is shown.
pub open spec fn thread_dirty(a: Context, b: Context) -> bool {
    true
}

/// One section's dirty check between two snapshots.
pub open spec fn section_dirty(s: Section, a: Context, b: Context) -> bool {
    match s {
        Section::Channel => channel_dirty(a, b),
        Section::Input => input_dirty(a, b),
        Section::Message => messages_dirty(a, b),
        Section::StatusLine => status_line_dirty(a, b),
        Section::Thread => thread_dirty(a, b),
        _ => true,
    }
}

/// Run one section's dirty check.
pub fn need_render(section: Section, old_ctx: &Context, new_ctx: &Context) -> (r: bool)
    ensures
        r == section_dirty(section, *old_ctx, *new_ctx),
{
    match section {
        Section::Channel => {
            !crate::states::channel_state_eq(&old_ctx.state.channel, &new_ctx.state.channel)
                || !(old_ctx.mode == new_ctx.mode) || !(old_ctx.state.global.section
                == new_ctx.state.global.section)
        },
        Section::Input => {
            !crate::strutil::string_eq(&old_ctx.state.input.value, &new_ctx.state.input.value)
                || !crate::entities::conversations::opt_channel_eq(
                &old_ctx.state.channel.opened,
                &new_ctx.state.channel.opened,
            ) || !(old_ctx.state.global.section == new_ctx.state.global.section) || !(old_ctx.mode
                == new_ctx.mode)
        },
        Section::Message => {
            !crate::entities::conversations::opt_channel_eq(
                &old_ctx.state.channel.opened,
                &new_ctx.state.channel.opened,
            ) || !(old_ctx.mode == new_ctx.mode) || !(old_ctx.state.global.section
                == new_ctx.state.global.section) || !crate::states::message_state_eq(
                &old_ctx.state.message,
                &new_ctx.state.message,
            )
        },
        Section::StatusLine => {
            !(old_ctx.mode == new_ctx.mode) || !crate::entities::conversations::opt_channel_eq(
                &old_ctx.state.channel.opened,
                &new_ctx.state.channel.opened,
            )
        },
        Section::Thread => true,
        _ => true,
    }
}

/// The fragments of the last frame, one slot per section; a clean section
/// keeps its slot untouched across frames.
pub struct FrameMap {
    pub channel: Option<Vec<WidgetData>>,
    pub message: Option<Vec<WidgetData>>,
    pub input: Option<Vec<WidgetData>>,
    pub status_line: Option<Vec<WidgetData>>,
    pub thread: Option<Vec<WidgetData>>,
}

impl FrameMap {
    pub fn new() -> (r: FrameMap)
        ensures
            r.channel is None,
            r.message is None,
            r.input is None,
            r.status_line is None,
            r.thread is None,
    {
        FrameMap {
            channel: Option::None,
            message: Option::None,
            input: Option::None,
            status_line: Option::None,
            thread: Option::None,
        }
    }
}

/// Where each section lands within a frame.
pub struct FrameChunks {
    pub channel: Rect,
    pub message: Rect,
    pub thread: Rect,
    pub input: Rect,
    pub status_line: Rect,
}

/// The channel list's rectangle: the left column, above the status line.
pub open spec fn channel_chunk(area: Rect) -> Rect {
    Rect { x: area.x, y: area.y, width: 40, height: (area.height - 1) as u16 }
}

/// The status line's rectangle: the bottom row.
pub open spec fn status_chunk(area: Rect) -> Rect {
    Rect { x: area.x, y: (area.y + area.height - 1) as u16, width: area.width, height: 1 }
}

/// The composer's rectangle: under the message area.
pub open spec fn input_chunk(area: Rect) -> Rect {
    Rect {
        x: (area.x + 40) as u16,
        y: (area.y + area.height - 6) as u16,
        width: (area.width - 40) as u16,
        height: 5,
    }
}

/// The message area's rectangle, narrowed while a thread is shown.
pub open spec fn message_chunk(area: Rect, show_thread: bool) -> Rect {
    if show_thread {
        Rect {
            x: (area.x + 40) as u16,
            y: area.y,
            width: (((area.width - 40) as int * 3 / 5)) as u16,
            height: (area.height - 6) as u16,
        }
    } else {
        Rect {
            x: (area.x + 40) as u16,
            y: area.y,
            width: (area.width - 40) as u16,
            height: (area.height - 6) as u16,
        }
    }
}

/// The thread's rectangle: the rest of the message area.
pub open spec fn thread_chunk(area: Rect) -> Rect {
    Rect {
        x: (area.x + 40 + ((area.width - 40) as int * 3 / 5)) as u16,
        y: area.y,
        width: ((area.width - 40) as int - ((area.width - 40) as int * 3 / 5)) as u16,
        height: (area.height - 6) as u16,
    }
}

/// Split the frame: the status line along the bottom, the channel list on
/// the left, the composer under the message area, and the message area
/// split with the thread while one is open.
pub fn frame_chunks(area: Rect, show_thread: bool) -> (r: FrameChunks)
    requires
        area.width >= 60,
        area.height >= 12,
        area.x + area.width <= u16::MAX,
        area.y + area.height <= u16::MAX,
    ensures
        r.channel == channel_chunk(area),
        r.status_line == status_chunk(area),
        r.input == input_chunk(area),
        r.message == message_chunk(area, show_thread),
        show_thread ==> r.thread == thread_chunk(area),
{
    let main_h = area.height - 1;
    let right_x = area.x + 40;
    let right_w = area.width - 40;
    let channel = Rect { x: area.x, y: area.y, width: 40, height: main_h };
    let status_line = Rect { x: area.x, y: area.y + area.height - 1, width: area.width, height: 1 };
    let input = Rect { x: right_x, y: area.y + area.height - 6, width: right_w, height: 5 };
    let upper_h = area.height - 6;
    if show_thread {
        let mw = (((right_w as u32) * 3 / 5)) as u16;
        let message = Rect { x: right_x, y: area.y, width: mw, height: upper_h };
        let thread = Rect { x: right_x + mw, y: area.y, width: right_w - mw, height: upper_h };
        FrameChunks { channel, message, thread, input, status_line }
    } else {
        let message = Rect { x: right_x, y: area.y, width: right_w, height: upper_h };
        let thread = Rect { x: right_x, y: area.y, width: 0, height: 0 };
        FrameChunks { channel, message, thread, input, status_line }
    }
}

/// Build one frame: every dirty or missing section is rebuilt into its
/// slot; a clean, present section's fragments are carried over bit for
/// bit, which is what makes the per-section dirty checks sound to use.
pub fn build_frame(
    config: &Configuration,
    area: Rect,
    old_ctx: &Context,
    new_ctx: &Context,
    map: &mut FrameMap,
    cache: &mut Cache,
)
    requires
        area.width >= 60,
        area.height >= 12,
        area.x + area.width <= u16::MAX,
        area.y + area.height <= u16::MAX,
        crate::presentation::widgets::channel::channels_drawable(
            new_ctx.state.channel.channels@,
        ),
        crate::presentation::widgets::channel::channel_cache_ok(
            *old(cache),
            new_ctx.state.channel.channels@,
            new_ctx.state.global.members@,
        ),
        new_ctx.auth is Some,
        crate::presentation::widgets::status_line::member_pos_from(
            new_ctx.state.global.members@,
            new_ctx.auth.unwrap().authed_user.id@,
            0,
        ) is Some,
    ensures
        final(map).channel is Some,
        final(map).message is Some,
        final(map).input is Some,
        final(map).status_line is Some,
        final(map).thread is Some <==> new_ctx.state.message.opened is Some,
        !channel_dirty(*old_ctx, *new_ctx) && old(map).channel is Some ==> final(map).channel
            == old(map).channel,
        !messages_dirty(*old_ctx, *new_ctx) && old(map).message is Some ==> final(map).message
            == old(map).message,
        !input_dirty(*old_ctx, *new_ctx) && old(map).input is Some ==> final(map).input
            == old(map).input,
        !status_line_dirty(*old_ctx, *new_ctx) && old(map).status_line is Some
            ==> final(map).status_line == old(map).status_line,
        crate::presentation::widgets::channel::channel_cache_ok(
            *final(cache),
            new_ctx.state.channel.channels@,
            new_ctx.state.global.members@,
        ),
        (channel_dirty(*old_ctx, *new_ctx) || old(map).channel is None)
            ==> match final(map).channel {
            Option::Some(r) => crate::presentation::widgets::channel::channel_render_post(
                r@,
                *new_ctx,
                channel_chunk(area),
            ),
            Option::None => false,
        },
        (input_dirty(*old_ctx, *new_ctx) || old(map).input is None) ==> match final(map).input {
            Option::Some(r) => crate::presentation::widgets::input::input_section_built(
                r@,
                *new_ctx,
                input_chunk(area),
            ),
            Option::None => false,
        },
        (status_line_dirty(*old_ctx, *new_ctx) || old(map).status_line is None)
            ==> match final(map).status_line {
            Option::Some(r) => crate::presentation::widgets::status_line::status_line_built(
                r@,
                *config,
                *new_ctx,
                status_chunk(area),
            ),
            Option::None => false,
        },
        (messages_dirty(*old_ctx, *new_ctx) || old(map).message is None)
            ==> match final(map).message {
            Option::Some(r) => crate::presentation::widgets::messages::messages_render_post(
                r@,
                *new_ctx,
                message_chunk(area, new_ctx.state.message.opened is Some),
                old(cache).widgets.entries@,
            ),
            Option::None => false,
        },
        new_ctx.state.message.opened is Some ==> match final(map).thread {
            Option::Some(r) => crate::presentation::widgets::messages::thread_render_post(
                r@,
                *new_ctx,
                thread_chunk(area),
                old(cache).widgets.entries@,
            ),
            Option::None => false,
        },
{
    let show_thread = new_ctx.state.message.opened.is_some();
    let chunks = frame_chunks(area, show_thread);

    if need_render(Section::Channel, old_ctx, new_ctx) || map.channel.is_none() {
        map.channel = Option::Some(
            crate::presentation::widgets::channel::render(chunks.channel, config, new_ctx, cache),
        );
    }
    if need_render(Section::Message, old_ctx, new_ctx) || map.message.is_none() {
        map.message = Option::Some(
            crate::presentation::widgets::messages::render(chunks.message, config, new_ctx, cache),
        );
    }
    if need_render(Section::Input, old_ctx, new_ctx) || map.input.is_none() {
        map.input = Option::Some(
            crate::presentation::widgets::input::render(chunks.input, config, new_ctx),
        );
    }
    if need_render(Section::StatusLine, old_ctx, new_ctx) || map.status_line.is_none() {
        map.status_line = Option::Some(
            crate::presentation::widgets::status_line::render(
                config,
                new_ctx,
                chunks.status_line,
            ),
        );
    }
    if show_thread {
        let ghost mid = cache.widgets.entries@;
        let thread_frags = crate::presentation::widgets::messages::render_thread(
            chunks.thread,
            config,
            new_ctx,
            cache,
        );
        proof {
            let pre0 = old(cache).widgets.entries@;
            let msgs = new_ctx.state.thread.messages@;
            let members = new_ctx.state.global.members@;
            let w = crate::presentation::widgets::messages::thread_text_width(chunks.thread);
            reveal_strlit("history.");
            reveal_strlit("thread.");
            assert("thread."@[0] == 't' && "history."@[0] == 'h');
            if crate::presentation::widgets::messages::listing_cache_ok(
                pre0,
                msgs,
                members,
                crate::presentation::widgets::messages::thread_title(*new_ctx),
                "thread."@,
                w,
            ) && crate::presentation::widgets::messages::distinct_ts(msgs) {
                crate::presentation::widgets::messages::lemma_listing_cache_ok_transfer(
                    pre0,
                    mid,
                    msgs,
                    members,
                    crate::presentation::widgets::messages::thread_title(*new_ctx),
                    "thread."@,
                    "history."@,
                    w,
                );
            }
            assert(crate::presentation::widgets::messages::thread_render_post(
                thread_frags@,
                *new_ctx,
                chunks.thread,
                pre0,
            ));
        }
        map.thread = Option::Some(thread_frags);
    } else {
        map.thread = Option::None;
    }
}

} // verus!
