//! The channel section: the filtered, scrolled channel listing with its
//! per-channel memoised lines, and the search box under it while searching.

use vstd::prelude::*;

use crate::cache::{lookup, Cache};
use crate::context::Context;
use crate::entities::configuration::Configuration;
use crate::entities::conversations::Channel;
use crate::entities::users::Member;
use crate::enums::section::Section;
use crate::enums::user_mode::UserMode;
use crate::enums::widgets::{ListData, ListEntry, ParagraphData, WidgetData, Widgets};
use crate::presentation::widgets::block::section_block;
use crate::presentation::widgets::channels::{channel_label, channel_matches};
use crate::presentation::widgets::status_line::member_pos_from;
use crate::strutil::{str_contains, str_to_string};
use crate::style::{plain_style, Alignment, Color, Rect, TextLine, TextSpan, TextStyle};

verus! {

/// Whether the listing shows a conversation: it matches the search and the
/// user is a member of it (or its peer account is gone).
pub open spec fn channel_visible(c: Channel, q: Seq<char>) -> bool {
    channel_matches(c, q) && ((match c.is_member {
        Option::Some(b) => b,
        Option::None => true,
    }) || (match c.is_user_deleted {
        Option::Some(b) => b,
        Option::None => false,
    }))
}

/// The positions of the visible conversations, in order.
pub open spec fn visible_ids(s: Seq<Channel>, q: Seq<char>) -> Seq<int>
    decreases s.len(),
{
    if s.len() == 0 {
        Seq::empty()
    } else if channel_visible(s.last(), q) {
        visible_ids(s.drop_last(), q).push(s.len() - 1)
    } else {
        visible_ids(s.drop_last(), q)
    }
}

/// The icon a conversation is listed under.
pub open spec fn channel_icon(c: Channel) -> Seq<char> {
    if c.is_im {
        "\u{eabc}"@
    } else if (match c.is_mpim {
        Option::Some(b) => b,
        Option::None => false,
    }) {
        "\u{f0c0}"@
    } else if (match c.is_private {
        Option::Some(b) => b,
        Option::None => false,
    }) {
        "\u{e672}"@
    } else {
        "\u{f4df}"@
    }
}

/// The title shown: for a direct message the peer's display name when the
/// member list knows the peer, else the raw identifier; for a channel its
/// label.
pub open spec fn channel_title(c: Channel, members: Seq<Member>) -> Seq<char>
    recommends
        c.is_im ==> c.user is Some,
{
    if c.is_im {
        match member_pos_from(members, c.user.unwrap()@, 0) {
            Option::Some(i) => members[i].profile.display_name@,
            Option::None => c.user.unwrap()@,
        }
    } else {
        channel_label(c)
    }
}

/// The one line a conversation is drawn as.
pub open spec fn channel_line_text(c: Channel, members: Seq<Member>) -> Seq<char> {
    " "@ + channel_icon(c) + " "@ + channel_title(c, members)
}

pub open spec fn line_is_text(l: TextLine, t: Seq<char>) -> bool {
    &&& l.alignment == Alignment::Left
    &&& l.spans@.len() == 1
    &&& l.spans@[0].text@ == t
    &&& l.spans@[0].style == plain_style()
}

/// The memoisation key of a conversation's line.
pub open spec fn channel_key(id: Seq<char>) -> Seq<char> {
    "channel."@ + id
}

/// Every cached channel line among the entries agrees with what the
/// listing would compute for it now.
pub open spec fn channel_entries_ok(
    entries: Seq<(String, Widgets)>,
    s: Seq<Channel>,
    members: Seq<Member>,
) -> bool {
    forall|i: int|
        0 <= i < s.len() ==> match lookup(entries, channel_key(#[trigger] s[i].id@)) {
            Option::None => true,
            Option::Some(w) => match w {
                Widgets::Line(l) => line_is_text(l, channel_line_text(s[i], members)),
                _ => false,
            },
        }
}

/// Every cached channel line agrees with what the listing would compute
/// for it now.
pub open spec fn channel_cache_ok(c: Cache, s: Seq<Channel>, members: Seq<Member>) -> bool {
    channel_entries_ok(c.widget.entries@, s, members)
}

/// Conversations the listing can draw: direct messages carry their peer,
/// and identifiers name their conversation uniquely.
pub open spec fn channels_drawable(s: Seq<Channel>) -> bool {
    &&& forall|i: int| 0 <= i < s.len() ==> (#[trigger] s[i].is_im ==> s[i].user is Some)
    &&& forall|i: int, j: int|
        0 <= i < j < s.len() ==> #[trigger] s[i].id@ != #[trigger] s[j].id@
}

/// Check the drawing precondition at run time: every direct message
/// carries its peer and identifiers are unique.
#[verifier::loop_isolation(false)]
pub fn channels_drawable_check(channels: &Vec<Channel>) -> (r: bool)
    ensures
        r == channels_drawable(channels@),
{
    let n = channels.len();
    let mut i: usize = 0;
    while i < n
        invariant
            0 <= i <= n,
            forall|a: int| 0 <= a < i ==> (#[trigger] channels@[a].is_im ==> channels@[a].user
                is Some),
            forall|a: int, b: int|
                0 <= a < b < n && a < i ==> #[trigger] channels@[a].id@ != #[trigger] channels@[b].id@,
        decreases n - i,
    {
        if channels[i].is_im && channels[i].user.is_none() {
            return false;
        }
        let mut j: usize = i + 1;
        while j < n
            invariant
                i < j <= n,
                forall|b: int| i < b < j ==> channels@[i as int].id@ != #[trigger] channels@[b].id@,
            decreases n - j,
        {
            if crate::strutil::str_eq(channels[i].id.as_str(), channels[j].id.as_str()) {
                return false;
            }
            j += 1;
        }
        i += 1;
    }
    true
}

/// The style a listed conversation is drawn in: inverted when selected.
pub open spec fn entry_style_for(c: Channel, selected: Option<Channel>) -> TextStyle {
    match selected {
        Option::Some(sel) => if crate::entities::conversations::channel_equal(c, sel) {
            TextStyle { fg: Color::Black, bg: Color::Cyan, bold: false }
        } else {
            plain_style()
        },
        Option::None => plain_style(),
    }
}

/// How many rows of conversations fit in the section.
pub open spec fn listing_height(area_h: int, total: int) -> int {
    if area_h < 2 {
        0
    } else if area_h - 2 < total {
        area_h - 2
    } else {
        total
    }
}

/// Rows scrolled past, so the window ends just after the selected row.
pub open spec fn listing_skip(index: int, height: int) -> int {
    if height > 0 && index >= height {
        index - height + 1
    } else {
        0
    }
}

/// How many rows the window actually holds.
pub open spec fn listing_shown(vis_len: int, skip: int, height: int) -> int {
    if vis_len <= skip {
        0
    } else if height < vis_len - skip {
        height
    } else {
        vis_len - skip
    }
}

/// What the channel section shows for a snapshot: the windowed rows, each
/// holding its conversation's line under its selection style, inside the
/// section border; and the search box while searching.
pub open spec fn channel_section_built(r: Seq<WidgetData>, c: Context, area: Rect, search_area: Rect, show_search: bool) -> bool {
    let s = c.state.channel.channels@;
    let q = c.state.channel.search@;
    let vis = visible_ids(s, q);
    let height = listing_height(area.height as int, s.len() as int);
    let index = match c.state.channel.selected_index {
        Option::Some(i) => i as int,
        Option::None => 0,
    };
    let skip = listing_skip(index, height);
    let shown = listing_shown(vis.len() as int, skip, height);
    &&& r.len() == (if show_search {
        2int
    } else {
        1int
    })
    &&& r[0].rect == area
    &&& (match r[0].widget {
        Widgets::List(l) => {
            &&& l.style == plain_style()
            &&& (match l.block {
                Option::Some(b) => section_block(
                    c.state.global.section == Section::Channel,
                    c.mode,
                    b,
                ),
                Option::None => false,
            })
            &&& l.items@.len() == shown
            &&& forall|k: int| 0 <= k < shown ==> {
                &&& line_is_text(
                    (#[trigger] l.items@[k]).line,
                    channel_line_text(s[vis[skip + k]], c.state.global.members@),
                )
                &&& l.items@[k].style == entry_style_for(
                    s[vis[skip + k]],
                    c.state.channel.selected,
                )
            }
        },
        _ => false,
    })
    &&& (show_search ==> {
        &&& r[1].rect == search_area
        &&& (match r[1].widget {
            Widgets::Paragraph(p) => {
                &&& p.text@ == "/"@ + q
                &&& (match p.block {
                    Option::Some(b) => section_block(
                        c.state.global.section == Section::Channel,
                        c.mode,
                        b,
                    ),
                    Option::None => false,
                })
            },
            _ => false,
        })
    })
}

fn find_member_display(members: &Vec<Member>, id: &str) -> (r: String)
    ensures
        r@ == (match member_pos_from(members@, id@, 0) {
            Option::Some(i) => members@[i].profile.display_name@,
            Option::None => id@,
        }),
{
    let n = members.len();
    let mut i: usize = 0;
    while i < n
        invariant
            n == members@.len(),
            0 <= i <= n,
            member_pos_from(members@, id@, 0) == member_pos_from(members@, id@, i as int),
        decreases n - i,
    {
        if crate::strutil::str_eq(members[i].id.as_str(), id) {
            return str_to_string(members[i].profile.display_name.as_str());
        }
        i += 1;
    }
    str_to_string(id)
}

fn build_channel_line(c: &Channel, members: &Vec<Member>) -> (r: TextLine)
    requires
        c.is_im ==> c.user is Some,
    ensures
        line_is_text(r, channel_line_text(*c, members@)),
{
    let mpim = match c.is_mpim {
        Option::Some(b) => b,
        Option::None => false,
    };
    let private = match c.is_private {
        Option::Some(b) => b,
        Option::None => false,
    };
    let prefix: &str = if c.is_im {
        "\u{eabc}"
    } else if mpim {
        "\u{f0c0}"
    } else if private {
        "\u{e672}"
    } else {
        "\u{f4df}"
    };
    let title: String = if c.is_im {
        let uid = match &c.user {
            Option::Some(u) => u.as_str(),
            Option::None => vstd::pervasive::unreached(),
        };
        find_member_display(members, uid)
    } else {
        match &c.name {
            Option::Some(n) => str_to_string(n.as_str()),
            Option::None => str_to_string(c.id.as_str()),
        }
    };
    let mut text = str_to_string(" ");
    text.append(prefix);
    text.append(" ");
    text.append(title.as_str());
    let mut spans: Vec<TextSpan> = Vec::new();
    spans.push(TextSpan::new(text, TextStyle::plain()));
    TextLine { spans, alignment: Alignment::Left }
}

/// Everything one channel-section build yields for a frame rectangle: the
/// searching split of the rectangle and the fully pinned fragments in it.
pub open spec fn channel_render_post(r: Seq<WidgetData>, c: Context, chunk: Rect) -> bool {
    let show_search = c.state.global.section == Section::Channel && c.mode == UserMode::Search;
    let area = if show_search {
        Rect { x: chunk.x, y: chunk.y, width: chunk.width, height: (chunk.height - 3) as u16 }
    } else {
        chunk
    };
    let search_area = Rect {
        x: chunk.x,
        y: (chunk.y + chunk.height - 3) as u16,
        width: chunk.width,
        height: 3,
    };
    channel_section_built(r, c, area, search_area, show_search)
}

/// Lay out the channel section, reusing each conversation's memoised line
/// and memoising the ones built afresh.
#[verifier::loop_isolation(false)]
#[verifier::rlimit(100)]
pub fn render(chunk: Rect, _config: &Configuration, context: &Context, cache: &mut Cache) -> (r:
    Vec<WidgetData>)
    requires
        chunk.y + chunk.height <= u16::MAX,
        channels_drawable(context.state.channel.channels@),
        channel_cache_ok(
            *old(cache),
            context.state.channel.channels@,
            context.state.global.members@,
        ),
        chunk.height >= 3,
    ensures
        channel_cache_ok(
            *final(cache),
            context.state.channel.channels@,
            context.state.global.members@,
        ),
        final(cache).widgets == old(cache).widgets,
        channel_render_post(r@, *context, chunk),
{
    let show_search = context.state.global.section == Section::Channel && context.mode
        == UserMode::Search;
    let area = if show_search {
        Rect { x: chunk.x, y: chunk.y, width: chunk.width, height: chunk.height - 3 }
    } else {
        chunk
    };

    let s = &context.state.channel.channels;
    let total = s.len();
    let height: usize = if area.height < 2 {
        0
    } else if ((area.height - 2) as usize) < total {
        (area.height - 2) as usize
    } else {
        total
    };
    let index: usize = match context.state.channel.selected_index {
        Option::Some(i) => i,
        Option::None => 0,
    };
    let skip: usize = if height > 0 && index >= height {
        index - height + 1
    } else {
        0
    };
    proof {
        assert(height == listing_height(area.height as int, total as int));
        assert(skip == listing_skip(index as int, height as int));
    }

    let mut vis: Vec<usize> = Vec::new();
    let mut i: usize = 0;
    while i < total
        invariant
            0 <= i <= total,
            vis@.len() == visible_ids(s@.subrange(0, i as int), context.state.channel.search@).len(),
            forall|k: int| 0 <= k < vis@.len() ==> vis@[k] as int == visible_ids(
                s@.subrange(0, i as int),
                context.state.channel.search@,
            )[k] && vis@[k] < i,
        decreases total - i,
    {
        proof {
            assert(s@.subrange(0, i + 1).drop_last() =~= s@.subrange(0, i as int));
            assert(s@.subrange(0, i + 1).last() == s@[i as int]);
        }
        let c = &s[i];
        let member = match c.is_member {
            Option::Some(b) => b,
            Option::None => true,
        };
        let gone = match c.is_user_deleted {
            Option::Some(b) => b,
            Option::None => false,
        };
        let label: &str = match &c.name {
            Option::Some(n) => n.as_str(),
            Option::None => c.id.as_str(),
        };
        let matched = str_contains(label, context.state.channel.search.as_str());
        if matched && (member || gone) {
            vis.push(i);
        }
        i += 1;
    }
    proof {
        assert(s@.subrange(0, total as int) =~= s@);
    }
    let ghost gvis = visible_ids(s@, context.state.channel.search@);

    let shown: usize = if vis.len() <= skip {
        0
    } else if height < vis.len() - skip {
        height
    } else {
        vis.len() - skip
    };
    proof {
        assert(shown == listing_shown(gvis.len() as int, skip as int, height as int));
    }

    let mut items: Vec<ListEntry> = Vec::new();
    let mut k: usize = 0;
    while k < shown
        invariant
            0 <= k <= shown,
            items@.len() == k,
            shown == 0 || skip + shown <= vis@.len(),
            channel_cache_ok(*cache, s@, context.state.global.members@),
            cache.widgets == old(cache).widgets,
            forall|j: int| 0 <= j < k ==> {
                &&& line_is_text(
                    (#[trigger] items@[j]).line,
                    channel_line_text(s@[gvis[skip + j]], context.state.global.members@),
                )
                &&& items@[j].style == entry_style_for(
                    s@[gvis[skip + j]],
                    context.state.channel.selected,
                )
            },
        decreases shown - k,
    {
        let ci = vis[skip + k];
        let c = &s[ci];
        let style = match &context.state.channel.selected {
            Option::Some(sel) => if crate::entities::conversations::channel_eq(c, sel) {
                TextStyle { fg: Color::Black, bg: Color::Cyan, bold: false }
            } else {
                TextStyle::plain()
            },
            Option::None => TextStyle::plain(),
        };
        let mut key = str_to_string("channel.");
        key.append(c.id.as_str());
        let line: TextLine = match cache.widget.get(key.as_str()) {
            Option::Some(w) => match w {
                Widgets::Line(l) => l.clone(),
                _ => vstd::pervasive::unreached(),
            },
            Option::None => {
                let l = build_channel_line(c, &context.state.global.members);
                let copy = l.clone();
                let ghost pre = cache.widget.entries@;
                cache.widget.insert(key, Widgets::Line(copy));
                proof {
                    lemma_channel_cache_still_ok(
                        pre,
                        cache.widget.entries@,
                        s@,
                        context.state.global.members@,
                        ci as int,
                    );
                }
                l
            },
        };
        items.push(ListEntry { line, style });
        k += 1;
    }

    let block = crate::presentation::widgets::block::build(
        context.state.global.section == Section::Channel,
        &context.mode,
    );
    let mut out: Vec<WidgetData> = Vec::new();
    out.push(
        WidgetData {
            rect: area,
            widget: Widgets::List(
                ListData { items, block: Option::Some(block), style: TextStyle::plain() },
            ),
        },
    );
    if show_search {
        let block2 = crate::presentation::widgets::block::build(
            context.state.global.section == Section::Channel,
            &context.mode,
        );
        let mut text = str_to_string("/");
        text.append(context.state.channel.search.as_str());
        out.push(
            WidgetData {
                rect: Rect {
                    x: chunk.x,
                    y: chunk.y + chunk.height - 3,
                    width: chunk.width,
                    height: 3,
                },
                widget: Widgets::Paragraph(ParagraphData { text, block: Option::Some(block2) }),
            },
        );
    }
    out
}

/// Two channel-section builds over the same snapshot and rectangles yield
/// bit-identical fragments, whatever the cache held in either run: what
/// makes a hit on the memoised lines indistinguishable from a rebuild.
pub proof fn lemma_channel_build_deterministic(
    r1: Seq<WidgetData>,
    r2: Seq<WidgetData>,
    c: Context,
    area: Rect,
    search_area: Rect,
    show_search: bool,
)
    requires
        channel_section_built(r1, c, area, search_area, show_search),
        channel_section_built(r2, c, area, search_area, show_search),
    ensures
        crate::enums::widgets::widget_data_seq_equal(r1, r2),
{
    assert forall|i: int|
        0 <= i < r1.len() implies crate::enums::widgets::widget_data_equal(r1[i], r2[i]) by {
        if i == 0 {
            match (r1[0].widget, r2[0].widget) {
                (Widgets::List(l1), Widgets::List(l2)) => {
                    assert forall|k: int|
                        0 <= k < l1.items@.len() implies crate::enums::widgets::entry_equal(
                        l1.items@[k],
                        l2.items@[k],
                    ) by {
                        assert(l1.items@[k].line.spans@.len() == 1);
                        assert(crate::style::span_equal(
                            l1.items@[k].line.spans@[0],
                            l2.items@[k].line.spans@[0],
                        ));
                        assert(crate::style::spans_equal(
                            l1.items@[k].line.spans@,
                            l2.items@[k].line.spans@,
                        ));
                    }
                    assert(crate::enums::widgets::list_equal(l1, l2));
                },
                _ => {},
            }
        } else {
            match (r1[1].widget, r2[1].widget) {
                (Widgets::Paragraph(p1), Widgets::Paragraph(p2)) => {
                    assert(crate::enums::widgets::paragraph_equal(p1, p2));
                },
                _ => {},
            }
        }
    }
}

/// After memoising the line of conversation `ci`, every cached channel
/// line still agrees with the listing.
proof fn lemma_channel_cache_still_ok(
    pre: Seq<(String, Widgets)>,
    post: Seq<(String, Widgets)>,
    s: Seq<Channel>,
    members: Seq<Member>,
    ci: int,
)
    requires
        channels_drawable(s),
        0 <= ci < s.len(),
        channel_entries_ok(pre, s, members),
        match lookup(post, channel_key(s[ci].id@)) {
            Option::Some(w) => match w {
                Widgets::Line(l) => line_is_text(l, channel_line_text(s[ci], members)),
                _ => false,
            },
            Option::None => false,
        },
        forall|key: Seq<char>|
            key != channel_key(s[ci].id@) ==> #[trigger] lookup(post, key) == lookup(pre, key),
    ensures
        channel_entries_ok(post, s, members),
{
    reveal_strlit("channel.");
    assert forall|j: int|
        0 <= j < s.len() implies match lookup(post, channel_key(#[trigger] s[j].id@)) {
        Option::None => true,
        Option::Some(w) => match w {
            Widgets::Line(l) => line_is_text(l, channel_line_text(s[j], members)),
            _ => false,
        },
    } by {
        let kj = channel_key(s[j].id@);
        if kj == channel_key(s[ci].id@) {
            assert(kj.subrange(8, kj.len() as int) =~= s[j].id@);
            assert(channel_key(s[ci].id@).subrange(8, channel_key(s[ci].id@).len() as int)
                =~= s[ci].id@);
            assert(s[j].id@ == s[ci].id@);
            if j != ci {
                if j < ci {
                    assert(s[j].id@ != s[ci].id@);
                } else {
                    assert(s[ci].id@ != s[j].id@);
                }
            }
            assert(j == ci);
        } else {
            assert(lookup(post, kj) == lookup(pre, kj));
        }
    }
}

} // verus!
