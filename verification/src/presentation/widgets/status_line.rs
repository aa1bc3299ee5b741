//! The status line: the configured templates with their placeholders
//! filled in, split into powerline-style segments around the separators.

use vstd::prelude::*;

use crate::context::Context;
use crate::entities::configuration::Configuration;
use crate::entities::users::Member;
use crate::enums::user_mode::{mode_color, mode_name};
use crate::enums::widgets::{WidgetData, Widgets};
use crate::strutil::{replace_all, replaced, split_by_str, split_on_str, str_to_string};
use crate::style::{Alignment, Color, Rect, TextLine, TextSpan, TextStyle};

verus! {

/// The first member carrying the given identifier.
pub open spec fn member_pos_from(s: Seq<Member>, id: Seq<char>, i: int) -> Option<int>
    decreases s.len() - i,
{
    if i < 0 || i >= s.len() {
        Option::None
    } else if s[i].id@ == id {
        Option::Some(i)
    } else {
        member_pos_from(s, id, i + 1)
    }
}

/// The template with all four placeholders filled in, in this order.
pub open spec fn expanded(t: Seq<char>, user: Seq<char>, team: Seq<char>, mode: Seq<char>, channel: Seq<char>) -> Seq<char> {
    replaced(
        replaced(replaced(replaced(t, "%user%"@, user), "%team%"@, team), "%mode%"@, mode),
        "%channel%"@,
        channel,
    )
}

/// Segment `i` of a split template, empty past the end.
pub open spec fn segment(parts: Seq<Seq<char>>, i: int) -> Seq<char> {
    if 0 <= i < parts.len() {
        parts[i]
    } else {
        Seq::empty()
    }
}

/// The channel name the status line shows: the selected conversation's
/// label, or nothing.
pub open spec fn status_channel_name(c: Context) -> Seq<char> {
    match c.state.channel.selected {
        Option::Some(ch) => crate::presentation::widgets::channels::channel_label(ch),
        Option::None => Seq::empty(),
    }
}

pub open spec fn span_is(sp: TextSpan, text: Seq<char>, fg: Color, bg: Color) -> bool {
    sp.text@ == text && sp.style == (TextStyle { fg, bg, bold: false })
}

/// The two halves of the status line, with the mode-coloured primary
/// segment at each outer edge.
pub open spec fn status_line_built(r: Seq<WidgetData>, cfg: Configuration, c: Context, chunk: Rect) -> bool {
    let user_pos = member_pos_from(
        c.state.global.members@,
        c.auth.unwrap().authed_user.id@,
        0,
    );
    let user = c.state.global.members@[user_pos.unwrap()].profile.display_name@;
    let team = c.auth.unwrap().team.name@;
    let mode = mode_name(c.mode);
    let channel = status_channel_name(c);
    let mc = mode_color(c.mode);
    let left = split_by_str(
        expanded(cfg.status_line.left.template@, user, team, mode, channel),
        "<>"@,
    );
    let right = split_by_str(
        expanded(cfg.status_line.right.template@, user, team, mode, channel),
        "<>"@,
    );
    let lsep = cfg.status_line.left.separator@;
    let rsep = cfg.status_line.right.separator@;
    &&& r.len() == 2
    &&& r[0].rect == (Rect { x: chunk.x, y: chunk.y, width: (chunk.width / 2) as u16, height: chunk.height })
    &&& r[1].rect == (Rect {
        x: (chunk.x + chunk.width / 2) as u16,
        y: chunk.y,
        width: (chunk.width - chunk.width / 2) as u16,
        height: chunk.height,
    })
    &&& (match r[0].widget {
        Widgets::Line(l) => {
            &&& l.alignment == Alignment::Left
            &&& l.spans@.len() == 5
            &&& span_is(l.spans@[0], segment(left, 0), Color::Black, mc)
            &&& span_is(l.spans@[1], lsep, mc, Color::DarkGray)
            &&& span_is(l.spans@[2], segment(left, 1), Color::White, Color::DarkGray)
            &&& span_is(l.spans@[3], lsep, Color::DarkGray, Color::Reset)
            &&& span_is(l.spans@[4], segment(left, 2), Color::White, Color::Reset)
        },
        _ => false,
    })
    &&& (match r[1].widget {
        Widgets::Line(l) => {
            &&& l.alignment == Alignment::Right
            &&& l.spans@.len() == 5
            &&& span_is(l.spans@[0], segment(right, 2), Color::White, Color::Reset)
            &&& span_is(l.spans@[1], rsep, Color::DarkGray, Color::Reset)
            &&& span_is(l.spans@[2], segment(right, 1), Color::White, Color::DarkGray)
            &&& span_is(l.spans@[3], rsep, mc, Color::DarkGray)
            &&& span_is(l.spans@[4], segment(right, 0), Color::Black, mc)
        },
        _ => false,
    })
}

fn expand_template(t: &str, user: &str, team: &str, mode: &str, channel: &str) -> (r: String)
    ensures
        r@ == expanded(t@, user@, team@, mode@, channel@),
{
    proof {
        reveal_strlit("%user%");
        reveal_strlit("%team%");
        reveal_strlit("%mode%");
        reveal_strlit("%channel%");
    }
    let a = replace_all(t, "%user%", user);
    let b = replace_all(a.as_str(), "%team%", team);
    let c = replace_all(b.as_str(), "%mode%", mode);
    replace_all(c.as_str(), "%channel%", channel)
}

fn piece(parts: &Vec<String>, i: usize) -> (r: String)
    ensures
        r@ == segment(crate::utils::string::views_of(parts@), i as int),
{
    if i < parts.len() {
        str_to_string(parts[i].as_str())
    } else {
        String::new()
    }
}

/// Lay out the status line for the given strip of the screen.
pub fn render(config: &Configuration, context: &Context, chunk: Rect) -> (r: Vec<WidgetData>)
    requires
        chunk.x + chunk.width <= u16::MAX,
        context.auth is Some,
        member_pos_from(
            context.state.global.members@,
            context.auth.unwrap().authed_user.id@,
            0,
        ) is Some,
    ensures
        status_line_built(r@, *config, *context, chunk),
{
    proof {
        reveal_strlit("<>");
    }
    let auth = match &context.auth {
        Option::Some(a) => a,
        Option::None => vstd::pervasive::unreached(),
    };
    let user_name = find_member_name(&context.state.global.members, auth.authed_user.id.as_str());
    let team = auth.team.name.as_str();
    let mode = context.mode.to_string();
    let channel_name: String = match &context.state.channel.selected {
        Option::Some(ch) => match &ch.name {
            Option::Some(n) => str_to_string(n.as_str()),
            Option::None => str_to_string(ch.id.as_str()),
        },
        Option::None => String::new(),
    };

    let left_text = expand_template(
        config.status_line.left.template.as_str(),
        user_name.as_str(),
        team,
        mode.as_str(),
        channel_name.as_str(),
    );
    let right_text = expand_template(
        config.status_line.right.template.as_str(),
        user_name.as_str(),
        team,
        mode.as_str(),
        channel_name.as_str(),
    );
    let left = split_on_str(left_text.as_str(), "<>");
    let right = split_on_str(right_text.as_str(), "<>");

    let mc = context.mode.to_color();
    let plain = Color::Reset;

    let mut left_spans: Vec<TextSpan> = Vec::new();
    left_spans.push(
        TextSpan::new(piece(&left, 0), TextStyle { fg: Color::Black, bg: mc, bold: false }),
    );
    left_spans.push(
        TextSpan::new(
            str_to_string(config.status_line.left.separator.as_str()),
            TextStyle { fg: mc, bg: Color::DarkGray, bold: false },
        ),
    );
    left_spans.push(
        TextSpan::new(
            piece(&left, 1),
            TextStyle { fg: Color::White, bg: Color::DarkGray, bold: false },
        ),
    );
    left_spans.push(
        TextSpan::new(
            str_to_string(config.status_line.left.separator.as_str()),
            TextStyle { fg: Color::DarkGray, bg: plain, bold: false },
        ),
    );
    left_spans.push(
        TextSpan::new(piece(&left, 2), TextStyle { fg: Color::White, bg: plain, bold: false }),
    );

    let mut right_spans: Vec<TextSpan> = Vec::new();
    right_spans.push(
        TextSpan::new(piece(&right, 2), TextStyle { fg: Color::White, bg: plain, bold: false }),
    );
    right_spans.push(
        TextSpan::new(
            str_to_string(config.status_line.right.separator.as_str()),
            TextStyle { fg: Color::DarkGray, bg: plain, bold: false },
        ),
    );
    right_spans.push(
        TextSpan::new(
            piece(&right, 1),
            TextStyle { fg: Color::White, bg: Color::DarkGray, bold: false },
        ),
    );
    right_spans.push(
        TextSpan::new(
            str_to_string(config.status_line.right.separator.as_str()),
            TextStyle { fg: mc, bg: Color::DarkGray, bold: false },
        ),
    );
    right_spans.push(
        TextSpan::new(piece(&right, 0), TextStyle { fg: Color::Black, bg: mc, bold: false }),
    );

    let half = chunk.width / 2;
    let mut r: Vec<WidgetData> = Vec::new();
    r.push(
        WidgetData {
            rect: Rect { x: chunk.x, y: chunk.y, width: half, height: chunk.height },
            widget: Widgets::Line(TextLine { spans: left_spans, alignment: Alignment::Left }),
        },
    );
    r.push(
        WidgetData {
            rect: Rect {
                x: chunk.x + half,
                y: chunk.y,
                width: chunk.width - half,
                height: chunk.height,
            },
            widget: Widgets::Line(TextLine { spans: right_spans, alignment: Alignment::Right }),
        },
    );
    r
}

/// Two status lines laid out over the same snapshot and strip are bit
/// identical.
pub proof fn lemma_status_line_deterministic(
    r1: Seq<WidgetData>,
    r2: Seq<WidgetData>,
    cfg: Configuration,
    c: Context,
    chunk: Rect,
)
    requires
        status_line_built(r1, cfg, c, chunk),
        status_line_built(r2, cfg, c, chunk),
    ensures
        crate::enums::widgets::widget_data_seq_equal(r1, r2),
{
    assert forall|i: int|
        0 <= i < r1.len() implies crate::enums::widgets::widget_data_equal(r1[i], r2[i]) by {
        match (r1[i].widget, r2[i].widget) {
            (Widgets::Line(l1), Widgets::Line(l2)) => {
                assert forall|k: int|
                    0 <= k < l1.spans@.len() implies crate::style::span_equal(
                    l1.spans@[k],
                    l2.spans@[k],
                ) by {}
                assert(crate::style::spans_equal(l1.spans@, l2.spans@));
            },
            _ => {},
        }
    }
}

fn find_member_name(members: &Vec<Member>, id: &str) -> (r: String)
    requires
        member_pos_from(members@, id@, 0) is Some,
    ensures
        r@ == members@[member_pos_from(members@, id@, 0).unwrap()].profile.display_name@,
{
    let n = members.len();
    let mut i: usize = 0;
    while i < n
        invariant
            n == members@.len(),
            0 <= i <= n,
            member_pos_from(members@, id@, 0) == member_pos_from(members@, id@, i as int),
        decreases n - i,
    {
        if crate::strutil::str_eq(members[i].id.as_str(), id) {
            return str_to_string(members[i].profile.display_name.as_str());
        }
        i += 1;
    }
    vstd::pervasive::unreached()
}

} // verus!
