//! The message section: each message laid out as a named, coloured block
//! of wrapped rows with its reply and reaction footer, memoised per
//! message, grouped under date separators.
//!
//! The date labels come from the machine's local time zone, so they are
//! not a function of the snapshot alone. Everything else is: one message's
//! rows are pinned by `message_rows_ok`, and `build_listing` pins the
//! whole listing for whatever labels it is handed.

use vstd::prelude::*;

use crate::cache::{lookup, Cache};
use crate::context::Context;
use crate::entities::configuration::Configuration;
use crate::entities::messages::{Message, Reaction};
use crate::entities::users::Member;
use crate::enums::section::Section;
use crate::enums::widgets::{ListData, ListEntry, WidgetData, Widgets};
use crate::presentation::widgets::block::section_block;
use crate::presentation::widgets::status_line::member_pos_from;
use crate::strutil::{
    dec_digits, lemma_dec_digits_injective, starts_with, str_eq, str_to_string, u64_to_dec,
};
use crate::style::{
    line_equal, plain_style, span_equal, spans_equal, Alignment, Color, Rect, TextLine, TextSpan,
    TextStyle,
};
use crate::utils::string::{date_format, split_text_spec, split_text_with_custom_first, views_of};

verus! {

/// The member names each identifier expands to in a mention.
pub open spec fn member_name_map(members: Seq<Member>) -> Map<Seq<char>, Seq<char>> {
    Map::new(
        |id: Seq<char>| member_pos_from(members, id, 0) is Some,
        |id: Seq<char>|
            "@"@ + members[member_pos_from(members, id, 0).unwrap()].profile.display_name@,
    )
}

/// What replacing every user mention in a text yields; it depends on the
/// text and the member names alone.
pub uninterp spec fn mentions_expanded(text: Seq<char>, names: Map<Seq<char>, Seq<char>>) -> Seq<
    char,
>;

/// What one mentioned identifier is drawn as: the member's display name
/// with an @ sign, or nothing for a stranger.
pub fn mention_replacement(id: &str, members: &Vec<Member>) -> (r: String)
    ensures
        r@ == (if member_pos_from(members@, id@, 0) is Some {
            member_name_map(members@)[id@]
        } else {
            Seq::<char>::empty()
        }),
{
    let n = members.len();
    let mut i: usize = 0;
    while i < n
        invariant
            n == members@.len(),
            0 <= i <= n,
            member_pos_from(members@, id@, 0) == member_pos_from(members@, id@, i as int),
        decreases n - i,
    {
        if crate::strutil::str_eq(members[i].id.as_str(), id) {
            let mut s = str_to_string("@");
            s.append(members[i].profile.display_name.as_str());
            return s;
        }
        i += 1;
    }
    String::new()
}

/// Relies on regex's replace_all over the user-mention pattern `<@(\w+)>`:
/// every mention is rewritten through `mention_replacement`, so the result
/// is a function of the text and the member names.
#[verifier::external_body]
fn replace_mentions(text: &str, members: &Vec<Member>) -> (r: String)
    ensures
        r@ == mentions_expanded(text@, member_name_map(members@)),
{
    let re = regex::Regex::new(r"<@(\w+)>").unwrap();
    let replaced = re.replace_all(text, |caps: &regex::Captures| {
        mention_replacement(&caps[1], members)
    });
    replaced.to_string()
}

pub open spec fn hex_digit_val(c: char) -> Option<nat> {
    if 48 <= c as u32 <= 57 {
        Option::Some((c as u32 - 48) as nat)
    } else if 97 <= c as u32 <= 102 {
        Option::Some((c as u32 - 87) as nat)
    } else if 65 <= c as u32 <= 70 {
        Option::Some((c as u32 - 55) as nat)
    } else {
        Option::None
    }
}

pub open spec fn hex_pair_val(a: char, b: char) -> Option<nat> {
    match (hex_digit_val(a), hex_digit_val(b)) {
        (Option::Some(x), Option::Some(y)) => Option::Some(x * 16 + y),
        _ => Option::None,
    }
}

/// The colour a six-digit hex string names; white where the string is not
/// one.
pub open spec fn hex_color(s: Seq<char>) -> Color {
    if s.len() >= 6 {
        match (hex_pair_val(s[0], s[1]), hex_pair_val(s[2], s[3]), hex_pair_val(s[4], s[5])) {
            (Option::Some(r), Option::Some(g), Option::Some(b)) => Color::Rgb(
                r as u8,
                g as u8,
                b as u8,
            ),
            _ => Color::Rgb(255, 255, 255),
        }
    } else {
        Color::Rgb(255, 255, 255)
    }
}

fn hex_digit(c: char) -> (r: Option<u8>)
    ensures
        match r {
            Option::Some(v) => hex_digit_val(c) == Option::Some(v as nat) && v < 16,
            Option::None => hex_digit_val(c) is None,
        },
{
    let v = c as u32;
    if 48 <= v && v <= 57 {
        Option::Some((v - 48) as u8)
    } else if 97 <= v && v <= 102 {
        Option::Some((v - 87) as u8)
    } else if 65 <= v && v <= 70 {
        Option::Some((v - 55) as u8)
    } else {
        Option::None
    }
}

/// Read a member's colour string.
pub fn parse_hex_color(s: &str) -> (r: Color)
    ensures
        r == hex_color(s@),
{
    if s.unicode_len() < 6 {
        return Color::Rgb(255, 255, 255);
    }
    let p0 = hex_digit(s.get_char(0));
    let p1 = hex_digit(s.get_char(1));
    let p2 = hex_digit(s.get_char(2));
    let p3 = hex_digit(s.get_char(3));
    let p4 = hex_digit(s.get_char(4));
    let p5 = hex_digit(s.get_char(5));
    match (p0, p1, p2, p3, p4, p5) {
        (
            Option::Some(a),
            Option::Some(b),
            Option::Some(c),
            Option::Some(d),
            Option::Some(e),
            Option::Some(f),
        ) => Color::Rgb(a * 16 + b, c * 16 + d, e * 16 + f),
        _ => Color::Rgb(255, 255, 255),
    }
}

/// The account a message is attributed to: its user, else its bot, else
/// nobody.
pub open spec fn msg_uid(m: Message) -> Seq<char> {
    match m.user {
        Option::Some(u) => u@,
        Option::None => match m.bot_id {
            Option::Some(b) => b@,
            Option::None => Seq::empty(),
        },
    }
}

/// The name a message is shown under: the member's display name, or the
/// raw account identifier.
pub open spec fn msg_name(m: Message, members: Seq<Member>) -> Seq<char> {
    match member_pos_from(members, msg_uid(m), 0) {
        Option::Some(i) => members[i].profile.display_name@,
        Option::None => msg_uid(m),
    }
}

/// The colour a message's name is drawn in.
pub open spec fn msg_color(m: Message, members: Seq<Member>) -> Color {
    match member_pos_from(members, msg_uid(m), 0) {
        Option::Some(i) => match members[i].color {
            Option::Some(c) => hex_color(c@),
            Option::None => hex_color("ffffff"@),
        },
        Option::None => hex_color("ffffff"@),
    }
}

pub open spec fn msg_text(m: Message) -> Seq<char> {
    match m.text {
        Option::Some(t) => t@,
        Option::None => Seq::empty(),
    }
}

/// The wrapped body of a message: mentions expanded, then cut to the
/// width, the first row shortened by the name.
pub open spec fn msg_parts(m: Message, members: Seq<Member>, w: int) -> Seq<Seq<char>> {
    let name_len = msg_name(m, members).len() as int;
    let fw = if w - name_len - 2 > 0 {
        w - name_len - 2
    } else {
        1
    };
    let rw = if w - 1 > 0 {
        w - 1
    } else {
        1
    };
    split_text_spec(mentions_expanded(msg_text(m), member_name_map(members)), fw, rw)
}

pub open spec fn reaction_item(r: Reaction) -> Seq<char> {
    "[:"@ + r.name@ + ": "@ + dec_digits(r.count as nat) + "]"@
}

pub open spec fn footer_items(m: Message) -> Seq<Seq<char>> {
    let replies: Seq<Seq<char>> = match m.reply_count {
        Option::Some(c) => if c > 0 {
            seq!["[+"@ + dec_digits(c as nat) + " replies]"@]
        } else {
            Seq::empty()
        },
        Option::None => Seq::empty(),
    };
    let reacts: Seq<Seq<char>> = match m.reactions {
        Option::Some(rs) => Seq::new(rs@.len(), |i: int| reaction_item(rs@[i])),
        Option::None => Seq::empty(),
    };
    replies + reacts
}

/// Items joined with single spaces.
pub open spec fn joined_sp(items: Seq<Seq<char>>) -> Seq<char>
    decreases items.len(),
{
    if items.len() == 0 {
        Seq::empty()
    } else if items.len() == 1 {
        items[0]
    } else {
        items.first() + " "@ + joined_sp(items.drop_first())
    }
}

/// The footer rows of a message: its reply count and reactions, joined and
/// wrapped; none when there is nothing to say.
pub open spec fn footer_rows(m: Message, w: int) -> Seq<Seq<char>> {
    let items = footer_items(m);
    let rw = if w - 1 > 0 {
        w - 1
    } else {
        1
    };
    if items.len() == 0 {
        Seq::empty()
    } else {
        split_text_spec(joined_sp(items), rw, rw)
    }
}

pub open spec fn gray_style() -> TextStyle {
    TextStyle { fg: Color::Gray, bg: Color::Reset, bold: false }
}

/// What one message's rows are: a first row holding the coloured name and
/// the first body part, one row for each further part, and the footer rows
/// in gray.
pub open spec fn message_rows_ok(r: Seq<TextLine>, m: Message, members: Seq<Member>, w: int) -> bool {
    let name = msg_name(m, members);
    let color = msg_color(m, members);
    let parts = msg_parts(m, members, w);
    let body_rest: int = if parts.len() > 1 {
        parts.len() - 1
    } else {
        0
    };
    let footer = footer_rows(m, w);
    &&& r.len() == 1 + body_rest + footer.len()
    &&& (match r[0] {
        l => {
            &&& l.alignment == Alignment::Left
            &&& l.spans@.len() == 2
            &&& l.spans@[0].text@ == name
            &&& l.spans@[0].style == (TextStyle { fg: color, bg: Color::Reset, bold: true })
            &&& l.spans@[1].text@ == " "@ + (if parts.len() > 0 {
                parts[0]
            } else {
                Seq::empty()
            })
            &&& l.spans@[1].style == plain_style()
        },
    })
    &&& forall|t: int| 1 <= t < 1 + body_rest ==> {
        &&& (#[trigger] r[t]).alignment == Alignment::Left
        &&& r[t].spans@.len() == 1
        &&& r[t].spans@[0].text@ == parts[t]
        &&& r[t].spans@[0].style == plain_style()
    }
    &&& forall|t: int| 1 + body_rest <= t < r.len() ==> {
        &&& (#[trigger] r[t]).alignment == Alignment::Left
        &&& r[t].spans@.len() == 1
        &&& r[t].spans@[0].text@ == footer[t - 1 - body_rest]
        &&& r[t].spans@[0].style == gray_style()
    }
}

fn find_member_pos(members: &Vec<Member>, id: &str) -> (r: Option<usize>)
    ensures
        match r {
            Option::None => member_pos_from(members@, id@, 0) is None,
            Option::Some(p) => p < members@.len() && member_pos_from(members@, id@, 0)
                == Option::Some(p as int),
        },
{
    let n = members.len();
    let mut i: usize = 0;
    while i < n
        invariant
            n == members@.len(),
            0 <= i <= n,
            member_pos_from(members@, id@, 0) == member_pos_from(members@, id@, i as int),
        decreases n - i,
    {
        if crate::strutil::str_eq(members[i].id.as_str(), id) {
            return Option::Some(i);
        }
        i += 1;
    }
    Option::None
}

fn single_span_line(text: String, style: TextStyle) -> (r: TextLine)
    ensures
        r.alignment == Alignment::Left,
        r.spans@.len() == 1,
        r.spans@[0].text@ == text@,
        r.spans@[0].style == style,
{
    let mut spans: Vec<TextSpan> = Vec::new();
    spans.push(TextSpan::new(text, style));
    TextLine { spans, alignment: Alignment::Left }
}

/// Lay out one message: the coloured name row, the wrapped body and the
/// footer.
#[verifier::loop_isolation(false)]
#[verifier::rlimit(100)]
pub fn message_rows(m: &Message, members: &Vec<Member>, width: usize) -> (r: Vec<TextLine>)
    ensures
        message_rows_ok(r@, *m, members@, width as int),
{
    let uid: &str = match &m.user {
        Option::Some(u) => u.as_str(),
        Option::None => match &m.bot_id {
            Option::Some(b) => b.as_str(),
            Option::None => "",
        },
    };
    proof {
        reveal_strlit("");
        assert(uid@ == msg_uid(*m));
    }
    let pos = find_member_pos(members, uid);
    let name: String = match pos {
        Option::Some(i) => str_to_string(members[i].profile.display_name.as_str()),
        Option::None => str_to_string(uid),
    };
    let color: Color = match pos {
        Option::Some(i) => match &members[i].color {
            Option::Some(c) => parse_hex_color(c.as_str()),
            Option::None => {
                proof {
                    reveal_strlit("ffffff");
                }
                parse_hex_color("ffffff")
            },
        },
        Option::None => {
            proof {
                reveal_strlit("ffffff");
                assert(hex_color("ffffff"@) == Color::Rgb(255, 255, 255)) by {
                    assert("ffffff"@.len() == 6);
                    assert("ffffff"@[0] == 'f' && "ffffff"@[1] == 'f' && "ffffff"@[2] == 'f'
                        && "ffffff"@[3] == 'f' && "ffffff"@[4] == 'f' && "ffffff"@[5] == 'f');
                    assert(hex_digit_val('f') == Option::Some(15nat));
                }
            }
            Color::Rgb(255, 255, 255)
        },
    };
    proof {
        assert(name@ == msg_name(*m, members@));
        assert(color == msg_color(*m, members@));
    }

    let text: &str = match &m.text {
        Option::Some(t) => t.as_str(),
        Option::None => "",
    };
    proof {
        reveal_strlit("");
        assert(text@ == msg_text(*m));
    }
    let expanded = replace_mentions(text, members);

    let name_len = name.as_str().unicode_len();
    let fw: usize = if width > 2 && width - 2 > name_len {
        width - name_len - 2
    } else {
        1
    };
    let rw: usize = if width > 1 {
        width - 1
    } else {
        1
    };
    let parts = split_text_with_custom_first(expanded.as_str(), fw, rw);
    proof {
        assert(views_of(parts@) == msg_parts(*m, members@, width as int));
    }

    let mut rows: Vec<TextLine> = Vec::new();
    let first_text: String = if parts.len() > 0 {
        let mut t = str_to_string(" ");
        t.append(parts[0].as_str());
        t
    } else {
        str_to_string(" ")
    };
    proof {
        reveal_strlit(" ");
        if views_of(parts@).len() == 0 {
            assert(" "@ + Seq::<char>::empty() =~= " "@);
        }
    }
    let mut first_spans: Vec<TextSpan> = Vec::new();
    first_spans.push(
        TextSpan::new(
            str_to_string(name.as_str()),
            TextStyle { fg: color, bg: Color::Reset, bold: true },
        ),
    );
    first_spans.push(TextSpan::new(first_text, plain()));
    rows.push(TextLine { spans: first_spans, alignment: Alignment::Left });

    let total = parts.len();
    if total > 1 {
        let mut k: usize = 1;
        while k < total
            invariant
                total == parts@.len(),
                1 <= k <= total,
                rows@.len() == k,
                message_rows_head_ok(rows@, *m, members@, width as int, k as int),
            decreases total - k,
        {
            rows.push(single_span_line(str_to_string(parts[k].as_str()), plain()));
            k += 1;
        }
    }
    proof {
        assert(rows@.len() == head_len(*m, members@, width as int));
        assert(message_rows_head_ok(
            rows@,
            *m,
            members@,
            width as int,
            head_len(*m, members@, width as int),
        ));
    }

    let mut footer_texts: Vec<String> = Vec::new();
    match m.reply_count {
        Option::Some(c) => {
            if c > 0 {
                let mut t = str_to_string("[+");
                t.append(u64_to_dec(c as u64).as_str());
                t.append(" replies]");
                footer_texts.push(t);
            }
        },
        Option::None => {},
    }
    proof {
        assert(views_of(footer_texts@) =~= footer_items(*m).subrange(0, footer_base_len(*m)));
    }
    match &m.reactions {
        Option::Some(rs) => {
            let rn = rs.len();
            let mut j: usize = 0;
            while j < rn
                invariant
                    0 <= j <= rn,
                    footer_texts@.len() == footer_base_len(*m) + j,
                    views_of(footer_texts@) =~= footer_items(*m).subrange(
                        0,
                        footer_base_len(*m) + j,
                    ),
                decreases rn - j,
            {
                let mut t = str_to_string("[:");
                t.append(rs[j].name.as_str());
                t.append(": ");
                t.append(u64_to_dec(rs[j].count as u64).as_str());
                t.append("]");
                footer_texts.push(t);
                proof {
                    assert(views_of(footer_texts@) =~= views_of(footer_texts@.drop_last()).push(
                        reaction_item(rs@[j as int]),
                    ));
                    assert(footer_items(*m).subrange(0, footer_base_len(*m) + j + 1)
                        =~= footer_items(*m).subrange(0, footer_base_len(*m) + j).push(
                        footer_items(*m)[footer_base_len(*m) + j],
                    ));
                }
                j += 1;
            }
        },
        Option::None => {},
    }
    proof {
        assert(views_of(footer_texts@) =~= footer_items(*m));
    }

    if footer_texts.len() > 0 {
        let mut joined = str_to_string(footer_texts[0].as_str());
        let fn_total = footer_texts.len();
        let mut j: usize = 1;
        while j < fn_total
            invariant
                1 <= j <= fn_total,
                fn_total == footer_texts@.len(),
                joined@ == joined_sp(views_of(footer_texts@).subrange(0, j as int)),
            decreases fn_total - j,
        {
            joined.append(" ");
            joined.append(footer_texts[j].as_str());
            proof {
                lemma_joined_snoc(views_of(footer_texts@), j + 1);
            }
            j += 1;
        }
        proof {
            assert(views_of(footer_texts@).subrange(0, fn_total as int) =~= views_of(
                footer_texts@,
            ));
        }
        let wrapped = split_text_with_custom_first(joined.as_str(), rw, rw);
        proof {
            assert(views_of(wrapped@) == footer_rows(*m, width as int));
        }
        let wn = wrapped.len();
        let mut j2: usize = 0;
        while j2 < wn
            invariant
                0 <= j2 <= wn,
                wn == wrapped@.len(),
                rows@.len() == head_len(*m, members@, width as int) + j2,
                message_rows_head_ok(
                    rows@,
                    *m,
                    members@,
                    width as int,
                    head_len(*m, members@, width as int),
                ),
                forall|t: int| 0 <= t < j2 ==> {
                    &&& (#[trigger] rows@[head_len(*m, members@, width as int) + t]).alignment
                        == Alignment::Left
                    &&& rows@[head_len(*m, members@, width as int) + t].spans@.len() == 1
                    &&& rows@[head_len(*m, members@, width as int) + t].spans@[0].text@
                        == footer_rows(*m, width as int)[t]
                    &&& rows@[head_len(*m, members@, width as int) + t].spans@[0].style
                        == gray_style()
                },
        decreases wn - j2,
        {
            rows.push(single_span_line(str_to_string(wrapped[j2].as_str()), gray()));
            j2 += 1;
        }
    } else {
        proof {
            assert(footer_items(*m).len() == 0);
            assert(footer_rows(*m, width as int) =~= Seq::<Seq<char>>::empty());
        }
    }
    proof {
        let parts = msg_parts(*m, members@, width as int);
        let body_rest: int = if parts.len() > 1 {
            parts.len() - 1
        } else {
            0
        };
        let head = head_len(*m, members@, width as int);
        let footer = footer_rows(*m, width as int);
        assert(head == 1 + body_rest);
        assert forall|t: int| 1 + body_rest <= t < rows@.len() implies {
            &&& (#[trigger] rows@[t]).alignment == Alignment::Left
            &&& rows@[t].spans@.len() == 1
            &&& rows@[t].spans@[0].text@ == footer[t - 1 - body_rest]
            &&& rows@[t].spans@[0].style == gray_style()
        } by {
            let k = t - head;
            assert(0 <= k < footer.len());
            assert((rows@[head_len(*m, members@, width as int) + k]).alignment
                == Alignment::Left);
            assert(rows@[head_len(*m, members@, width as int) + k].spans@.len() == 1);
            assert(rows@[head_len(*m, members@, width as int) + k].spans@[0].text@ == footer_rows(
                *m,
                width as int,
            )[k]);
            assert(rows@[head_len(*m, members@, width as int) + k].spans@[0].style
                == gray_style());
        }
    }
    rows
}

/// The number of rows before the footer: the name row and the body rest.
pub open spec fn head_len(m: Message, members: Seq<Member>, w: int) -> int {
    let parts = msg_parts(m, members, w);
    if parts.len() > 1 {
        parts.len() as int
    } else {
        1
    }
}

/// How many footer items come before the reactions.
pub open spec fn footer_base_len(m: Message) -> int {
    match m.reply_count {
        Option::Some(c) => if c > 0 {
            1int
        } else {
            0int
        },
        Option::None => 0int,
    }
}

/// The first `k` rows are the name row and body parts up to `k`.
pub open spec fn message_rows_head_ok(r: Seq<TextLine>, m: Message, members: Seq<Member>, w: int, k: int) -> bool {
    let name = msg_name(m, members);
    let color = msg_color(m, members);
    let parts = msg_parts(m, members, w);
    &&& r.len() >= 1
    &&& r[0].alignment == Alignment::Left
    &&& r[0].spans@.len() == 2
    &&& r[0].spans@[0].text@ == name
    &&& r[0].spans@[0].style == (TextStyle { fg: color, bg: Color::Reset, bold: true })
    &&& r[0].spans@[1].text@ == " "@ + (if parts.len() > 0 {
        parts[0]
    } else {
        Seq::<char>::empty()
    })
    &&& r[0].spans@[1].style == plain_style()
    &&& forall|t: int| 1 <= t < k ==> {
        &&& (#[trigger] r[t]).alignment == Alignment::Left
        &&& r[t].spans@.len() == 1
        &&& r[t].spans@[0].text@ == parts[t]
        &&& r[t].spans@[0].style == plain_style()
    }
}

fn plain() -> (r: TextStyle)
    ensures
        r == plain_style(),
{
    TextStyle { fg: Color::Reset, bg: Color::Reset, bold: false }
}

fn gray() -> (r: TextStyle)
    ensures
        r == gray_style(),
{
    TextStyle { fg: Color::Gray, bg: Color::Reset, bold: false }
}

/// How many rows one message's block holds.
pub open spec fn msg_row_count(m: Message, members: Seq<Member>, w: int) -> int {
    head_len(m, members, w) + footer_rows(m, w).len()
}

/// Whether a date separator stands before message `i`: its label differs
/// from the label last seen.
pub open spec fn sep_present(labels: Seq<Seq<char>>, i: int) -> bool {
    labels[i] != (if i == 0 {
        Seq::<char>::empty()
    } else {
        labels[i - 1]
    })
}

/// Where message `i`'s part of the listing begins, separator included.
pub open spec fn listing_offset(
    msgs: Seq<Message>,
    members: Seq<Member>,
    w: int,
    labels: Seq<Seq<char>>,
    i: int,
) -> int
    decreases i,
{
    if i <= 0 {
        0
    } else {
        listing_offset(msgs, members, w, labels, i - 1) + (if sep_present(labels, i - 1) {
            1int
        } else {
            0
        }) + msg_row_count(msgs[i - 1], members, w)
    }
}

pub open spec fn listing_len(
    msgs: Seq<Message>,
    members: Seq<Member>,
    w: int,
    labels: Seq<Seq<char>>,
) -> int {
    listing_offset(msgs, members, w, labels, msgs.len() as int)
}

/// A date separator row: the label alone, dimmed.
pub open spec fn sep_entry_ok(e: ListEntry, label: Seq<char>) -> bool {
    &&& e.style == plain_style()
    &&& e.line.alignment == Alignment::Left
    &&& e.line.spans@.len() == 1
    &&& e.line.spans@[0].text@ == label
    &&& e.line.spans@[0].style == (TextStyle { fg: Color::DarkGray, bg: Color::Reset, bold: false })
}

/// Message `i` stands correctly in the listing: its separator where the
/// label changes, then exactly its rows, plainly styled.
pub open spec fn listing_item_ok(
    entries: Seq<ListEntry>,
    msgs: Seq<Message>,
    members: Seq<Member>,
    w: int,
    labels: Seq<Seq<char>>,
    i: int,
) -> bool {
    let off = listing_offset(msgs, members, w, labels, i);
    let sep = sep_present(labels, i);
    let base = off + (if sep {
        1int
    } else {
        0
    });
    let cnt = msg_row_count(msgs[i], members, w);
    &&& (sep ==> sep_entry_ok(entries[off], labels[i]))
    &&& message_rows_ok(
        Seq::new(cnt as nat, |k: int| entries[base + k].line),
        msgs[i],
        members,
        w,
    )
    &&& (forall|t: int| base <= t < base + cnt ==> (#[trigger] entries[t]).style == plain_style())
}

pub open spec fn listing_built_upto(
    entries: Seq<ListEntry>,
    msgs: Seq<Message>,
    members: Seq<Member>,
    w: int,
    labels: Seq<Seq<char>>,
    upto: int,
) -> bool {
    forall|i: int|
        0 <= i < upto ==> #[trigger] listing_item_ok(entries, msgs, members, w, labels, i)
}

/// The whole listing the date labels describe: a separator wherever the
/// label changes, then each message's rows in order.
pub open spec fn listing_built(
    entries: Seq<ListEntry>,
    msgs: Seq<Message>,
    members: Seq<Member>,
    w: int,
    labels: Seq<Seq<char>>,
) -> bool {
    &&& entries.len() == listing_len(msgs, members, w, labels)
    &&& listing_built_upto(entries, msgs, members, w, labels, msgs.len() as int)
}

/// Every message's block holds at least its name row, so offsets climb.
proof fn lemma_listing_offset_mono(
    msgs: Seq<Message>,
    members: Seq<Member>,
    w: int,
    labels: Seq<Seq<char>>,
    i: int,
    j: int,
)
    requires
        0 <= i <= j,
    ensures
        listing_offset(msgs, members, w, labels, i) <= listing_offset(msgs, members, w, labels, j),
    decreases j,
{
    if j > i {
        lemma_listing_offset_mono(msgs, members, w, labels, i, j - 1);
    }
}

/// An established item stays established as the listing grows past it.
proof fn lemma_item_ok_extend(
    e1: Seq<ListEntry>,
    e2: Seq<ListEntry>,
    msgs: Seq<Message>,
    members: Seq<Member>,
    w: int,
    labels: Seq<Seq<char>>,
    i: int,
)
    requires
        listing_item_ok(e1, msgs, members, w, labels, i),
        0 <= i < msgs.len(),
        listing_offset(msgs, members, w, labels, i + 1) <= e1.len(),
        e1.len() <= e2.len(),
        forall|t: int| 0 <= t < e1.len() ==> #[trigger] e2[t] == e1[t],
    ensures
        listing_item_ok(e2, msgs, members, w, labels, i),
{
    let off = listing_offset(msgs, members, w, labels, i);
    let sep = sep_present(labels, i);
    let base = off + (if sep {
        1int
    } else {
        0
    });
    let cnt = msg_row_count(msgs[i], members, w);
    lemma_listing_offset_mono(msgs, members, w, labels, 0, i);
    assert(listing_offset(msgs, members, w, labels, i + 1) == base + cnt);
    if sep {
        assert(0 <= off < e1.len());
        assert(e2[off] == e1[off]);
    }
    assert forall|k: int| 0 <= k < cnt implies #[trigger] e2[base + k] == e1[base + k] by {
        assert(0 <= base + k < e1.len());
    }
    assert(Seq::new(cnt as nat, |k: int| e2[base + k].line) =~= Seq::new(
        cnt as nat,
        |k: int| e1[base + k].line,
    ));
}

/// Rows with the same contents satisfy the same row description.
proof fn lemma_rows_ok_transport(
    r1: Seq<TextLine>,
    r2: Seq<TextLine>,
    m: Message,
    members: Seq<Member>,
    w: int,
)
    requires
        message_rows_ok(r1, m, members, w),
        r2.len() == r1.len(),
        forall|k: int| 0 <= k < r1.len() ==> line_equal(#[trigger] r2[k], r1[k]),
    ensures
        message_rows_ok(r2, m, members, w),
{
    let parts = msg_parts(m, members, w);
    let body_rest: int = if parts.len() > 1 {
        parts.len() - 1
    } else {
        0
    };
    let footer = footer_rows(m, w);
    assert(line_equal(r2[0], r1[0]));
    assert(spans_equal(r2[0].spans@, r1[0].spans@));
    assert(span_equal(r2[0].spans@[0], r1[0].spans@[0]));
    assert(span_equal(r2[0].spans@[1], r1[0].spans@[1]));
    assert forall|t: int| 1 <= t < 1 + body_rest implies {
        &&& (#[trigger] r2[t]).alignment == Alignment::Left
        &&& r2[t].spans@.len() == 1
        &&& r2[t].spans@[0].text@ == parts[t]
        &&& r2[t].spans@[0].style == plain_style()
    } by {
        assert((#[trigger] r1[t]).spans@.len() == 1);
        assert(line_equal(r2[t], r1[t]));
        assert(spans_equal(r2[t].spans@, r1[t].spans@));
        assert(span_equal(r2[t].spans@[0], r1[t].spans@[0]));
    }
    assert forall|t: int| 1 + body_rest <= t < r2.len() implies {
        &&& (#[trigger] r2[t]).alignment == Alignment::Left
        &&& r2[t].spans@.len() == 1
        &&& r2[t].spans@[0].text@ == footer[t - 1 - body_rest]
        &&& r2[t].spans@[0].style == gray_style()
    } by {
        assert(r1.len() == 1 + body_rest + footer.len());
        assert((#[trigger] r1[t]).spans@.len() == 1);
        assert(line_equal(r2[t], r1[t]));
        assert(spans_equal(r2[t].spans@, r1[t].spans@));
        assert(span_equal(r2[t].spans@[0], r1[t].spans@[0]));
    }
}

/// The memoisation key of one message's block within a listing.
pub open spec fn listing_key(prefix: Seq<char>, title: Seq<char>, ts: u64) -> Seq<char> {
    prefix + title + "."@ + dec_digits(ts as nat)
}

/// A listing key carries its listing's prefix.
pub proof fn lemma_listing_key_prefix(prefix: Seq<char>, title: Seq<char>, ts: u64)
    ensures
        starts_with(listing_key(prefix, title, ts), prefix),
{
    assert(listing_key(prefix, title, ts).subrange(0, prefix.len() as int) =~= prefix);
}

/// Within one listing, a key names its message's moment uniquely.
proof fn lemma_listing_key_inj(prefix: Seq<char>, title: Seq<char>, t1: u64, t2: u64)
    requires
        listing_key(prefix, title, t1) == listing_key(prefix, title, t2),
    ensures
        t1 == t2,
{
    let h = (prefix + title + "."@).len() as int;
    let k1 = listing_key(prefix, title, t1);
    let k2 = listing_key(prefix, title, t2);
    assert(dec_digits(t1 as nat) =~= k1.subrange(h, k1.len() as int));
    assert(dec_digits(t2 as nat) =~= k2.subrange(h, k2.len() as int));
    lemma_dec_digits_injective(t1 as nat, t2 as nat);
}

/// A stored block: all lines, exactly the message's rows.
pub open spec fn widgets_are_rows(ws: Seq<Widgets>, m: Message, members: Seq<Member>, w: int) -> bool {
    &&& ws.len() == msg_row_count(m, members, w)
    &&& (forall|k: int| 0 <= k < ws.len() ==> (#[trigger] ws[k]) is Line)
    &&& message_rows_ok(Seq::new(ws.len(), |k: int| ws[k]->Line_0), m, members, w)
}

/// Every cached block of this listing agrees with what the listing would
/// compute for its message now.
pub open spec fn listing_cache_ok(
    entries: Seq<(String, Vec<Widgets>)>,
    msgs: Seq<Message>,
    members: Seq<Member>,
    title: Seq<char>,
    prefix: Seq<char>,
    w: int,
) -> bool {
    forall|i: int|
        0 <= i < msgs.len() ==> match lookup(
            entries,
            listing_key(prefix, title, (#[trigger] msgs[i]).ts),
        ) {
            Option::None => true,
            Option::Some(ws) => widgets_are_rows(ws@, msgs[i], members, w),
        }
}

/// Messages with pairwise distinct moments, so each owns its key.
pub open spec fn distinct_ts(msgs: Seq<Message>) -> bool {
    forall|i: int, j: int|
        0 <= i < j < msgs.len() ==> (#[trigger] msgs[i]).ts != (#[trigger] msgs[j]).ts
}

/// After memoising the block of message `ci`, every cached block of the
/// listing still agrees with it.
proof fn lemma_listing_cache_still_ok(
    pre: Seq<(String, Vec<Widgets>)>,
    post: Seq<(String, Vec<Widgets>)>,
    msgs: Seq<Message>,
    members: Seq<Member>,
    title: Seq<char>,
    prefix: Seq<char>,
    w: int,
    ci: int,
)
    requires
        distinct_ts(msgs),
        0 <= ci < msgs.len(),
        listing_cache_ok(pre, msgs, members, title, prefix, w),
        match lookup(post, listing_key(prefix, title, msgs[ci].ts)) {
            Option::Some(ws) => widgets_are_rows(ws@, msgs[ci], members, w),
            Option::None => false,
        },
        forall|k: Seq<char>|
            k != listing_key(prefix, title, msgs[ci].ts) ==> #[trigger] lookup(post, k) == lookup(
                pre,
                k,
            ),
    ensures
        listing_cache_ok(post, msgs, members, title, prefix, w),
{
    assert forall|j: int|
        0 <= j < msgs.len() implies match lookup(
        post,
        listing_key(prefix, title, (#[trigger] msgs[j]).ts),
    ) {
        Option::None => true,
        Option::Some(ws) => widgets_are_rows(ws@, msgs[j], members, w),
    } by {
        let kj = listing_key(prefix, title, msgs[j].ts);
        if kj == listing_key(prefix, title, msgs[ci].ts) {
            lemma_listing_key_inj(prefix, title, msgs[j].ts, msgs[ci].ts);
            if j != ci {
                if j < ci {
                    assert(msgs[j].ts != msgs[ci].ts);
                } else {
                    assert(msgs[ci].ts != msgs[j].ts);
                }
            }
            assert(j == ci);
        } else {
            assert(lookup(post, kj) == lookup(pre, kj));
        }
    }
}

/// The date label over each message: its day in the machine's local time
/// zone, or nothing where the moment cannot be written out; and no labels
/// at all for a listing without separators.
fn date_labels(msgs: &Vec<Message>, with_dates: bool) -> (r: Vec<String>)
    ensures
        r@.len() == msgs@.len(),
        !with_dates ==> forall|i: int|
            0 <= i < r@.len() ==> (#[trigger] r@[i])@ == Seq::<char>::empty(),
{
    let mut r: Vec<String> = Vec::new();
    let n = msgs.len();
    let mut i: usize = 0;
    while i < n
        invariant
            0 <= i <= n,
            n == msgs@.len(),
            r@.len() == i,
            !with_dates ==> forall|j: int|
                0 <= j < r@.len() ==> (#[trigger] r@[j])@ == Seq::<char>::empty(),
        decreases n - i,
    {
        if with_dates {
            match date_format(msgs[i].ts, "%A, %B %d") {
                Option::Some(d) => r.push(d),
                Option::None => r.push(String::new()),
            }
        } else {
            r.push(String::new());
        }
        i += 1;
    }
    r
}

fn lines_of_widgets(ws: &Vec<Widgets>) -> (r: Option<Vec<TextLine>>)
    ensures
        (forall|k: int| 0 <= k < ws@.len() ==> (#[trigger] ws@[k]) is Line) ==> r is Some,
        match r {
            Option::Some(ls) => ls@.len() == ws@.len() && forall|k: int|
                0 <= k < ws@.len() ==> (#[trigger] ws@[k]) is Line && line_equal(
                    ls@[k],
                    ws@[k]->Line_0,
                ),
            Option::None => true,
        },
{
    let mut lines: Vec<TextLine> = Vec::new();
    let n = ws.len();
    let mut i: usize = 0;
    while i < n
        invariant
            0 <= i <= n,
            n == ws@.len(),
            lines@.len() == i,
            forall|k: int|
                0 <= k < i ==> (#[trigger] ws@[k]) is Line && line_equal(
                    lines@[k],
                    ws@[k]->Line_0,
                ),
        decreases n - i,
    {
        match &ws[i] {
            Widgets::Line(l) => lines.push(l.clone()),
            _ => {
                return Option::None;
            },
        }
        i += 1;
    }
    Option::Some(lines)
}

fn widgets_of_lines(ls: &Vec<TextLine>) -> (r: Vec<Widgets>)
    ensures
        r@.len() == ls@.len(),
        forall|k: int|
            0 <= k < r@.len() ==> (#[trigger] r@[k]) is Line && line_equal(
                r@[k]->Line_0,
                ls@[k],
            ),
{
    let mut ws: Vec<Widgets> = Vec::new();
    let n = ls.len();
    let mut i: usize = 0;
    while i < n
        invariant
            0 <= i <= n,
            n == ls@.len(),
            ws@.len() == i,
            forall|k: int|
                0 <= k < i ==> (#[trigger] ws@[k]) is Line && line_equal(
                    ws@[k]->Line_0,
                    ls@[k],
                ),
        decreases n - i,
    {
        ws.push(Widgets::Line(ls[i].clone()));
        i += 1;
    }
    ws
}

/// One listing's rows: a separator wherever the date label changes, then
/// each message's rows, taken from the memo under
/// `<prefix><title>.<moment>` or built afresh and memoised there.
///
/// Whenever the memo agrees with the listing and moments are distinct —
/// always so for a fresh cache over a merged history — the result is
/// exactly the listing the labels describe.
#[verifier::loop_isolation(false)]
#[verifier::rlimit(100)]
pub fn build_listing(
    msgs: &Vec<Message>,
    members: &Vec<Member>,
    prefix: &str,
    title: &str,
    width: usize,
    labels: &Vec<String>,
    cache: &mut Cache,
) -> (r: Vec<ListEntry>)
    requires
        labels@.len() == msgs@.len(),
    ensures
        final(cache).widget == old(cache).widget,
        forall|k: Seq<char>|
            !starts_with(k, prefix@) ==> #[trigger] lookup(final(cache).widgets.entries@, k)
                == lookup(old(cache).widgets.entries@, k),
        (listing_cache_ok(
            old(cache).widgets.entries@,
            msgs@,
            members@,
            title@,
            prefix@,
            width as int,
        ) && distinct_ts(msgs@)) ==> {
            &&& listing_cache_ok(
                final(cache).widgets.entries@,
                msgs@,
                members@,
                title@,
                prefix@,
                width as int,
            )
            &&& listing_built(r@, msgs@, members@, width as int, views_of(labels@))
        },
{
    let ghost lab = views_of(labels@);
    let ghost w = width as int;
    let ghost ok0 = listing_cache_ok(
        old(cache).widgets.entries@,
        msgs@,
        members@,
        title@,
        prefix@,
        w,
    ) && distinct_ts(msgs@);
    let mut entries: Vec<ListEntry> = Vec::new();
    let n = msgs.len();
    let mut i: usize = 0;
    let mut prev = String::new();
    while i < n
        invariant
            0 <= i <= n,
            prev@ == (if i == 0 {
                Seq::<char>::empty()
            } else {
                lab[i as int - 1]
            }),
            cache.widget == old(cache).widget,
            forall|k: Seq<char>|
                !starts_with(k, prefix@) ==> #[trigger] lookup(cache.widgets.entries@, k)
                    == lookup(old(cache).widgets.entries@, k),
            ok0 ==> listing_cache_ok(cache.widgets.entries@, msgs@, members@, title@, prefix@, w),
            ok0 ==> entries@.len() == listing_offset(msgs@, members@, w, lab, i as int),
            ok0 ==> listing_built_upto(entries@, msgs@, members@, w, lab, i as int),
        decreases n - i,
    {
        let ghost entries0 = entries@;
        let m = &msgs[i];
        let sep = !str_eq(labels[i].as_str(), prev.as_str());
        proof {
            assert(sep == sep_present(lab, i as int));
        }
        if sep {
            let line = single_span_line(
                str_to_string(labels[i].as_str()),
                TextStyle { fg: Color::DarkGray, bg: Color::Reset, bold: false },
            );
            entries.push(ListEntry { line, style: plain() });
        }
        let ghost pre2 = entries@;
        let ghost base = pre2.len() as int;
        let mut key = str_to_string(prefix);
        key.append(title);
        key.append(".");
        key.append(u64_to_dec(m.ts).as_str());
        proof {
            assert(key@ == listing_key(prefix@, title@, m.ts));
        }
        let rows: Vec<TextLine> = match cache.widgets.get(key.as_str()) {
            Option::Some(ws) => {
                match lines_of_widgets(ws) {
                    Option::Some(ls) => {
                        proof {
                            if ok0 {
                                assert(widgets_are_rows(ws@, msgs@[i as int], members@, w));
                                lemma_rows_ok_transport(
                                    Seq::new(ws@.len(), |k: int| ws@[k]->Line_0),
                                    ls@,
                                    msgs@[i as int],
                                    members@,
                                    w,
                                );
                            }
                        }
                        ls
                    },
                    Option::None => {
                        proof {
                            if ok0 {
                                assert(widgets_are_rows(ws@, msgs@[i as int], members@, w));
                                assert(false);
                            }
                        }
                        let fresh = message_rows(m, members, width);
                        let copy = widgets_of_lines(&fresh);
                        cache.widgets.insert(key, copy);
                        proof {
                            lemma_listing_key_prefix(prefix@, title@, m.ts);
                        }
                        fresh
                    },
                }
            },
            Option::None => {
                let fresh = message_rows(m, members, width);
                let copy = widgets_of_lines(&fresh);
                let ghost precache = cache.widgets.entries@;
                let ghost copyv = copy@;
                cache.widgets.insert(key, copy);
                proof {
                    lemma_listing_key_prefix(prefix@, title@, m.ts);
                    if ok0 {
                        lemma_rows_ok_transport(
                            fresh@,
                            Seq::new(copyv.len(), |k: int| copyv[k]->Line_0),
                            msgs@[i as int],
                            members@,
                            w,
                        );
                        assert(widgets_are_rows(copyv, msgs@[i as int], members@, w));
                        lemma_listing_cache_still_ok(
                            precache,
                            cache.widgets.entries@,
                            msgs@,
                            members@,
                            title@,
                            prefix@,
                            w,
                            i as int,
                        );
                    }
                }
                fresh
            },
        };
        proof {
            if ok0 {
                assert(message_rows_ok(rows@, msgs@[i as int], members@, w));
            }
        }
        let ghost rowsv = rows@;
        let mut rows = rows;
        while rows.len() > 0
            invariant
                rows@.len() <= rowsv.len(),
                rows@ =~= rowsv.subrange(
                    rowsv.len() - rows@.len(),
                    rowsv.len() as int,
                ),
                entries@.len() == base + (rowsv.len() - rows@.len()),
                forall|t: int| 0 <= t < base ==> #[trigger] entries@[t] == pre2[t],
                forall|k: int|
                    0 <= k < rowsv.len() - rows@.len() ==> (#[trigger] entries@[base + k]).line
                        == rowsv[k] && entries@[base + k].style == plain_style(),
            decreases rows@.len(),
        {
            proof {
                assert(rows@[0] == rowsv[rowsv.len() - rows@.len()]);
                assert(rows@.remove(0) =~= rowsv.subrange(
                    rowsv.len() - rows@.len() + 1,
                    rowsv.len() as int,
                ));
            }
            let ln = rows.remove(0);
            entries.push(ListEntry { line: ln, style: plain() });
        }
        proof {
            if ok0 {
                let off = listing_offset(msgs@, members@, w, lab, i as int);
                let cnt = msg_row_count(msgs@[i as int], members@, w);
                assert(rowsv.len() == cnt);
                assert(entries0.len() == off);
                assert(base == off + (if sep_present(lab, i as int) {
                    1int
                } else {
                    0
                }));
                if sep_present(lab, i as int) {
                    assert(entries@[off] == pre2[off]);
                    assert(sep_entry_ok(entries@[off], lab[i as int]));
                }
                assert(Seq::new(cnt as nat, |k: int| entries@[base + k].line) =~= rowsv);
                assert forall|t: int|
                    base <= t < base + cnt implies (#[trigger] entries@[t]).style
                    == plain_style() by {
                    let k = t - base;
                    assert((entries@[base + k]).style == plain_style());
                }
                assert(listing_item_ok(entries@, msgs@, members@, w, lab, i as int));
                assert(listing_offset(msgs@, members@, w, lab, i + 1) == base + cnt);
                assert(entries@.len() == listing_offset(msgs@, members@, w, lab, i + 1));
                assert forall|j: int|
                    0 <= j < i + 1 implies #[trigger] listing_item_ok(
                    entries@,
                    msgs@,
                    members@,
                    w,
                    lab,
                    j,
                ) by {
                    if j < i {
                        lemma_listing_offset_mono(msgs@, members@, w, lab, j + 1, i as int);
                        lemma_item_ok_extend(entries0, entries@, msgs@, members@, w, lab, j);
                    }
                }
            }
        }
        prev = str_to_string(labels[i].as_str());
        i += 1;
    }
    proof {
        if ok0 {
            assert(listing_built(entries@, msgs@, members@, w, lab));
        }
    }
    entries
}

/// The last rows that fit.
fn tail_window(entries: Vec<ListEntry>, fit: usize) -> (r: Vec<ListEntry>)
    ensures
        r@ == (if entries@.len() > fit {
            entries@.subrange(entries@.len() - fit, entries@.len() as int)
        } else {
            entries@
        }),
{
    let ghost orig = entries@;
    let mut v = entries;
    proof {
        assert(v@ =~= orig.subrange(orig.len() - v@.len(), orig.len() as int));
    }
    while v.len() > fit
        invariant
            v@.len() <= orig.len(),
            v@ =~= orig.subrange(orig.len() - v@.len(), orig.len() as int),
            orig.len() > fit ==> v@.len() >= fit,
            orig.len() <= fit ==> v@.len() == orig.len(),
        decreases v@.len(),
    {
        proof {
            assert(v@.remove(0) =~= orig.subrange(
                orig.len() - v@.len() + 1,
                orig.len() as int,
            ));
        }
        let _ = v.remove(0);
    }
    proof {
        if orig.len() > fit {
            assert(v@.len() == fit);
        } else {
            assert(v@.len() == orig.len());
            assert(v@ =~= orig);
        }
    }
    v
}

/// The title the opened conversation's history is memoised under.
pub open spec fn mtitle(c: Context) -> Seq<char> {
    match c.state.channel.opened {
        Option::Some(ch) => crate::presentation::widgets::channels::channel_label(ch),
        Option::None => Seq::<char>::empty(),
    }
}

/// The items are the listing's tail: the last rows that fit.
pub open spec fn listing_window(items: Seq<ListEntry>, full: Seq<ListEntry>, fit: int) -> bool {
    items == (if full.len() > fit {
        full.subrange(full.len() - fit, full.len() as int)
    } else {
        full
    })
}

/// Everything one message-section build yields: the fragment shell, and —
/// whenever the memo agreed with the listing and moments are distinct —
/// the rows themselves: for some date labels (they come from the machine's
/// local time zone), the listing those labels describe, scrolled to its
/// tail.
pub open spec fn messages_render_post(
    r: Seq<WidgetData>,
    c: Context,
    chunk: Rect,
    pre: Seq<(String, Vec<Widgets>)>,
) -> bool {
    let msgs = c.state.message.messages@;
    let members = c.state.global.members@;
    let w = chunk.width as int;
    &&& r.len() == 1
    &&& r[0].rect == chunk
    &&& match r[0].widget {
        Widgets::List(l) => {
            &&& l.style == plain_style()
            &&& (match l.block {
                Option::Some(b) => section_block(
                    c.state.global.section == Section::Message,
                    c.mode,
                    b,
                ),
                Option::None => false,
            })
            &&& ((listing_cache_ok(pre, msgs, members, mtitle(c), "history."@, w)
                && distinct_ts(msgs)) ==> exists|labels: Seq<Seq<char>>, full: Seq<ListEntry>|
                {
                    &&& labels.len() == msgs.len()
                    &&& #[trigger] listing_built(full, msgs, members, w, labels)
                    &&& listing_window(l.items@, full, chunk.height - 2)
                })
        },
        _ => false,
    }
}

/// Lay out the message section: the opened channel's history as memoised
/// message blocks under date separators, scrolled to the tail, inside the
/// section border.
#[verifier::rlimit(100)]
pub fn render(chunk: Rect, _config: &Configuration, context: &Context, cache: &mut Cache) -> (r:
    Vec<WidgetData>)
    requires
        chunk.height >= 2,
    ensures
        final(cache).widget == old(cache).widget,
        forall|k: Seq<char>|
            !starts_with(k, "history."@) ==> #[trigger] lookup(final(cache).widgets.entries@, k)
                == lookup(old(cache).widgets.entries@, k),
        (listing_cache_ok(
            old(cache).widgets.entries@,
            context.state.message.messages@,
            context.state.global.members@,
            mtitle(*context),
            "history."@,
            chunk.width as int,
        ) && distinct_ts(context.state.message.messages@)) ==> listing_cache_ok(
            final(cache).widgets.entries@,
            context.state.message.messages@,
            context.state.global.members@,
            mtitle(*context),
            "history."@,
            chunk.width as int,
        ),
        messages_render_post(r@, *context, chunk, old(cache).widgets.entries@),
{
    let title: String = match &context.state.channel.opened {
        Option::Some(ch) => match &ch.name {
            Option::Some(nm) => str_to_string(nm.as_str()),
            Option::None => str_to_string(ch.id.as_str()),
        },
        Option::None => String::new(),
    };
    proof {
        assert(title@ == mtitle(*context));
    }
    let msgs = &context.state.message.messages;
    let labels = date_labels(msgs, true);
    let full = build_listing(
        msgs,
        &context.state.global.members,
        "history.",
        title.as_str(),
        chunk.width as usize,
        &labels,
        cache,
    );
    let ghost fullv = full@;
    let ghost lab = views_of(labels@);
    let items = tail_window(full, (chunk.height - 2) as usize);
    let block = crate::presentation::widgets::block::build(
        context.state.global.section == Section::Message,
        &context.mode,
    );
    let ghost itemsv = items@;
    let mut out: Vec<WidgetData> = Vec::new();
    out.push(
        WidgetData {
            rect: chunk,
            widget: Widgets::List(
                ListData { items, block: Option::Some(block), style: plain() },
            ),
        },
    );
    proof {
        let msgsv = context.state.message.messages@;
        let members = context.state.global.members@;
        let w = chunk.width as int;
        if listing_cache_ok(
            old(cache).widgets.entries@,
            msgsv,
            members,
            mtitle(*context),
            "history."@,
            w,
        ) && distinct_ts(msgsv) {
            assert(listing_built(fullv, msgsv, members, w, lab));
            assert(listing_window(itemsv, fullv, chunk.height - 2));
        }
    }
    out
}

/// The title the opened thread's replies are memoised under: the parent's
/// moment.
pub open spec fn thread_title(c: Context) -> Seq<char> {
    dec_digits(
        (match c.state.message.opened {
            Option::Some(m) => m.ts,
            Option::None => 0,
        }) as nat,
    )
}

/// A listing with no date labels at all.
pub open spec fn no_labels(n: nat) -> Seq<Seq<char>> {
    Seq::new(n, |i: int| Seq::<char>::empty())
}

/// The width thread rows are cut to.
pub open spec fn thread_text_width(chunk: Rect) -> int {
    if chunk.width >= 2 {
        chunk.width - 2
    } else {
        0
    }
}

/// Everything one thread-section build yields: the titled shell, and —
/// whenever the memo agreed with the listing and moments are distinct —
/// exactly the replies' rows, a pure function of the replies, members and
/// width, scrolled to the tail.
pub open spec fn thread_render_post(
    r: Seq<WidgetData>,
    c: Context,
    chunk: Rect,
    pre: Seq<(String, Vec<Widgets>)>,
) -> bool {
    let msgs = c.state.thread.messages@;
    let members = c.state.global.members@;
    let w = thread_text_width(chunk);
    &&& r.len() == 1
    &&& r[0].rect == chunk
    &&& match r[0].widget {
        Widgets::List(l) => {
            &&& l.style == plain_style()
            &&& (match l.block {
                Option::Some(b) => {
                    &&& (match b.title {
                        Option::Some(t) => t@ == "Thread"@,
                        Option::None => false,
                    })
                    &&& b.borders == true
                    &&& b.rounded == true
                    &&& b.border_style == crate::presentation::widgets::block::section_border_style(
                        c.state.global.section == Section::Thread,
                        c.mode,
                    )
                },
                Option::None => false,
            })
            &&& ((listing_cache_ok(pre, msgs, members, thread_title(c), "thread."@, w)
                && distinct_ts(msgs)) ==> exists|full: Seq<ListEntry>|
                {
                    &&& #[trigger] listing_built(full, msgs, members, w, no_labels(msgs.len()))
                    &&& listing_window(l.items@, full, chunk.height - 2)
                })
        },
        _ => false,
    }
}

/// Lay out the thread section: the opened message's replies as memoised
/// blocks, inside the section border under a thread title.
#[verifier::rlimit(100)]
pub fn render_thread(chunk: Rect, _config: &Configuration, context: &Context, cache: &mut Cache) -> (r: Vec<WidgetData>)
    requires
        chunk.height >= 2,
    ensures
        final(cache).widget == old(cache).widget,
        forall|k: Seq<char>|
            !starts_with(k, "thread."@) ==> #[trigger] lookup(final(cache).widgets.entries@, k)
                == lookup(old(cache).widgets.entries@, k),
        thread_render_post(r@, *context, chunk, old(cache).widgets.entries@),
{
    let parent: u64 = match &context.state.message.opened {
        Option::Some(m) => m.ts,
        Option::None => 0,
    };
    let title = u64_to_dec(parent);
    proof {
        assert(title@ == thread_title(*context));
    }
    let width: usize = if chunk.width >= 2 {
        (chunk.width - 2) as usize
    } else {
        0
    };
    let msgs = &context.state.thread.messages;
    let labels = date_labels(msgs, false);
    let full = build_listing(
        msgs,
        &context.state.global.members,
        "thread.",
        title.as_str(),
        width,
        &labels,
        cache,
    );
    let ghost fullv = full@;
    let ghost lab = views_of(labels@);
    let items = tail_window(full, (chunk.height - 2) as usize);
    let ghost itemsv = items@;
    let mut block = crate::presentation::widgets::block::build(
        context.state.global.section == Section::Thread,
        &context.mode,
    );
    block.title = Option::Some(str_to_string("Thread"));
    let mut out: Vec<WidgetData> = Vec::new();
    out.push(
        WidgetData {
            rect: chunk,
            widget: Widgets::List(
                ListData { items, block: Option::Some(block), style: plain() },
            ),
        },
    );
    proof {
        let msgsv = context.state.thread.messages@;
        let members = context.state.global.members@;
        let w = thread_text_width(chunk);
        if listing_cache_ok(
            old(cache).widgets.entries@,
            msgsv,
            members,
            thread_title(*context),
            "thread."@,
            w,
        ) && distinct_ts(msgsv) {
            assert(lab =~= no_labels(msgsv.len()));
            assert(listing_built(fullv, msgsv, members, w, no_labels(msgsv.len())));
            assert(listing_window(itemsv, fullv, chunk.height - 2));
        }
    }
    out
}

/// A listing agreement over one prefix survives changes to other keys.
pub proof fn lemma_listing_cache_ok_transfer(
    pre: Seq<(String, Vec<Widgets>)>,
    mid: Seq<(String, Vec<Widgets>)>,
    msgs: Seq<Message>,
    members: Seq<Member>,
    title: Seq<char>,
    own: Seq<char>,
    other: Seq<char>,
    w: int,
)
    requires
        listing_cache_ok(pre, msgs, members, title, own, w),
        forall|k: Seq<char>| !starts_with(k, other) ==> #[trigger] lookup(mid, k) == lookup(pre, k),
        own.len() > 0,
        other.len() > 0,
        own[0] != other[0],
    ensures
        listing_cache_ok(mid, msgs, members, title, own, w),
{
    assert forall|i: int|
        0 <= i < msgs.len() implies match lookup(
        mid,
        listing_key(own, title, (#[trigger] msgs[i]).ts),
    ) {
        Option::None => true,
        Option::Some(ws) => widgets_are_rows(ws@, msgs[i], members, w),
    } by {
        let kj = listing_key(own, title, msgs[i].ts);
        lemma_listing_key_prefix(own, title, msgs[i].ts);
        assert(kj.subrange(0, own.len() as int) =~= own);
        assert(kj[0] == own[0]);
        if starts_with(kj, other) {
            assert(kj.subrange(0, other.len() as int) =~= other);
            assert(kj[0] == other[0]);
        }
        assert(!starts_with(kj, other));
        assert(lookup(mid, kj) == lookup(pre, kj));
    }
}

/// Joining one more item appends a space and the item.
proof fn lemma_joined_snoc(items: Seq<Seq<char>>, k: int)
    requires
        2 <= k <= items.len(),
    ensures
        joined_sp(items.subrange(0, k)) == joined_sp(items.subrange(0, k - 1)) + " "@ + items[k
            - 1],
    decreases k,
{
    if k == 2 {
        assert(items.subrange(0, 2).drop_first() =~= seq![items[1]]);
        assert(items.subrange(0, 2).first() == items[0]);
        assert(items.subrange(0, 1) =~= seq![items[0]]);
        assert(joined_sp(seq![items[1]]) == items[1]);
        assert(joined_sp(items.subrange(0, 1)) == items[0]);
    } else {
        lemma_joined_snoc(items.drop_first(), k - 1);
        assert(items.drop_first().subrange(0, k - 1) =~= items.subrange(1, k));
        assert(items.drop_first().subrange(0, k - 2) =~= items.subrange(1, k - 1));
        assert(items.drop_first()[k - 2] == items[k - 1]);
        assert(items.subrange(0, k).first() == items[0]);
        assert(items.subrange(0, k).drop_first() =~= items.subrange(1, k));
        assert(items.subrange(0, k - 1).first() == items[0]);
        assert(items.subrange(0, k - 1).drop_first() =~= items.subrange(1, k - 1));
        assert(items.subrange(0, k).len() >= 2);
        assert(joined_sp(items.subrange(0, k)) == items[0] + " "@ + joined_sp(items.subrange(1, k)));
        assert(joined_sp(items.subrange(0, k - 1)) == (if items.subrange(0, k - 1).len() == 1 {
            items[0]
        } else {
            items[0] + " "@ + joined_sp(items.subrange(1, k - 1))
        }));
        if k - 1 == 1 {
            assert(items.subrange(1, k - 1) =~= Seq::<Seq<char>>::empty());
            assert(items.subrange(1, k) =~= seq![items[1]]);
            assert(joined_sp(items.subrange(1, k)) == items[1]);
        } else {
            assert(joined_sp(items.subrange(1, k)) == joined_sp(items.subrange(1, k - 1)) + " "@
                + items[k - 1]);
        }
    }
}

} // verus!
