//! The composer section: the typed message wrapped to the section's width,
//! scrolled to its tail, or a placeholder naming the opened conversation.

use vstd::prelude::*;

use crate::context::Context;
use crate::entities::configuration::Configuration;
use crate::enums::section::Section;
use crate::enums::widgets::{ListData, ListEntry, WidgetData, Widgets};
use crate::presentation::widgets::block::section_block;
use crate::presentation::widgets::channel::channel_icon;
use crate::presentation::widgets::channels::channel_label;
use crate::strutil::{split_by, split_on, str_to_string};
use crate::style::{plain_style, Alignment, Color, Rect, TextLine, TextSpan, TextStyle};
use crate::utils::string::{split_text_spec, split_text_with_custom_first, views_of};

verus! {

/// The text the composer shows: the buffer, or a placeholder for the
/// opened conversation.
pub open spec fn input_display_text(c: Context) -> Seq<char> {
    if c.state.input.value@.len() > 0 {
        c.state.input.value@
    } else {
        match c.state.channel.opened {
            Option::Some(ch) => "Message "@ + channel_icon(ch) + " "@ + channel_label(ch),
            Option::None => "Select channel and start mesaging :D"@,
        }
    }
}

/// The composer text's style: dimmed while it is only a placeholder.
pub open spec fn input_text_style(c: Context) -> TextStyle {
    if c.state.input.value@.len() > 0 {
        plain_style()
    } else {
        TextStyle { fg: Color::DarkGray, bg: Color::Reset, bold: false }
    }
}

/// Each newline-separated part wrapped to the width, in order.
pub open spec fn wrap_parts(parts: Seq<Seq<char>>, w: int) -> Seq<Seq<char>>
    decreases parts.len(),
{
    if parts.len() == 0 {
        Seq::empty()
    } else {
        split_text_spec(parts.first(), w, w) + wrap_parts(parts.drop_first(), w)
    }
}

/// What the composer section shows: the wrapped rows that fit, ending with
/// the last row, inside the section border.
pub open spec fn input_section_built(r: Seq<WidgetData>, c: Context, chunk: Rect) -> bool {
    let text = input_display_text(c);
    let style = input_text_style(c);
    let rows = wrap_parts(split_by(text, '\n'), chunk.width - 2);
    let skip: int = if rows.len() > chunk.height - 2 {
        rows.len() - (chunk.height - 2)
    } else {
        0
    };
    &&& r.len() == 1
    &&& r[0].rect == chunk
    &&& (match r[0].widget {
        Widgets::List(l) => {
            &&& l.style == style
            &&& (match l.block {
                Option::Some(b) => section_block(c.state.global.section == Section::Input, c.mode, b),
                Option::None => false,
            })
            &&& l.items@.len() == rows.len() - skip
            &&& forall|k: int| 0 <= k < l.items@.len() ==> {
                &&& (#[trigger] l.items@[k]).style == style
                &&& l.items@[k].line.alignment == Alignment::Left
                &&& l.items@[k].line.spans@.len() == 1
                &&& l.items@[k].line.spans@[0].text@ == rows[skip + k]
                &&& l.items@[k].line.spans@[0].style == plain_style()
            }
        },
        _ => false,
    })
}

/// Lay out the composer section.
#[verifier::loop_isolation(false)]
pub fn render(chunk: Rect, _config: &Configuration, context: &Context) -> (r: Vec<WidgetData>)
    requires
        chunk.width >= 3,
        chunk.height >= 2,
    ensures
        input_section_built(r@, *context, chunk),
{
    let text: String = if context.state.input.value.as_str().unicode_len() > 0 {
        str_to_string(context.state.input.value.as_str())
    } else {
        match &context.state.channel.opened {
            Option::Some(ch) => {
                let mpim = match ch.is_mpim {
                    Option::Some(b) => b,
                    Option::None => false,
                };
                let private = match ch.is_private {
                    Option::Some(b) => b,
                    Option::None => false,
                };
                let prefix: &str = if ch.is_im {
                    "\u{eabc}"
                } else if mpim {
                    "\u{f0c0}"
                } else if private {
                    "\u{e672}"
                } else {
                    "\u{f4df}"
                };
                let mut t = str_to_string("Message ");
                t.append(prefix);
                t.append(" ");
                match &ch.name {
                    Option::Some(n) => t.append(n.as_str()),
                    Option::None => t.append(ch.id.as_str()),
                }
                t
            },
            Option::None => str_to_string("Select channel and start mesaging :D"),
        }
    };
    let style = if context.state.input.value.as_str().unicode_len() > 0 {
        TextStyle::plain()
    } else {
        TextStyle { fg: Color::DarkGray, bg: Color::Reset, bold: false }
    };

    let width: usize = (chunk.width - 2) as usize;
    let parts = split_on(text.as_str(), '\n');
    let ghost pviews = views_of(parts@);
    let mut rows: Vec<String> = Vec::new();
    let mut i: usize = 0;
    while i < parts.len()
        invariant
            0 <= i <= parts@.len(),
            views_of(rows@) =~= wrap_parts(pviews.subrange(0, i as int), chunk.width - 2),
        decreases parts@.len() - i,
    {
        let mut wrapped = split_text_with_custom_first(parts[i].as_str(), width, width);
        proof {
            assert(pviews.subrange(0, i + 1).drop_last() =~= pviews.subrange(0, i as int));
            lemma_wrap_parts_snoc(pviews.subrange(0, i + 1), chunk.width - 2);
            assert(pviews.subrange(0, i + 1).last() == parts@[i as int]@);
        }
        let ghost before = rows@;
        rows.append(&mut wrapped);
        proof {
            assert(views_of(rows@) =~= wrap_parts(pviews.subrange(0, i + 1), chunk.width - 2));
        }
        i += 1;
    }
    proof {
        assert(pviews.subrange(0, parts@.len() as int) =~= pviews);
    }

    let total = rows.len();
    let fit: usize = (chunk.height - 2) as usize;
    let skip: usize = if total > fit {
        total - fit
    } else {
        0
    };

    let mut items: Vec<ListEntry> = Vec::new();
    let mut k: usize = skip;
    while k < total
        invariant
            skip <= k <= total,
            total == rows@.len(),
            items@.len() == k - skip,
            forall|j: int| 0 <= j < items@.len() ==> {
                &&& (#[trigger] items@[j]).style == input_text_style(*context)
                &&& items@[j].line.alignment == Alignment::Left
                &&& items@[j].line.spans@.len() == 1
                &&& items@[j].line.spans@[0].text@ == rows@[skip + j]@
                &&& items@[j].line.spans@[0].style == plain_style()
            },
        decreases total - k,
    {
        let mut spans: Vec<TextSpan> = Vec::new();
        spans.push(TextSpan::new(str_to_string(rows[k].as_str()), TextStyle::plain()));
        items.push(ListEntry { line: TextLine { spans, alignment: Alignment::Left }, style });
        k += 1;
    }

    let block = crate::presentation::widgets::block::build(
        context.state.global.section == Section::Input,
        &context.mode,
    );
    let mut out: Vec<WidgetData> = Vec::new();
    out.push(
        WidgetData {
            rect: chunk,
            widget: Widgets::List(ListData { items, block: Option::Some(block), style }),
        },
    );
    out
}

/// Two composer sections laid out over the same snapshot and rectangle are
/// bit identical.
pub proof fn lemma_input_build_deterministic(
    r1: Seq<WidgetData>,
    r2: Seq<WidgetData>,
    c: Context,
    chunk: Rect,
)
    requires
        input_section_built(r1, c, chunk),
        input_section_built(r2, c, chunk),
    ensures
        crate::enums::widgets::widget_data_seq_equal(r1, r2),
{
    assert forall|i: int|
        0 <= i < r1.len() implies crate::enums::widgets::widget_data_equal(r1[i], r2[i]) by {
        match (r1[0].widget, r2[0].widget) {
            (Widgets::List(l1), Widgets::List(l2)) => {
                assert forall|k: int|
                    0 <= k < l1.items@.len() implies crate::enums::widgets::entry_equal(
                    l1.items@[k],
                    l2.items@[k],
                ) by {
                    assert(l1.items@[k].line.spans@.len() == 1);
                    assert(crate::style::span_equal(
                        l1.items@[k].line.spans@[0],
                        l2.items@[k].line.spans@[0],
                    ));
                    assert(crate::style::spans_equal(
                        l1.items@[k].line.spans@,
                        l2.items@[k].line.spans@,
                    ));
                }
                assert(crate::enums::widgets::list_equal(l1, l2));
            },
            _ => {},
        }
    }
}

/// Wrapping distributes over adding one more part at the end.
proof fn lemma_wrap_parts_snoc(parts: Seq<Seq<char>>, w: int)
    requires
        parts.len() > 0,
    ensures
        wrap_parts(parts, w) == wrap_parts(parts.drop_last(), w) + split_text_spec(
            parts.last(),
            w,
            w,
        ),
    decreases parts.len(),
{
    if parts.len() == 1 {
        assert(parts.drop_first() =~= Seq::<Seq<char>>::empty());
        assert(parts.drop_last() =~= Seq::<Seq<char>>::empty());
        assert(parts.first() == parts.last());
        assert(wrap_parts(parts, w) == split_text_spec(parts.first(), w, w) + wrap_parts(
            parts.drop_first(),
            w,
        ));
        assert(wrap_parts(parts.drop_first(), w) == Seq::<Seq<char>>::empty());
        assert(split_text_spec(parts.first(), w, w) + Seq::<Seq<char>>::empty() =~= split_text_spec(
            parts.first(),
            w,
            w,
        ));
        assert(wrap_parts(parts.drop_last(), w) + split_text_spec(parts.last(), w, w)
            =~= split_text_spec(parts.last(), w, w));
    } else {
        lemma_wrap_parts_snoc(parts.drop_first(), w);
        assert(parts.drop_first().drop_last() =~= parts.drop_last().drop_first());
        assert(parts.drop_first().last() == parts.last());
        assert(parts.drop_last().first() == parts.first());
        assert(wrap_parts(parts, w) == split_text_spec(parts.first(), w, w) + wrap_parts(
            parts.drop_first(),
            w,
        ));
        assert(wrap_parts(parts.drop_last(), w) == split_text_spec(parts.first(), w, w)
            + wrap_parts(parts.drop_last().drop_first(), w));
        assert(wrap_parts(parts, w) =~= wrap_parts(parts.drop_last(), w) + split_text_spec(
            parts.last(),
            w,
            w,
        ));
    }
}

} // verus!
