//! The drawable fragments a screen build produces. The shell renders each
//! variant with the matching terminal widget; the library only builds and
//! compares them.

use vstd::prelude::*;

use crate::eqv::opt_string_equal;
use crate::eqv::opt_string_eq;
use crate::eqv::opt_string_dup;
use crate::style::{line_eq, line_equal, lines_equal, Rect, TextLine, TextStyle};

verus! {

/// A bordered box, drawn behind a section's contents.
pub struct BlockData {
    pub title: Option<String>,
    pub borders: bool,
    pub rounded: bool,
    pub border_style: TextStyle,
}

/// Rows of text presented as a list.
pub struct ListData {
    pub items: Vec<ListEntry>,
    pub block: Option<BlockData>,
    pub style: TextStyle,
}

/// One row of a list with the style it is drawn in.
pub struct ListEntry {
    pub line: TextLine,
    pub style: TextStyle,
}

/// A paragraph of plain text inside an optional block.
pub struct ParagraphData {
    pub text: String,
    pub block: Option<BlockData>,
}

pub enum Widgets {
    Block(BlockData),
    List(ListData),
    Line(TextLine),
    Paragraph(ParagraphData),
}

/// A fragment bound to the rectangle it is drawn in.
pub struct WidgetData {
    pub rect: Rect,
    pub widget: Widgets,
}

pub open spec fn block_equal(a: BlockData, b: BlockData) -> bool {
    &&& opt_string_equal(a.title, b.title)
    &&& a.borders == b.borders
    &&& a.rounded == b.rounded
    &&& a.border_style == b.border_style
}

pub open spec fn opt_block_equal(a: Option<BlockData>, b: Option<BlockData>) -> bool {
    match (a, b) {
        (Option::None, Option::None) => true,
        (Option::Some(x), Option::Some(y)) => block_equal(x, y),
        _ => false,
    }
}

pub open spec fn entry_equal(a: ListEntry, b: ListEntry) -> bool {
    line_equal(a.line, b.line) && a.style == b.style
}

pub open spec fn entries_equal(a: Seq<ListEntry>, b: Seq<ListEntry>) -> bool {
    a.len() == b.len() && forall|i: int| 0 <= i < a.len() ==> entry_equal(a[i], b[i])
}

pub open spec fn list_equal(a: ListData, b: ListData) -> bool {
    entries_equal(a.items@, b.items@) && opt_block_equal(a.block, b.block) && a.style == b.style
}

pub open spec fn paragraph_equal(a: ParagraphData, b: ParagraphData) -> bool {
    a.text@ == b.text@ && opt_block_equal(a.block, b.block)
}

pub open spec fn widgets_equal(a: Widgets, b: Widgets) -> bool {
    match (a, b) {
        (Widgets::Block(x), Widgets::Block(y)) => block_equal(x, y),
        (Widgets::List(x), Widgets::List(y)) => list_equal(x, y),
        (Widgets::Line(x), Widgets::Line(y)) => line_equal(x, y),
        (Widgets::Paragraph(x), Widgets::Paragraph(y)) => paragraph_equal(x, y),
        _ => false,
    }
}

pub open spec fn widgets_seq_equal(a: Seq<Widgets>, b: Seq<Widgets>) -> bool {
    a.len() == b.len() && forall|i: int| 0 <= i < a.len() ==> widgets_equal(a[i], b[i])
}

pub open spec fn widget_data_equal(a: WidgetData, b: WidgetData) -> bool {
    a.rect == b.rect && widgets_equal(a.widget, b.widget)
}

pub open spec fn widget_data_seq_equal(a: Seq<WidgetData>, b: Seq<WidgetData>) -> bool {
    a.len() == b.len() && forall|i: int| 0 <= i < a.len() ==> widget_data_equal(a[i], b[i])
}

impl Clone for BlockData {
    fn clone(&self) -> (res: Self)
        ensures
            block_equal(res, *self),
    {
        BlockData {
            title: opt_string_dup(&self.title),
            borders: self.borders,
            rounded: self.rounded,
            border_style: self.border_style,
        }
    }
}

impl Clone for ListEntry {
    fn clone(&self) -> (res: Self)
        ensures
            entry_equal(res, *self),
    {
        ListEntry { line: self.line.clone(), style: self.style }
    }
}

impl Clone for ListData {
    fn clone(&self) -> (res: Self)
        ensures
            list_equal(res, *self),
    {
        let mut items: Vec<ListEntry> = Vec::new();
        let n = self.items.len();
        let mut i: usize = 0;
        while i < n
            invariant
                n == self.items.len(),
                0 <= i <= n,
                items@.len() == i,
                forall|j: int| 0 <= j < i ==> entry_equal(items@[j], self.items@[j]),
            decreases n - i,
        {
            items.push(self.items[i].clone());
            i += 1;
        }
        ListData {
            items,
            block: match &self.block {
                Option::None => Option::None,
                Option::Some(b) => Option::Some(b.clone()),
            },
            style: self.style,
        }
    }
}

impl Clone for ParagraphData {
    fn clone(&self) -> (res: Self)
        ensures
            paragraph_equal(res, *self),
    {
        ParagraphData {
            text: self.text.clone(),
            block: match &self.block {
                Option::None => Option::None,
                Option::Some(b) => Option::Some(b.clone()),
            },
        }
    }
}

impl Clone for Widgets {
    fn clone(&self) -> (res: Self)
        ensures
            widgets_equal(res, *self),
    {
        match self {
            Widgets::Block(b) => Widgets::Block(b.clone()),
            Widgets::List(l) => Widgets::List(l.clone()),
            Widgets::Line(l) => Widgets::Line(l.clone()),
            Widgets::Paragraph(p) => Widgets::Paragraph(p.clone()),
        }
    }
}

impl Clone for WidgetData {
    fn clone(&self) -> (res: Self)
        ensures
            widget_data_equal(res, *self),
    {
        WidgetData { rect: self.rect, widget: self.widget.clone() }
    }
}

pub fn widgets_dup_seq(a: &Vec<Widgets>) -> (r: Vec<Widgets>)
    ensures
        widgets_seq_equal(r@, a@),
{
    let mut r: Vec<Widgets> = Vec::new();
    let n = a.len();
    let mut i: usize = 0;
    while i < n
        invariant
            n == a.len(),
            0 <= i <= n,
            r@.len() == i,
            forall|j: int| 0 <= j < i ==> widgets_equal(r@[j], a@[j]),
        decreases n - i,
    {
        r.push(a[i].clone());
        i += 1;
    }
    r
}

pub fn widget_data_dup_seq(a: &Vec<WidgetData>) -> (r: Vec<WidgetData>)
    ensures
        widget_data_seq_equal(r@, a@),
{
    let mut r: Vec<WidgetData> = Vec::new();
    let n = a.len();
    let mut i: usize = 0;
    while i < n
        invariant
            n == a.len(),
            0 <= i <= n,
            r@.len() == i,
            forall|j: int| 0 <= j < i ==> widget_data_equal(r@[j], a@[j]),
        decreases n - i,
    {
        r.push(a[i].clone());
        i += 1;
    }
    r
}

pub fn block_eq(a: &BlockData, b: &BlockData) -> (r: bool)
    ensures
        r == block_equal(*a, *b),
{
    opt_string_eq(&a.title, &b.title) && a.borders == b.borders && a.rounded == b.rounded
        && a.border_style == b.border_style
}

pub fn widgets_eq(a: &Widgets, b: &Widgets) -> (r: bool)
    ensures
        r == widgets_equal(*a, *b),
{
    match (a, b) {
        (Widgets::Block(x), Widgets::Block(y)) => block_eq(x, y),
        (Widgets::Line(x), Widgets::Line(y)) => line_eq(x, y),
        (Widgets::Paragraph(x), Widgets::Paragraph(y)) => {
            x.text == y.text && match (&x.block, &y.block) {
                (Option::None, Option::None) => true,
                (Option::Some(p), Option::Some(q)) => block_eq(p, q),
                _ => false,
            }
        },
        (Widgets::List(x), Widgets::List(y)) => list_eq(x, y),
        _ => false,
    }
}

pub fn list_eq(x: &ListData, y: &ListData) -> (r: bool)
    ensures
        r == list_equal(*x, *y),
{
    if !(x.style == y.style) {
        return false;
    }
    let blocks_same = match (&x.block, &y.block) {
        (Option::None, Option::None) => true,
        (Option::Some(p), Option::Some(q)) => block_eq(p, q),
        _ => false,
    };
    if !blocks_same {
        return false;
    }
    if x.items.len() != y.items.len() {
        return false;
    }
    let n = x.items.len();
    let mut i: usize = 0;
    while i < n
        invariant
            n == x.items.len() == y.items.len(),
            0 <= i <= n,
            forall|j: int| 0 <= j < i ==> entry_equal(x.items@[j], y.items@[j]),
        decreases n - i,
    {
        if !(x.items[i].style == y.items[i].style) {
            proof {
                assert(!entry_equal(x.items@[i as int], y.items@[i as int]));
            }
            return false;
        }
        if !line_eq(&x.items[i].line, &y.items[i].line) {
            proof {
                assert(!entry_equal(x.items@[i as int], y.items@[i as int]));
            }
            return false;
        }
        i += 1;
    }
    true
}

} // verus!
