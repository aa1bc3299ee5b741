//! The drawable model: styled text fragments and the rectangles they land
//! in. The shell maps these one-for-one onto the terminal library's widgets;
//! the library only computes them.

use vstd::prelude::*;

verus! {

#[derive(Clone, Copy, PartialEq, Eq, Structural, Debug)]
pub enum Color {
    Reset,
    Black,
    White,
    Gray,
    DarkGray,
    Cyan,
    Green,
    Blue,
    Yellow,
    Rgb(u8, u8, u8),
}

#[derive(Clone, Copy, PartialEq, Eq, Structural, Debug)]
pub struct TextStyle {
    pub fg: Color,
    pub bg: Color,
    pub bold: bool,
}

impl TextStyle {
    /// The unstyled default.
    pub fn plain() -> (r: TextStyle)
        ensures
            r == (TextStyle { fg: Color::Reset, bg: Color::Reset, bold: false }),
    {
        TextStyle { fg: Color::Reset, bg: Color::Reset, bold: false }
    }
}

pub open spec fn plain_style() -> TextStyle {
    TextStyle { fg: Color::Reset, bg: Color::Reset, bold: false }
}

#[derive(Clone, Copy, PartialEq, Eq, Structural, Debug)]
pub enum Alignment {
    Left,
    Center,
    Right,
}

/// A rectangular region of the terminal grid.
#[derive(Clone, Copy, PartialEq, Eq, Structural, Debug)]
pub struct Rect {
    pub x: u16,
    pub y: u16,
    pub width: u16,
    pub height: u16,
}

/// A run of text under one style.
pub struct TextSpan {
    pub text: String,
    pub style: TextStyle,
}

/// One row of spans with an alignment.
pub struct TextLine {
    pub spans: Vec<TextSpan>,
    pub alignment: Alignment,
}

pub open spec fn span_equal(a: TextSpan, b: TextSpan) -> bool {
    a.text@ == b.text@ && a.style == b.style
}

pub open spec fn spans_equal(a: Seq<TextSpan>, b: Seq<TextSpan>) -> bool {
    a.len() == b.len() && forall|i: int| 0 <= i < a.len() ==> span_equal(a[i], b[i])
}

pub open spec fn line_equal(a: TextLine, b: TextLine) -> bool {
    spans_equal(a.spans@, b.spans@) && a.alignment == b.alignment
}

pub open spec fn lines_equal(a: Seq<TextLine>, b: Seq<TextLine>) -> bool {
    a.len() == b.len() && forall|i: int| 0 <= i < a.len() ==> line_equal(a[i], b[i])
}

impl Clone for TextSpan {
    fn clone(&self) -> (res: Self)
        ensures
            span_equal(res, *self),
    {
        TextSpan { text: self.text.clone(), style: self.style }
    }
}

impl Clone for TextLine {
    fn clone(&self) -> (res: Self)
        ensures
            line_equal(res, *self),
    {
        let mut spans: Vec<TextSpan> = Vec::new();
        let n = self.spans.len();
        let mut i: usize = 0;
        while i < n
            invariant
                n == self.spans.len(),
                0 <= i <= n,
                spans@.len() == i,
                forall|j: int| 0 <= j < i ==> span_equal(spans@[j], self.spans@[j]),
            decreases n - i,
        {
            spans.push(self.spans[i].clone());
            i += 1;
        }
        TextLine { spans, alignment: self.alignment }
    }
}

impl TextSpan {
    pub fn new(text: String, style: TextStyle) -> (r: TextSpan)
        ensures
            r.text@ == text@,
            r.style == style,
    {
        TextSpan { text, style }
    }
}

impl TextLine {
    pub fn empty() -> (r: TextLine)
        ensures
            r.spans@.len() == 0,
            r.alignment == Alignment::Left,
    {
        TextLine { spans: Vec::new(), alignment: Alignment::Left }
    }
}

pub fn span_eq(a: &TextSpan, b: &TextSpan) -> (r: bool)
    ensures
        r == span_equal(*a, *b),
{
    a.text == b.text && a.style.fg == b.style.fg && a.style.bg == b.style.bg && a.style.bold
        == b.style.bold
}

pub fn line_eq(a: &TextLine, b: &TextLine) -> (r: bool)
    ensures
        r == line_equal(*a, *b),
{
    if !(a.alignment == b.alignment) {
        return false;
    }
    if a.spans.len() != b.spans.len() {
        return false;
    }
    let n = a.spans.len();
    let mut i: usize = 0;
    while i < n
        invariant
            n == a.spans.len() == b.spans.len(),
            0 <= i <= n,
            forall|j: int| 0 <= j < i ==> span_equal(a.spans@[j], b.spans@[j]),
        decreases n - i,
    {
        if !span_eq(&a.spans[i], &b.spans[i]) {
            return false;
        }
        i += 1;
    }
    true
}

} // verus!
