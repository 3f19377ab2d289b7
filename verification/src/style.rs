//! Styled text: spans of characters with a style, lines of spans, and texts of lines.

use vstd::prelude::*;

use crate::text::split_lines;
#[allow(unused_imports)]
use crate::text::{lines, strs};

verus! {

/// A terminal colour.
#[derive(Clone, Copy, Debug, PartialEq, Eq, Structural)]
pub enum Color {
    /// The terminal's own.
    Reset,
    Black,
    Red,
    Green,
    Yellow,
    Blue,
    Magenta,
    Cyan,
    Gray,
    DarkGray,
    LightRed,
    LightGreen,
    LightYellow,
    LightBlue,
    LightMagenta,
    LightCyan,
    White,
    Indexed(u8),
    Rgb(u8, u8, u8),
}

/// How a span is drawn: a colour of its own for the characters and for what is behind them,
/// or the one that is there already, and what is done to the characters.
#[derive(Clone, Copy, Debug, PartialEq, Eq)]
pub struct Style {
    pub fg: Option<Color>,
    pub bg: Option<Color>,
    pub bold: bool,
    pub dim: bool,
    pub italic: bool,
    pub underlined: bool,
    pub reversed: bool,
    pub crossed_out: bool,
    pub hidden: bool,
    pub slow_blink: bool,
}

/// No style of its own.
#[verifier::allow_in_spec]
pub fn plain() -> (r: Style)
    returns
        (Style {
            fg: None,
            bg: None,
            bold: false,
            dim: false,
            italic: false,
            underlined: false,
            reversed: false,
            crossed_out: false,
            hidden: false,
            slow_blink: false,
        }),
{
    Style {
        fg: None,
        bg: None,
        bold: false,
        dim: false,
        italic: false,
        underlined: false,
        reversed: false,
        crossed_out: false,
        hidden: false,
        slow_blink: false,
    }
}

/// Characters of one colour.
#[verifier::allow_in_spec]
pub fn fg(c: Color) -> (r: Style)
    returns
        (Style { fg: Some(c), ..plain() }),
{
    Style { fg: Some(c), ..plain() }
}

/// Characters of one colour on another.
#[verifier::allow_in_spec]
pub fn fg_bg(c: Color, b: Color) -> (r: Style)
    returns
        (Style { fg: Some(c), bg: Some(b), ..plain() }),
{
    Style { fg: Some(c), bg: Some(b), ..plain() }
}

/// Characters as they are, on a colour.
#[verifier::allow_in_spec]
pub fn bg(c: Color) -> (r: Style)
    returns
        (Style { bg: Some(c), ..plain() }),
{
    Style { bg: Some(c), ..plain() }
}

/// Bold characters.
#[verifier::allow_in_spec]
pub fn bold() -> (r: Style)
    returns
        (Style { bold: true, ..plain() }),
{
    Style { bold: true, ..plain() }
}

/// Dim characters.
#[verifier::allow_in_spec]
pub fn dim() -> (r: Style)
    returns
        (Style { dim: true, ..plain() }),
{
    Style { dim: true, ..plain() }
}

/// Characters and background exchanged.
#[verifier::allow_in_spec]
pub fn reversed() -> (r: Style)
    returns
        (Style { reversed: true, ..plain() }),
{
    Style { reversed: true, ..plain() }
}

/// Bold characters of one colour.
#[verifier::allow_in_spec]
pub fn fg_bold(c: Color) -> (r: Style)
    returns
        (Style { fg: Some(c), bold: true, ..plain() }),
{
    Style { fg: Some(c), bold: true, ..plain() }
}

/// Dim characters of one colour.
#[verifier::allow_in_spec]
pub fn fg_dim(c: Color) -> (r: Style)
    returns
        (Style { fg: Some(c), dim: true, ..plain() }),
{
    Style { fg: Some(c), dim: true, ..plain() }
}

/// Italic characters of one colour.
#[verifier::allow_in_spec]
pub fn fg_italic(c: Color) -> (r: Style)
    returns
        (Style { fg: Some(c), italic: true, ..plain() }),
{
    Style { fg: Some(c), italic: true, ..plain() }
}

/// Characters of one colour, exchanged with their background.
#[verifier::allow_in_spec]
pub fn fg_reversed(c: Color) -> (r: Style)
    returns
        (Style { fg: Some(c), reversed: true, ..plain() }),
{
    Style { fg: Some(c), reversed: true, ..plain() }
}

/// The row at the cursor.
#[verifier::allow_in_spec]
pub fn cursor() -> (r: Style)
    returns
        fg_bg(Color::Black, Color::Cyan),
{
    fg_bg(Color::Black, Color::Cyan)
}

/// Bold characters of one colour on another.
#[verifier::allow_in_spec]
pub fn fg_bg_bold(c: Color, b: Color) -> (r: Style)
    returns
        (Style { fg: Some(c), bg: Some(b), bold: true, ..plain() }),
{
    Style { fg: Some(c), bg: Some(b), bold: true, ..plain() }
}

/// Characters drawn in one style.
#[derive(Debug)]
pub struct Span {
    pub text: String,
    pub style: Style,
}

/// What a span is.
pub struct SpanV {
    pub text: Seq<char>,
    pub style: Style,
}

impl Span {
    pub open spec fn view(&self) -> SpanV {
        SpanV { text: self.text@, style: self.style }
    }
}

/// A line of spans.
#[derive(Debug)]
pub struct Line {
    pub spans: Vec<Span>,
}

/// What a line is.
#[verifier::ext_equal]
pub struct LineV {
    pub spans: Seq<SpanV>,
}

impl LineV {
    /// A line without spans.
    pub open spec fn new() -> LineV {
        LineV { spans: Seq::empty() }
    }

    /// The line with a span behind it.
    pub open spec fn sp(self, text: Seq<char>, style: Style) -> LineV {
        LineV { spans: self.spans.push(SpanV { text, style }) }
    }

    /// The line with unstyled characters behind it.
    pub open spec fn raw(self, text: Seq<char>) -> LineV {
        self.sp(text, plain())
    }

    /// The line with characters and background of each span exchanged.
    pub open spec fn reverse(self) -> LineV {
        LineV {
            spans: self.spans.map_values(
                |s: SpanV| SpanV { text: s.text, style: Style { reversed: true, ..s.style } },
            ),
        }
    }

    /// The characters of the line.
    pub open spec fn chars(self) -> Seq<char>
        decreases self.spans.len(),
    {
        if self.spans.len() == 0 {
            Seq::empty()
        } else {
            LineV { spans: self.spans.drop_last() }.chars() + self.spans.last().text
        }
    }
}

/// A text on one line: an unstyled span for each line of it, none with the break between them.
pub open spec fn raw_line(text: Seq<char>) -> LineV {
    LineV { spans: lines(text).map_values(|l: Seq<char>| SpanV { text: l, style: plain() }) }
}

/// One styled span.
pub open spec fn styled_line(text: Seq<char>, style: Style) -> LineV {
    LineV::new().sp(text, style)
}

impl Line {
    pub open spec fn view(&self) -> LineV {
        LineV { spans: self.spans@.map_values(|s: Span| s@) }
    }

    pub fn new() -> (r: Line)
        ensures
            r@ == LineV::new(),
    {
        let r: Line = Line { spans: Vec::new() };
        assert(r@.spans =~= LineV::new().spans);
        r
    }

    pub fn sp(self, text: &str, style: Style) -> (r: Line)
        ensures
            r@ == self@.sp(text@, style),
    {
        self.add(text.to_owned(), style)
    }

    pub fn add(self, text: String, style: Style) -> (r: Line)
        ensures
            r@ == self@.sp(text@, style),
    {
        let mut spans: Vec<Span> = self.spans;
        spans.push(Span { text, style });
        let r: Line = Line { spans };
        assert(r@.spans =~= self@.sp(text@, style).spans);
        r
    }

    pub fn raw(self, text: &str) -> (r: Line)
        ensures
            r@ == self@.raw(text@),
    {
        self.sp(text, plain())
    }

    pub fn reverse(self) -> (r: Line)
        ensures
            r@ == self@.reverse(),
    {
        let mut spans: Vec<Span> = self.spans;
        let ghost all = spans@;
        let mut i: usize = 0;
        while i < spans.len()
            invariant
                i <= spans@.len() == all.len(),
                forall|k: int| i <= k < all.len() ==> spans@[k] == all[k],
                forall|k: int|
                    0 <= k < i ==> (#[trigger] spans@[k])@ == (SpanV {
                        text: all[k]@.text,
                        style: Style { reversed: true, ..all[k]@.style },
                    }),
            decreases spans@.len() - i,
        {
            let s: &Span = &spans[i];
            let t: Span = Span { text: s.text.clone(), style: Style { reversed: true, ..s.style } };
            spans.set(i, t);
            i += 1;
        }
        let r: Line = Line { spans };
        assert(r@.spans =~= self@.reverse().spans);
        r
    }
}

/// A text on one line, without style and without line breaks.
pub fn raw(text: &str) -> (r: Line)
    ensures
        r@ == raw_line(text@),
{
    let ls: Vec<String> = split_lines(text);
    let ghost all = raw_line(text@).spans;
    assert(ls@.len() == strs(ls@).len());
    let mut out: Line = Line::new();
    let mut i: usize = 0;
    while i < ls.len()
        invariant
            i <= ls@.len() == all.len(),
            strs(ls@) == lines(text@),
            all == raw_line(text@).spans,
            out@.spans == all.take(i as int),
        decreases ls@.len() - i,
    {
        assert(lines(text@)[i as int] == ls@[i as int]@);
        out = out.raw(ls[i].as_str());
        i += 1;
        assert(out@.spans =~= all.take(i as int));
    }
    assert(all.take(all.len() as int) =~= all);
    out
}

/// A line of one styled span.
pub fn styled(text: &str, style: Style) -> (r: Line)
    ensures
        r@ == styled_line(text@, style),
{
    Line::new().sp(text, style)
}

/// The lines of a text.
pub open spec fn lvs(v: Seq<Line>) -> Seq<LineV> {
    v.map_values(|l: Line| l@)
}

/// A text: lines from top to bottom.
#[derive(Debug)]
pub struct Text {
    pub lines: Vec<Line>,
}

impl Text {
    pub open spec fn view(&self) -> Seq<LineV> {
        lvs(self.lines@)
    }

    pub fn new() -> (r: Text)
        ensures
            r@ == Seq::<LineV>::empty(),
    {
        let r: Text = Text { lines: Vec::new() };
        assert(r@ =~= Seq::<LineV>::empty());
        r
    }

    /// The text with a line behind it.
    pub fn ln(self, l: Line) -> (r: Text)
        ensures
            r@ == self@.push(l@),
    {
        let mut lines: Vec<Line> = self.lines;
        lines.push(l);
        let r: Text = Text { lines };
        assert(r@ =~= self@.push(l@));
        r
    }

    /// The text with the lines of another behind it.
    pub fn and(self, other: Text) -> (r: Text)
        ensures
            r@ == self@ + other@,
    {
        let mut lines: Vec<Line> = self.lines;
        let mut more: Vec<Line> = other.lines;
        lines.append(&mut more);
        let r: Text = Text { lines };
        assert(r@ =~= self@ + other@);
        r
    }

    pub fn len(&self) -> (n: usize)
        ensures
            n == self@.len(),
    {
        self.lines.len()
    }
}

} // verus!
