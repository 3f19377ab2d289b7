//! What is put on the screen: texts, with a frame or without one, in parts of it.

use vstd::prelude::*;

use crate::outside::Rect;
use crate::style::{fg, fg_bold, Color, Style, Text};
#[allow(unused_imports)]
use crate::style::LineV;

verus! {

/// The frame of a text.
#[derive(Debug)]
pub struct Frame {
    pub title: String,
    pub style: Style,
    /// Lines are double.
    pub double: bool,
}

/// What a frame is.
pub struct FrameV {
    pub title: Seq<char>,
    pub style: Style,
    pub double: bool,
}

impl Frame {
    pub open spec fn view(&self) -> FrameV {
        FrameV { title: self.title@, style: self.style, double: self.double }
    }
}

/// What an optional frame is.
pub open spec fn opt_frame(f: Option<Frame>) -> Option<FrameV> {
    match f {
        Some(x) => Some(x@),
        None => None,
    }
}

/// The frame of a pane: a double one where the pane has the keys.
pub open spec fn pane_frame(title: Seq<char>, focused: bool) -> FrameV {
    FrameV {
        title,
        style: if focused { fg_bold(Color::Cyan) } else { fg(Color::Gray) },
        double: focused,
    }
}

pub fn block(title: String, focused: bool) -> (r: Frame)
    ensures
        r@ == pane_frame(title@, focused),
{
    Frame { title, style: if focused { fg_bold(Color::Cyan) } else { fg(Color::Gray) }, double: focused }
}

/// Something on the screen.
#[derive(Debug)]
pub enum Widget {
    /// A text, from the line `scroll` on; long lines go on below where it wraps.
    Para { area: Rect, frame: Option<Frame>, text: Text, scroll: u16, wrap: bool },
    /// Nothing.
    Clear(Rect),
    /// The terminal at the cursor.
    Screen(Rect),
}

/// What something on the screen is.
pub enum WidgetV {
    Para { area: Rect, frame: Option<FrameV>, text: Seq<LineV>, scroll: u16, wrap: bool },
    Clear(Rect),
    Screen(Rect),
}

impl Widget {
    pub open spec fn view(&self) -> WidgetV {
        match *self {
            Widget::Para { area, frame, text, scroll, wrap } => WidgetV::Para {
                area,
                frame: opt_frame(frame),
                text: text@,
                scroll,
                wrap,
            },
            Widget::Clear(a) => WidgetV::Clear(a),
            Widget::Screen(a) => WidgetV::Screen(a),
        }
    }
}

/// What is on the screen.
pub open spec fn widgets_v(v: Seq<Widget>) -> Seq<WidgetV> {
    v.map_values(|w: Widget| w@)
}

/// What is on the screen, from the back to the front.
#[derive(Debug)]
pub struct Canvas {
    pub widgets: Vec<Widget>,
}

impl Canvas {
    pub open spec fn view(&self) -> Seq<WidgetV> {
        widgets_v(self.widgets@)
    }

    pub fn new() -> (r: Canvas)
        ensures
            r@ == Seq::<WidgetV>::empty(),
    {
        let r: Canvas = Canvas { widgets: Vec::new() };
        assert(r@ =~= Seq::<WidgetV>::empty());
        r
    }

    /// The picture with something before it.
    pub fn put(self, w: Widget) -> (r: Canvas)
        ensures
            r@ == self@.push(w@),
    {
        let mut widgets: Vec<Widget> = self.widgets;
        widgets.push(w);
        let r: Canvas = Canvas { widgets };
        assert(r@ =~= self@.push(w@));
        r
    }
}

} // verus!
