//! What is computed by other crates and by the standard library.

use base64::Engine;
use ratatui::layout::{Constraint, Direction, Layout};
use vstd::prelude::*;

use crate::json::Json;
#[allow(unused_imports)]
use crate::json::JV;
use crate::loads::opt_jv;

verus! {

/// A part of the screen.
#[derive(Clone, Copy, Debug, PartialEq, Eq, Structural)]
pub struct Rect {
    pub x: u16,
    pub y: u16,
    pub width: u16,
    pub height: u16,
}

impl Rect {
    /// The part ends where 16 bits can still tell.
    pub open spec fn fits(self) -> bool {
        self.x + self.width <= 0xffff && self.y + self.height <= 0xffff
    }

    /// The part lies within another.
    pub open spec fn within(self, r: Rect) -> bool {
        &&& r.x <= self.x && self.x + self.width <= r.x + r.width
        &&& r.y <= self.y && self.y + self.height <= r.y + r.height
    }
}

/// How much of an area a part of it is to get.
#[derive(Clone, Copy, Debug, PartialEq, Eq, Structural)]
pub enum Share {
    Length(u16),
    Min(u16),
    Percentage(u16),
}

/// The parts of an area that lie below each other.
pub open spec fn stacked(parts: Seq<Rect>, area: Rect) -> bool {
    forall|i: int|
        0 <= i < parts.len() ==> (#[trigger] parts[i]).within(area) && parts[i].x == area.x && parts[i].width
            == area.width
}

/// The parts of an area that lie beside each other.
pub open spec fn side_by_side(parts: Seq<Rect>, area: Rect) -> bool {
    forall|i: int|
        0 <= i < parts.len() ==> (#[trigger] parts[i]).within(area) && parts[i].y == area.y && parts[i].height
            == area.height
}

/// What the shares ask for at least.
pub open spec fn asked(shares: Seq<Share>) -> int
    decreases shares.len(),
{
    if shares.len() == 0 {
        0
    } else {
        asked(shares.drop_last()) + match shares.last() {
            Share::Length(n) => n as int,
            Share::Min(n) => n as int,
            Share::Percentage(_) => 0,
        }
    }
}

/// One of the shares takes what the others, of a fixed length, leave.
pub open spec fn one_grows(shares: Seq<Share>) -> bool {
    exists|m: int|
        {
            &&& 0 <= m < shares.len()
            &&& (#[trigger] shares[m]) is Min
            &&& forall|i: int| 0 <= i < shares.len() && i != m ==> (#[trigger] shares[i]) is Length
        }
}

/// How much each share gets of an extent, where the strengths of the shares leave one answer only:
/// - two percentages that make up the whole get theirs, rounded to the nearest, a half up;
/// - fixed lengths beside one that grows get theirs where all fit, and the one that grows the rest;
/// - a fixed length before one that grows gives way to the least of that one where not both fit.
pub open spec fn portions(shares: Seq<Share>, extent: int) -> Option<Seq<int>> {
    if one_grows(shares) && asked(shares) <= extent {
        Some(
            shares.map_values(
                |s: Share|
                    match s {
                        Share::Length(n) => n as int,
                        Share::Min(n) => n + extent - asked(shares),
                        Share::Percentage(_) => 0,
                    },
            ),
        )
    } else if shares.len() == 2 {
        match (shares[0], shares[1]) {
            (Share::Percentage(p), Share::Percentage(q)) => if p + q == 100 {
                let first = (p * extent + 50) / 100;
                Some(seq![first, extent - first])
            } else {
                None
            },
            (Share::Length(_), Share::Min(m)) => if m <= 0x7fff {
                let first = if extent < m { 0 } else { extent - m };
                Some(seq![first, extent - first])
            } else {
                None
            },
            _ => None,
        }
    } else {
        None
    }
}

/// The sum of the first sizes.
pub open spec fn before(sizes: Seq<int>, i: int) -> int
    decreases i,
{
    if i <= 0 {
        0
    } else {
        before(sizes, i - 1) + sizes[i - 1]
    }
}

/// The parts of an area have those sizes and follow each other from its start.
pub open spec fn laid_out(parts: Seq<Rect>, area: Rect, vertical: bool, sizes: Seq<int>) -> bool {
    forall|i: int|
        0 <= i < parts.len() ==> if vertical {
            (#[trigger] parts[i]).y == area.y + before(sizes, i) && parts[i].height == sizes[i]
        } else {
            parts[i].x == area.x + before(sizes, i) && parts[i].width == sizes[i]
        }
}

/// `Layout::split` of ratatui: divides an area into as many parts as there are shares, one below
/// the other or side by side. Each part lies within the area and is as wide, or as high, as it.
/// Where the strengths of the shares leave one answer only, that is how much each part gets, and
/// the parts follow each other from the start of the area. Where more of equal strength is asked
/// for than there is, it is not stated what gives way: the solver behind it walks hash maps.
#[verifier::external_body]
pub(crate) fn layout_split(area: Rect, vertical: bool, shares: &Vec<Share>) -> (r: Vec<Rect>)
    requires
        area.fits(),
    ensures
        r@.len() == shares@.len(),
        vertical ==> stacked(r@, area),
        !vertical ==> side_by_side(r@, area),
        match portions(shares@, if vertical { area.height as int } else { area.width as int }) {
            Some(sizes) => laid_out(r@, area, vertical, sizes),
            None => true,
        },
{
    let a = ratatui::layout::Rect { x: area.x, y: area.y, width: area.width, height: area.height };
    let d = if vertical { Direction::Vertical } else { Direction::Horizontal };
    let c = shares.iter().map(|s| match s {
        Share::Length(n) => Constraint::Length(*n),
        Share::Min(n) => Constraint::Min(*n),
        Share::Percentage(n) => Constraint::Percentage(*n),
    });
    let parts = Layout::default().direction(d).constraints(c).split(a);
    parts.iter().map(|p| Rect { x: p.x, y: p.y, width: p.width, height: p.height }).collect()
}

/// The number of columns that a text takes up on a terminal.
pub uninterp spec fn columns(s: Seq<char>) -> int;

/// `Span::width` of ratatui: the number of columns that a text takes up. That this depends on the
/// text alone is all that is claimed of it.
#[verifier::external_body]
pub(crate) fn text_columns(s: &str) -> (r: usize)
    ensures
        r as int == columns(s@),
{
    ratatui::text::Span::raw(s).width()
}

/// A JSON value as `serde_json` holds it.
#[verifier::external_type_specification]
#[verifier::external_body]
pub struct ExValue(serde_json::Value);

/// A value as `serde_json` holds it. Nothing is claimed of it.
#[verifier::external_body]
fn to_value(j: &Json) -> (r: serde_json::Value) {
    match j {
        Json::Null => serde_json::Value::Null,
        Json::Bool(b) => (*b).into(),
        Json::Int(n) => (*n).into(),
        Json::Big(n) => (*n).into(),
        Json::Real(_, t) => serde_json::from_str(t).unwrap_or_default(),
        Json::Str(s) => s.clone().into(),
        Json::Arr(v) => v.iter().map(to_value).collect(),
        Json::Obj(m) => m.iter().map(|(k, v)| (k.clone(), to_value(v))).collect(),
    }
}

/// A JSON value written over several lines.
pub uninterp spec fn pretty_text(j: JV) -> Seq<char>;

/// `serde_json::to_string_pretty`: the value written over several lines. That this depends on the
/// value alone is all that is claimed of it.
#[verifier::external_body]
pub(crate) fn pretty_json(j: &Json) -> (r: String)
    ensures
        r@ == pretty_text(j@),
{
    serde_json::to_string_pretty(&to_value(j)).unwrap_or_default()
}

/// A TOML value.
#[verifier::external_type_specification]
#[verifier::external_body]
pub struct ExToml(toml::Value);

/// A TOML value as a JSON value; a number that is not whole and a date become null. Nothing is
/// claimed of it.
#[verifier::external_body]
fn from_toml(v: &toml::Value) -> (r: Json) {
    match v {
        toml::Value::String(s) => Json::Str(s.clone()),
        toml::Value::Integer(n) => Json::Int(*n),
        toml::Value::Boolean(b) => Json::Bool(*b),
        toml::Value::Float(_) | toml::Value::Datetime(_) => Json::Null,
        toml::Value::Array(a) => Json::Arr(a.iter().map(from_toml).collect()),
        toml::Value::Table(t) => Json::Obj(t.iter().map(|(k, v)| (k.clone(), from_toml(v))).collect()),
    }
}

/// What a TOML document says, as a JSON value; nothing where it is not one. A number that is not
/// whole and a date are null.
pub uninterp spec fn toml_document(s: Seq<char>) -> Option<JV>;

/// `toml::from_str`: what a TOML document says. That this depends on the text alone is all that
/// is claimed of it.
#[verifier::external_body]
pub(crate) fn parse_toml(s: &str) -> (r: Option<Json>)
    ensures
        opt_jv(r) == toml_document(s@),
{
    toml::from_str::<toml::Value>(s).ok().map(|v| from_toml(&v))
}

/// The bytes that a base64 text in the standard alphabet, with padding, stands for; nothing
/// where it is no such text.
pub uninterp spec fn base64_bytes(s: Seq<char>) -> Option<Seq<u8>>;

/// `Engine::decode` of `base64::engine::general_purpose::STANDARD`: the bytes that a text stands
/// for, or nothing where the text is not valid. That this depends on the text alone is all that
/// is claimed of it.
#[verifier::external_body]
pub(crate) fn base64_decode(s: &str) -> (r: Option<Vec<u8>>)
    ensures
        match r {
            Some(v) => base64_bytes(s@) == Some(v@),
            None => base64_bytes(s@) is None,
        },
{
    base64::engine::general_purpose::STANDARD.decode(s).ok()
}

/// The text that bytes are read as: UTF-8, with a replacement character for what is not.
pub uninterp spec fn lossy_text(b: Seq<u8>) -> Seq<char>;

/// `String::from_utf8_lossy`: the text that bytes are read as. That this depends on the bytes
/// alone is all that is claimed of it.
#[verifier::external_body]
pub(crate) fn utf8_lossy(b: &Vec<u8>) -> (r: String)
    ensures
        r@ == lossy_text(b@),
{
    String::from_utf8_lossy(b).into_owned()
}

/// A text in double quotes, with what cannot stand there escaped.
pub uninterp spec fn quoted_text(s: Seq<char>) -> Seq<char>;

/// The `Debug` form of a `str`: the text in double quotes, with what cannot stand there escaped.
/// That this depends on the text alone is all that is claimed of it.
#[verifier::external_body]
pub(crate) fn debug_text(s: &str) -> (r: String)
    ensures
        r@ == quoted_text(s@),
{
    format!("{s:?}")
}

} // verus!
