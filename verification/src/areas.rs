//! How the screen is divided.

use vstd::prelude::*;

#[allow(unused_imports)]
use crate::outside::{asked, before, laid_out, one_grows, portions, side_by_side, stacked};
use crate::outside::{layout_split, Rect, Share};

verus! {

/// The parts that the rows of the screen are divided into: the bar at the top, what is below it, and
/// the three lines at the bottom.
pub open spec fn screen_rows() -> Seq<Share> {
    seq![Share::Length(1), Share::Min(3), Share::Length(1), Share::Length(1), Share::Length(1)]
}

/// The height of the first of two parts, of a fixed height where the second gets its least.
pub open spec fn upper(fixed: int, least: int, height: int) -> int {
    if height < least {
        0
    } else if height < fixed + least {
        height - least
    } else {
        fixed
    }
}

/// How the rows of a screen that is high enough are divided.
proof fn lemma_screen_rows(height: int)
    requires
        7 <= height,
    ensures
        portions(screen_rows(), height) == Some(seq![1, height - 4, 1, 1, 1]),
        before(seq![1, height - 4, 1, 1, 1], 0) == 0,
        before(seq![1, height - 4, 1, 1, 1], 1) == 1,
        before(seq![1, height - 4, 1, 1, 1], 2) == height - 3,
        before(seq![1, height - 4, 1, 1, 1], 3) == height - 2,
        before(seq![1, height - 4, 1, 1, 1], 4) == height - 1,
{
    let s = screen_rows();
    reveal_with_fuel(asked, 6);
    reveal_with_fuel(before, 5);
    assert(s.drop_last() =~= s.take(4));
    assert(s.take(4).drop_last() =~= s.take(3));
    assert(s.take(3).drop_last() =~= s.take(2));
    assert(s.take(2).drop_last() =~= s.take(1));
    assert(s.take(1).drop_last() =~= s.take(0));
    assert(asked(s) == 7);
    assert(s[1] is Min);
    assert(one_grows(s));
    assert(portions(s, height)->0 =~= seq![1, height - 4, 1, 1, 1]);
}

/// How two parts below each other are divided.
proof fn lemma_upper(fixed: u16, least: u16, height: int)
    requires
        0 <= height,
        least <= 0x7fff,
    ensures
        ({
            let first = upper(fixed as int, least as int, height);
            &&& portions(seq![Share::Length(fixed), Share::Min(least)], height) == Some(seq![first, height - first])
            &&& before(seq![first, height - first], 0) == 0
            &&& before(seq![first, height - first], 1) == first
        }),
{
    let s = seq![Share::Length(fixed), Share::Min(least)];
    let first = upper(fixed as int, least as int, height);
    reveal_with_fuel(asked, 3);
    reveal_with_fuel(before, 2);
    assert(s.drop_last() =~= s.take(1));
    assert(s.take(1).drop_last() =~= s.take(0));
    assert(asked(s) == fixed + least);
    assert(s[1] is Min);
    assert(one_grows(s));
    assert(portions(s, height)->0 =~= seq![first, height - first]);
}

/// The width of the list, in nearest columns.
pub open spec fn list_width(width: int) -> int {
    (45 * width + 50) / 100
}

/// How the list and what is beside it are divided.
proof fn lemma_columns(width: int)
    ensures
        portions(seq![Share::Percentage(45), Share::Percentage(55)], width) == Some(
            seq![list_width(width), width - list_width(width)],
        ),
        before(seq![list_width(width), width - list_width(width)], 0) == 0,
        before(seq![list_width(width), width - list_width(width)], 1) == list_width(width),
{
    let s = seq![Share::Percentage(45), Share::Percentage(55)];
    reveal_with_fuel(before, 2);
    assert(s[0] is Percentage && s[1] is Percentage);
    assert(!one_grows(s));
}

/// Two parts of an area that lie below each other: the first of a fixed height, the second of the
/// rest, of which it gets its least first.
pub open spec fn halved(top: Rect, bottom: Rect, area: Rect, fixed: int, least: int) -> bool {
    let h = upper(fixed, least, area.height as int);
    &&& top.x == bottom.x == area.x && top.width == bottom.width == area.width
    &&& top.y == area.y && top.height == h
    &&& bottom.y == area.y + h && bottom.height == area.height - h
}

/// The five rows of a screen: the bar at the top, of one line, what is between the bars, and three
/// lines at the bottom. On a screen of less than seven lines it is left open which of them are
/// without theirs.
pub open spec fn in_rows(rows: Seq<Rect>, area: Rect) -> bool {
    let ys = seq![0, 1, area.height - 3, area.height - 2, area.height - 1];
    let hs = seq![1, area.height - 4, 1, 1, 1];
    &&& rows.len() == 5
    &&& stacked(rows, area)
    &&& 7 <= area.height ==> forall|i: int|
        0 <= i < 5 ==> (#[trigger] rows[i]).y == area.y + ys[i] && rows[i].height == hs[i]
}

/// A list, and what is known of its row beside it.
pub open spec fn in_columns(left: Rect, right: Rect, area: Rect) -> bool {
    let w = list_width(area.width as int);
    &&& left.y == right.y == area.y && left.height == right.height == area.height
    &&& left.x == area.x && left.width == w
    &&& right.x == area.x + w && right.width == area.width - w
}

/// Divides the rows of the screen.
pub fn divide_rows(area: Rect) -> (rows: Vec<Rect>)
    requires
        area.fits(),
    ensures
        in_rows(rows@, area),
{
    let shares: Vec<Share> = vec![
        Share::Length(1),
        Share::Min(3),
        Share::Length(1),
        Share::Length(1),
        Share::Length(1),
    ];
    let rows: Vec<Rect> = layout_split(area, true, &shares);
    proof {
        assert(shares@ =~= screen_rows());
        if 7 <= area.height {
            lemma_screen_rows(area.height as int);
            let ys = seq![0, 1, area.height - 3, area.height - 2, area.height - 1];
            let hs = seq![1, area.height - 4, 1, 1, 1];
            assert(laid_out(rows@, area, true, hs));
            assert forall|i: int| 0 <= i < 5 implies (#[trigger] rows@[i]).y == area.y + ys[i]
                && rows@[i].height == hs[i] by {
                assert(i == 0 || i == 1 || i == 2 || i == 3 || i == 4);
            }
        }
    }
    rows
}

/// Divides an area into a list and what is known of its row.
pub fn divide_columns(area: Rect) -> (r: (Rect, Rect))
    requires
        area.fits(),
    ensures
        in_columns(r.0, r.1, area),
{
    let shares: Vec<Share> = vec![Share::Percentage(45), Share::Percentage(55)];
    let cols: Vec<Rect> = layout_split(area, false, &shares);
    proof {
        assert(shares@ =~= seq![Share::Percentage(45), Share::Percentage(55)]);
        lemma_columns(area.width as int);
        assert(cols@[0].within(area));
        assert(cols@[1].within(area));
    }
    (cols[0], cols[1])
}

/// Divides an area into a part of a fixed height and one below it.
pub fn divide_below(area: Rect, fixed: u16, least: u16) -> (r: (Rect, Rect))
    requires
        area.fits(),
        least <= 0x7fff,
    ensures
        halved(r.0, r.1, area, fixed as int, least as int),
{
    let shares: Vec<Share> = vec![Share::Length(fixed), Share::Min(least)];
    let parts: Vec<Rect> = layout_split(area, true, &shares);
    proof {
        assert(shares@ =~= seq![Share::Length(fixed), Share::Min(least)]);
        lemma_upper(fixed, least, area.height as int);
        assert(parts@[0].within(area));
        assert(parts@[1].within(area));
    }
    (parts[0], parts[1])
}

} // verus!
