//! What the panes have in common: legends, and values on one line.

use vstd::prelude::*;

#[allow(unused_imports)]
use crate::fmt::parts;
use crate::fmt::{decimal_wide, tree_indent};
use crate::json::Json;
#[allow(unused_imports)]
use crate::json::{jvs, JV};
#[allow(unused_imports)]
use crate::lists::fit;
use crate::lists::fit_usize;
#[allow(unused_imports)]
use crate::num::NumV;
use crate::num::{scaled, Num};
#[allow(unused_imports)]
use crate::style::{raw_line, styled_line, LineV};
use crate::style::{dim, raw, styled, Line, Style, Text};
use crate::text::{fixed_digits, own, same, split_lines, split_words};
#[allow(unused_imports)]
use crate::text::{dec, first, fixed, lines, rep, strs, words};

verus! {

/// A value on one line: a space for each line break, at most `n` characters.
pub open spec fn flat(s: Seq<char>, n: int) -> Seq<char> {
    first(s.map_values(|c: char| if c == '\n' { ' ' } else { c }), n)
}

pub fn flatten(s: &str, n: usize) -> (r: String)
    ensures
        r@ == flat(s@, n as int),
{
    let len: usize = s.unicode_len();
    let stop: usize = if n < len { n } else { len };
    let mut out: String = String::new();
    let ghost all = s@.map_values(|c: char| if c == '\n' { ' ' } else { c });
    let mut i: usize = 0;
    while i < stop
        invariant
            i <= stop <= s@.len(),
            all == s@.map_values(|c: char| if c == '\n' { ' ' } else { c }),
            out@ == all.take(i as int),
        decreases stop - i,
    {
        let c: char = s.get_char(i);
        out.push(if c == '\n' { ' ' } else { c });
        i += 1;
        assert(out@ =~= all.take(i as int));
    }
    assert(all.take(all.len() as int) =~= all);
    out
}

/// The width of a legend in a pane.
pub open spec fn legend_width(width: int) -> int {
    if width - 2 > 20 { width - 2 } else { 20 }
}

/// Words filled into lines of at most `w` characters, behind those that are on the line already;
/// a longer word stands alone.
pub open spec fn filled(ws: Seq<Seq<char>>, cur: Seq<char>, w: int) -> Seq<Seq<char>>
    decreases ws.len(),
{
    if ws.len() == 0 {
        if cur.len() == 0 { Seq::empty() } else { seq![cur] }
    } else {
        let next = ws[0];
        let rest = ws.drop_first();
        if cur.len() == 0 {
            filled(rest, next, w)
        } else if cur.len() + 1 + next.len() > w {
            seq![cur] + filled(rest, next, w)
        } else {
            filled(rest, cur + " "@ + next, w)
        }
    }
}

/// A legend: dim lines.
pub open spec fn legend(text: Seq<char>, width: int) -> Seq<LineV> {
    filled(words(text), Seq::empty(), legend_width(width)).map_values(|l: Seq<char>| styled_line(l, dim()))
}

/// A legend, broken into lines that fit a pane.
pub fn legend_lines(text: &str, width: u16) -> (r: Text)
    ensures
        r@ == legend(text@, width as int),
{
    let w: usize = if width > 22 { (width - 2) as usize } else { 20 };
    let ws: Vec<String> = split_words(text);
    let ghost all = strs(ws@);
    let mut out: Text = Text::new();
    let mut cur: String = String::new();
    let mut i: usize = 0;
    assert(all.skip(0) =~= all);
    assert(Seq::<LineV>::empty() + legend(text@, width as int) =~= legend(text@, width as int));
    while i < ws.len()
        invariant
            i <= ws@.len(),
            all == strs(ws@),
            w == legend_width(width as int),
            out@ + filled(all.skip(i as int), cur@, w as int).map_values(|l: Seq<char>| styled_line(l, dim()))
                == legend(text@, width as int),
        decreases ws@.len() - i,
    {
        let ghost before = filled(all.skip(i as int), cur@, w as int);
        let ghost rest = all.skip(i as int).drop_first();
        assert(rest =~= all.skip(i + 1));
        assert(all.skip(i as int)[0] == ws@[i as int]@);
        let n: usize = cur.as_str().unicode_len();
        let m: usize = ws[i].as_str().unicode_len();
        if n == 0 {
            cur = ws[i].clone();
        } else if n as u128 + 1 + m as u128 > w as u128 {
            let ghost was = cur@;
            let ghost o = out@;
            out = out.ln(styled(cur.as_str(), dim()));
            cur = ws[i].clone();
            let ghost after = filled(rest, cur@, w as int);
            assert(before =~= seq![was] + after);
            assert(o + before.map_values(|l: Seq<char>| styled_line(l, dim())) =~= out@ + after.map_values(
                |l: Seq<char>| styled_line(l, dim()),
            ));
        } else {
            cur = cur.concat(" ").concat(ws[i].as_str());
        }
        i += 1;
    }
    assert(all.skip(i as int).len() == 0);
    if cur.as_str().unicode_len() > 0 {
        let ghost o = out@;
        out = out.ln(styled(cur.as_str(), dim()));
        assert(o + seq![cur@].map_values(|l: Seq<char>| styled_line(l, dim())) =~= out@);
    } else {
        assert(out@ + Seq::<Seq<char>>::empty().map_values(|l: Seq<char>| styled_line(l, dim())) =~= out@);
    }
    out
}

/// The time of day: hours, minutes and seconds.
pub open spec fn clock(t: NumV) -> Seq<char> {
    let s = t.whole() % 86400;
    fixed(s / 3600, 10, 2) + ":"@ + fixed((s % 3600) / 60, 10, 2) + ":"@ + fixed(s % 60, 10, 2)
}

pub fn time_label(t: &Num) -> (r: String)
    requires
        t.wf(),
    ensures
        r@ == clock(t@),
{
    let n: i64 = t.whole();
    let m: u64 = if n < 0 { (-(n as i128)) as u64 } else { n as u64 };
    let d: u64 = m % 86400;
    let s: u64 = if n < 0 && d > 0 { 86400 - d } else { d };
    assert(s as int == n as int % 86400);
    fixed_digits(s / 3600, 10, 2).concat(":").concat(fixed_digits((s % 3600) / 60, 10, 2).as_str()).concat(":").concat(
        fixed_digits(s % 60, 10, 2).as_str(),
    )
}

/// A number with three decimals.
pub open spec fn three_decimals(t: NumV) -> Seq<char> {
    let q = parts(t, 1000);
    (if t.neg { "-"@ } else { ""@ }) + (dec(q / 1000) + "."@ + fixed(q % 1000, 10, 3))
}

/// A number with six decimals.
pub open spec fn six_decimals(t: NumV) -> Seq<char> {
    let q = parts(t, 1_000_000);
    (if t.neg { "-"@ } else { ""@ }) + (dec(q / 1_000_000) + "."@ + fixed(q % 1_000_000, 10, 6))
}

pub fn millis_text(t: &Num) -> (r: String)
    requires
        t.wf(),
    ensures
        r@ == three_decimals(t@),
{
    let (w, c): (u128, u64) = scaled(t.size, 1000);
    let text: String = decimal_wide(w).concat(".").concat(fixed_digits(c, 10, 3).as_str());
    own(if t.neg { "-" } else { "" }).concat(text.as_str())
}

pub fn micros_text(t: &Num) -> (r: String)
    requires
        t.wf(),
    ensures
        r@ == six_decimals(t@),
{
    let (w, c): (u128, u64) = scaled(t.size, 1_000_000);
    let text: String = decimal_wide(w).concat(".").concat(fixed_digits(c, 10, 6).as_str());
    own(if t.neg { "-" } else { "" }).concat(text.as_str())
}

/// What stands behind the last `c`; all of it where there is none.
pub open spec fn after_last(s: Seq<char>, c: char) -> Seq<char>
    decreases s.len(),
{
    if s.len() == 0 || s.last() == c {
        Seq::empty()
    } else {
        after_last(s.drop_last(), c).push(s.last())
    }
}

proof fn lemma_after_last(s: Seq<char>, c: char, i: int)
    requires
        0 <= i <= s.len(),
        i == 0 || s[i - 1] == c,
        forall|k: int| i <= k < s.len() ==> s[k] != c,
    ensures
        after_last(s, c) == s.skip(i),
    decreases s.len(),
{
    if i == s.len() {
        assert(s.skip(i) =~= Seq::<char>::empty());
    } else {
        lemma_after_last(s.drop_last(), c, i);
        assert(s.drop_last().skip(i).push(s.last()) =~= s.skip(i));
    }
}

pub fn last_part(s: &str, c: char) -> (r: String)
    ensures
        r@ == after_last(s@, c),
{
    let n: usize = s.unicode_len();
    let mut i: usize = n;
    while i > 0
        invariant
            i <= n == s@.len(),
            forall|k: int| i <= k < n ==> s@[k] != c,
        decreases i,
    {
        let x: char = s.get_char(i - 1);
        if x == c {
            proof {
                lemma_after_last(s@, c, i as int);
            }
            let t: &str = s.substring_char(i, n);
            assert(t@ =~= s@.skip(i as int));
            return own(t);
        }
        i -= 1;
    }
    proof {
        lemma_after_last(s@, c, 0);
        assert(s@.skip(0) =~= s@);
    }
    own(s)
}

/// The last name of a path; nothing where it ends at the root, at the directory itself or at the
/// one above.
pub open spec fn file_name_of(s: Seq<char>) -> Seq<char>
    decreases s.len(),
{
    let w = after_last(s, '/');
    if s.len() == 0 || w == ".."@ {
        Seq::empty()
    } else if s.last() == '/' || w == "."@ {
        file_name_of(s.drop_last())
    } else {
        w
    }
}

pub fn file_name(s: &str) -> (r: String)
    ensures
        r@ == file_name_of(s@),
{
    let mut t: String = own(s);
    loop
        invariant
            file_name_of(t@) == file_name_of(s@),
        decreases t@.len(),
    {
        let n: usize = t.as_str().unicode_len();
        let w: String = last_part(t.as_str(), '/');
        if n == 0 || same(w.as_str(), "..") {
            return own_empty();
        }
        let last: char = t.as_str().get_char(n - 1);
        if last == '/' || same(w.as_str(), ".") {
            let c: &str = t.as_str().substring_char(0, n - 1);
            assert(c@ =~= t@.drop_last());
            t = own(c);
        } else {
            return w;
        }
    }
}

fn own_empty() -> (r: String)
    ensures
        r@ == Seq::<char>::empty(),
{
    let r: String = String::new();
    assert(r@ =~= Seq::<char>::empty());
    r
}

/// The texts of a list, without what is no text.
pub open spec fn texts_in(v: Seq<JV>) -> Seq<Seq<char>>
    decreases v.len(),
{
    if v.len() == 0 {
        Seq::empty()
    } else {
        match v.last().str() {
            Some(s) => texts_in(v.drop_last()).push(s),
            None => texts_in(v.drop_last()),
        }
    }
}

/// The texts of the list `k` of a row.
pub open spec fn texts_at(r: JV, k: Seq<char>) -> Seq<Seq<char>> {
    match r.get_arr(k) {
        Some(v) => texts_in(v),
        None => Seq::empty(),
    }
}

pub fn texts_of(r: &Json, k: &str) -> (out: Vec<String>)
    ensures
        strs(out@) == texts_at(r@, k@),
{
    let mut out: Vec<String> = Vec::new();
    match r.get_arr(k) {
        None => {
            assert(strs(out@) =~= texts_at(r@, k@));
        },
        Some(v) => {
            let ghost all = jvs(v@);
            let mut i: usize = 0;
            assert(strs(out@) =~= texts_in(all.take(0)));
            while i < v.len()
                invariant
                    i <= v@.len(),
                    all == jvs(v@),
                    strs(out@) == texts_in(all.take(i as int)),
                decreases v@.len() - i,
            {
                let ghost t = all.take(i + 1);
                assert(t.drop_last() =~= all.take(i as int));
                assert(t.last() == v@[i as int]@);
                match v[i].as_str() {
                    Some(s) => {
                        let ghost o = strs(out@);
                        out.push(own(s));
                        assert(strs(out@) =~= o.push(s@));
                    },
                    None => {},
                }
                i += 1;
            }
            assert(all.take(all.len() as int) =~= all);
        },
    }
    out
}

/// The lines of a text in one style.
pub open spec fn in_style(s: Seq<char>, st: Style) -> Seq<LineV> {
    lines(s).map_values(|l: Seq<char>| styled_line(l, st))
}

/// A text, line by line, in one style.
pub fn each_line(s: &str, st: Style) -> (r: Text)
    ensures
        r@ == in_style(s@, st),
{
    let ls: Vec<String> = split_lines(s);
    let ghost all = lines(s@);
    assert(ls@.len() == strs(ls@).len());
    let mut out: Text = Text::new();
    let mut i: usize = 0;
    while i < ls.len()
        invariant
            i <= ls@.len() == all.len(),
            all == strs(ls@),
            all == lines(s@),
            out@ == in_style(s@, st).take(i as int),
        decreases ls@.len() - i,
    {
        out = out.ln(styled(ls[i].as_str(), st));
        assert(all[i as int] == ls@[i as int]@);
        i += 1;
        assert(out@ =~= in_style(s@, st).take(i as int));
    }
    assert(in_style(s@, st).take(all.len() as int) =~= in_style(s@, st));
    out
}

/// The lines of a text without style.
pub open spec fn as_they_are(s: Seq<char>) -> Seq<LineV> {
    lines(s).map_values(|l: Seq<char>| raw_line(l))
}

/// A text, line by line, without style.
pub fn each_raw_line(s: &str) -> (r: Text)
    ensures
        r@ == as_they_are(s@),
{
    let ls: Vec<String> = split_lines(s);
    let r: Text = raw_texts(&ls, "");
    proof {
        reveal_strlit("");
    }
    assert forall|i: int| 0 <= i < ls@.len() implies ""@ + #[trigger] strs(ls@)[i] == strs(ls@)[i] by {
        assert(""@ + strs(ls@)[i] =~= strs(ls@)[i]);
    }
    assert(r@ =~= as_they_are(s@));
    r
}

/// The texts, each on a line without style, behind a prefix.
pub open spec fn raw_listed(v: Seq<Seq<char>>, before: Seq<char>) -> Seq<LineV> {
    v.map_values(|s: Seq<char>| raw_line(before + s))
}

pub fn raw_texts(v: &Vec<String>, before: &str) -> (r: Text)
    ensures
        r@ == raw_listed(strs(v@), before@),
{
    let ghost all = raw_listed(strs(v@), before@);
    let mut out: Text = Text::new();
    let mut i: usize = 0;
    while i < v.len()
        invariant
            i <= v@.len(),
            all == raw_listed(strs(v@), before@),
            out@ == all.take(i as int),
        decreases v@.len() - i,
    {
        let s: String = own(before).concat(v[i].as_str());
        out = out.ln(raw(s.as_str()));
        i += 1;
        assert(out@ =~= all.take(i as int));
    }
    assert(all.take(all.len() as int) =~= all);
    out
}

/// The texts, each as a line in one style, behind a prefix.
pub open spec fn listed(v: Seq<Seq<char>>, before: Seq<char>, st: Style) -> Seq<LineV> {
    v.map_values(|s: Seq<char>| styled_line(before + s, st))
}

pub fn list_texts(v: &Vec<String>, before: &str, st: Style) -> (r: Text)
    ensures
        r@ == listed(strs(v@), before@, st),
{
    let ghost all = listed(strs(v@), before@, st);
    let mut out: Text = Text::new();
    let mut i: usize = 0;
    while i < v.len()
        invariant
            i <= v@.len(),
            all == listed(strs(v@), before@, st),
            out@ == all.take(i as int),
        decreases v@.len() - i,
    {
        let s: String = own(before).concat(v[i].as_str());
        out = out.ln(styled(s.as_str(), st));
        i += 1;
        assert(out@ =~= all.take(i as int));
    }
    assert(all.take(all.len() as int) =~= all);
    out
}

/// The depths of rows in their tree.
pub open spec fn depths_of(rows: Seq<JV>) -> Seq<usize> {
    rows.map_values(|r: JV| fit(r.u64_or("depth"@, 0)))
}

pub fn row_depths(rows: &Vec<Json>) -> (r: Vec<usize>)
    ensures
        r@ == depths_of(jvs(rows@)),
{
    let mut out: Vec<usize> = Vec::new();
    let mut i: usize = 0;
    while i < rows.len()
        invariant
            i <= rows@.len(),
            out@ == depths_of(jvs(rows@)).take(i as int),
        decreases rows@.len() - i,
    {
        out.push(fit_usize(rows[i].u64_or("depth", 0)));
        assert(jvs(rows@)[i as int] == rows@[i as int]@);
        i += 1;
        assert(out@ =~= depths_of(jvs(rows@)).take(i as int));
    }
    assert(out@ =~= depths_of(jvs(rows@)));
    out
}

/// The indent of a row of a tree, with a mark where it belongs to a chain of only children.
pub open spec fn indent_of(depth: int, chain: bool) -> Seq<char> {
    rep(' ', 2 * depth) + (if chain { "⋮"@ } else { ""@ })
}

pub fn indent_text(depth: usize, chain: bool) -> (r: String)
    ensures
        r@ == indent_of(depth as int, chain),
{
    tree_indent(depth).concat(if chain { "⋮" } else { "" })
}

/// What is shown in place of a list that has no rows here.
pub open spec fn nothing_text(total: int, filtered: bool, none: Seq<char>, no_match: Seq<char>) -> Seq<char> {
    if total != 0 {
        "(empty window — engine view drifted)"@
    } else if filtered {
        no_match
    } else {
        none
    }
}

pub fn nothing_line(total: usize, filtered: bool, none: &str, no_match: &str) -> (r: Line)
    ensures
        r@ == raw_line(nothing_text(total as int, filtered, none@, no_match@)),
{
    if total != 0 {
        raw("(empty window — engine view drifted)")
    } else if filtered {
        raw(no_match)
    } else {
        raw(none)
    }
}

} // verus!
