//! How sizes, times, modes, bytes and texts are written.

use vstd::prelude::*;

#[allow(unused_imports)]
use crate::fmt::{
    age_text, ascii_bytes, bytes_text, dur_text, files_text, flag_of, hex_bytes, hex_row, hex_rows, hexdump, mode_text,
    one_decimal, parts, round_even, tag_color, tail_of, to_mantissa, ulp, unit_of, unit_size,
};
#[allow(unused_imports)]
use crate::json::{lookup, JV};
#[allow(unused_imports)]
use crate::num::{near, NumV, ONE};
#[allow(unused_imports)]
use crate::render::{clock, six_decimals, three_decimals};
#[allow(unused_imports)]
use crate::style::Color;
#[allow(unused_imports)]
use crate::text::{dec, digit, drop_cr, first, fixed, is_ws, lines, lines_from, padl, padr, rep, sdec, trim_l, trim_r, trimmed};

verus! {

/// The whole number that is taken for a fraction is at most half away from it.
pub proof fn law_rounding_is_to_the_nearest(n: int, d: int)
    requires
        n >= 0,
        d > 0,
    ensures
        -d <= 2 * (round_even(n, d) * d - n) <= d,
        n % d == 0 ==> round_even(n, d) * d == n,
{
    let q = n / d;
    let r = n % d;
    vstd::arithmetic::div_mod::lemma_fundamental_div_mod(n, d);
    assert(n == q * d + r) by (nonlinear_arith)
        requires
            n == d * q + r,
    ;
    assert(0 <= r < d) by (nonlinear_arith)
        requires
            r == n % d,
            d > 0,
    ;
    assert((q + 1) * d == q * d + d) by (nonlinear_arith);
}

proof fn lemma_small_is_exact(n: int)
    requires
        0 <= n < 0x20_0000_0000_0000,
    ensures
        to_mantissa(n) == n,
        near(n, 1) == n,
{
    assert(ulp(n) == 1);
    assert(n / 1 == n);
    assert(round_even(n, 1) == n);
}

/// A size of less than a KiB is written in bytes.
pub proof fn law_small_sizes_are_exact(n: int)
    requires
        0 <= n < 1024,
    ensures
        bytes_text(n) == dec(n) + " "@ + "B"@,
{
    lemma_small_is_exact(n);
}

/// A larger size is written in the largest unit that it fills, to the nearest tenth.
pub proof fn law_sizes_are_written_in_their_unit(n: int) -> (tenths: int)
    requires
        1024 <= n < 0x20_0000_0000_0000,
    ensures
        n < 0x10_0000 ==> bytes_text(n) == dec(tenths / 10) + "."@ + dec(tenths % 10) + " "@ + "KiB"@ && -1024 <= 2 * (
        tenths * 1024 - 10 * n) <= 1024,
        0x10_0000 <= n < 0x4000_0000 ==> bytes_text(n) == dec(tenths / 10) + "."@ + dec(tenths % 10) + " "@ + "MiB"@
            && -0x10_0000 <= 2 * (tenths * 0x10_0000 - 10 * n) <= 0x10_0000,
        0x4000_0000 <= n < 0x100_0000_0000 ==> bytes_text(n) == dec(tenths / 10) + "."@ + dec(tenths % 10) + " "@ + "GiB"@
            && -0x4000_0000 <= 2 * (tenths * 0x4000_0000 - 10 * n) <= 0x4000_0000,
        0x100_0000_0000 <= n ==> bytes_text(n) == dec(tenths / 10) + "."@ + dec(tenths % 10) + " "@ + "TiB"@
            && -0x100_0000_0000 <= 2 * (tenths * 0x100_0000_0000 - 10 * n) <= 0x100_0000_0000,
{
    lemma_small_is_exact(n);
    let u = unit_size(unit_of(n));
    law_rounding_is_to_the_nearest(10 * n, u);
    round_even(10 * n, u)
}

/// An age is written in seconds, in minutes and seconds, or in hours and minutes, and no second is
/// lost but those below a minute of the last.
pub proof fn law_ages_add_up(s: int)
    requires
        s >= 0,
    ensures
        s < 60 ==> age_text(s) == dec(s) + "s"@,
        60 <= s < 3600 ==> exists|m: int, r: int|
            s == 60 * m + r && 0 <= r < 60 && age_text(s) == #[trigger] dec(m) + "m"@ + #[trigger] fixed(r, 10, 2) + "s"@,
        s >= 3600 ==> exists|h: int, m: int|
            3600 * h + 60 * m <= s < 3600 * h + 60 * m + 60 && 0 <= m < 60 && age_text(s) == #[trigger] dec(h) + "h"@
                + #[trigger] fixed(m, 10, 2) + "m"@,
{
    if 60 <= s < 3600 {
        let m = s / 60;
        let r = s % 60;
        assert(s == 60 * m + r && age_text(s) == dec(m) + "m"@ + fixed(r, 10, 2) + "s"@);
    } else if s >= 3600 {
        let h = s / 3600;
        let m = (s % 3600) / 60;
        assert(3600 * h + 60 * m <= s < 3600 * h + 60 * m + 60 && age_text(s) == dec(h) + "h"@ + fixed(m, 10, 2) + "m"@);
    }
}

/// A time of day adds up to the seconds since midnight.
pub proof fn law_times_of_day_add_up(t: NumV)
    ensures
        exists|h: int, m: int, s: int|
            0 <= h < 24 && 0 <= m < 60 && 0 <= s < 60 && (t.whole() - (3600 * h + 60 * m + s)) % 86400 == 0 && clock(t)
                == #[trigger] fixed(h, 10, 2) + ":"@ + #[trigger] fixed(m, 10, 2) + ":"@ + #[trigger] fixed(s, 10, 2),
{
    let d = t.whole() % 86400;
    let h = d / 3600;
    let m = (d % 3600) / 60;
    let s = d % 60;
    assert(d == 3600 * h + 60 * m + s);
    assert(0 <= h < 24 && 0 <= m < 60 && 0 <= s < 60 && (t.whole() - (3600 * h + 60 * m + s)) % 86400 == 0 && clock(t)
        == fixed(h, 10, 2) + ":"@ + fixed(m, 10, 2) + ":"@ + fixed(s, 10, 2));
}

/// A duration of one to ten seconds is written to the nearest hundredth, one of ten to sixty seconds
/// to the nearest tenth.
pub proof fn law_durations_are_to_the_nearest(t: NumV) -> (c: int)
    requires
        !t.neg,
        ONE <= t.size < 60 * ONE,
    ensures
        t.size < 10 * ONE ==> dur_text(t) == dec(c / 100) + "."@ + fixed(c % 100, 10, 2) + "s"@ && -ONE <= 2 * (c * ONE
            - 100 * t.size) <= ONE,
        t.size >= 10 * ONE ==> dur_text(t) == dec(c / 10) + "."@ + dec(c % 10) + "s"@ && -ONE <= 2 * (c * ONE - 10
            * t.size) <= ONE,
{
    if t.size < 10 * ONE {
        law_rounding_is_to_the_nearest(t.size * 100, 0x1_0000_0000_0000_0000_0000);
        parts(t, 100)
    } else {
        law_rounding_is_to_the_nearest(t.size * 10, 0x1_0000_0000_0000_0000_0000);
        parts(t, 10)
    }
}

/// Nothing, and less than nothing, took no time.
pub proof fn law_no_time_is_none(t: NumV)
    requires
        t.neg || t.size == 0,
    ensures
        dur_text(t) == "0ms"@,
{
}

/// A number with six decimals is the nearest of these, with its sign.
pub proof fn law_six_decimals_are_to_the_nearest(t: NumV) -> (q: int)
    requires
        t.size >= 0,
    ensures
        -ONE <= 2 * (q * ONE - 1_000_000 * t.size) <= ONE,
        !t.neg ==> six_decimals(t) == ""@ + (dec(q / 1_000_000) + "."@ + fixed(q % 1_000_000, 10, 6)),
        t.neg ==> six_decimals(t) == "-"@ + (dec(q / 1_000_000) + "."@ + fixed(q % 1_000_000, 10, 6)),
{
    law_rounding_is_to_the_nearest(t.size * 1_000_000, 0x1_0000_0000_0000_0000_0000);
    parts(t, 1_000_000)
}

/// A number with three decimals is the nearest of these, with its sign.
pub proof fn law_three_decimals_are_to_the_nearest(t: NumV) -> (q: int)
    requires
        t.size >= 0,
    ensures
        -ONE <= 2 * (q * ONE - 1000 * t.size) <= ONE,
        !t.neg ==> three_decimals(t) == ""@ + (dec(q / 1000) + "."@ + fixed(q % 1000, 10, 3)),
        t.neg ==> three_decimals(t) == "-"@ + (dec(q / 1000) + "."@ + fixed(q % 1000, 10, 3)),
{
    law_rounding_is_to_the_nearest(t.size * 1000, 0x1_0000_0000_0000_0000_0000);
    parts(t, 1000)
}

/// The letters of a mode: the kind of file, then who may read, write and run it.
pub proof fn law_modes_are_those_of_a_listing(m: u32)
    ensures
        mode_text(m).len() == 10,
        m & 0o170000 == 0o100000 ==> mode_text(m)[0] == '-',
        m & 0o170000 == 0o040000 ==> mode_text(m)[0] == 'd',
        m & 0o170000 == 0o120000 ==> mode_text(m)[0] == 'l',
        mode_text(m)[1] == (if m & 0o400 != 0 { 'r' } else { '-' }),
        mode_text(m)[2] == (if m & 0o200 != 0 { 'w' } else { '-' }),
        mode_text(m)[3] == (if m & 0o100 != 0 { 'x' } else { '-' }),
        mode_text(m)[4] == (if m & 0o040 != 0 { 'r' } else { '-' }),
        mode_text(m)[5] == (if m & 0o020 != 0 { 'w' } else { '-' }),
        mode_text(m)[6] == (if m & 0o010 != 0 { 'x' } else { '-' }),
        mode_text(m)[7] == (if m & 0o004 != 0 { 'r' } else { '-' }),
        mode_text(m)[8] == (if m & 0o002 != 0 { 'w' } else { '-' }),
        mode_text(m)[9] == (if m & 0o001 != 0 { 'x' } else { '-' }),
{
}

/// The letter of a box says how it ended, and its colour whether that was well.
pub proof fn law_flags_of_the_boxes()
    ensures
        flag_of("running"@) == ("R"@, Color::Green),
        flag_of("finished"@) == ("F"@, Color::DarkGray),
        flag_of("killed"@) == ("K"@, Color::Red),
        flag_of("error"@) == ("E"@, Color::Red),
{
    reveal_strlit("running");
    reveal_strlit("finished");
    reveal_strlit("killed");
    reveal_strlit("error");
    assert("running"@[0] == 'r' && "finished"@[0] == 'f' && "killed"@[0] == 'k' && "error"@[0] == 'e');
}

/// What was added is green and what was taken away red.
pub proof fn law_colours_of_a_structural_diff()
    ensures
        tag_color("+"@) == Color::Green,
        tag_color("-"@) == Color::Red,
        tag_color("err"@) == Color::Red,
        tag_color("@"@) == Color::Cyan,
        tag_color("type"@) == Color::Yellow,
{
    reveal_strlit("+");
    reveal_strlit("-");
    reveal_strlit("err");
    reveal_strlit("@");
    reveal_strlit("type");
    reveal_strlit("hdr");
    assert("+"@[0] == '+' && "-"@[0] == '-' && "err"@[0] == 'e' && "@"@[0] == '@' && "type"@[0] == 't' && "hdr"@[0] == 'h');
}

proof fn lemma_pair(b: u8)
    ensures
        fixed(b as int, 16, 2) == seq![digit(b as int / 16), digit(b as int % 16)],
{
    reveal_with_fuel(fixed, 3);
    assert(b as int / 16 % 16 == b as int / 16);
    assert(fixed(b as int, 16, 2) =~= seq![digit(b as int / 16), digit(b as int % 16)]);
}

/// Each byte of a dump is written as its two digits, in its place.
pub proof fn law_every_byte_is_dumped(data: Seq<u8>, from: int, to: int)
    requires
        0 <= from < to <= data.len(),
    ensures
        hex_bytes(data, from, to).len() == 3 * (to - from) - 1,
        forall|i: int|
            #![trigger data[i]]
            from <= i < to ==> hex_bytes(data, from, to)[3 * (i - from)] == digit(data[i] as int / 16) && hex_bytes(
                data,
                from,
                to,
            )[3 * (i - from) + 1] == digit(data[i] as int % 16),
        forall|i: int| from <= i < to - 1 ==> #[trigger] hex_bytes(data, from, to)[3 * (i - from) + 2] == ' ',
    decreases to - from,
{
    reveal_strlit(" ");
    lemma_pair(data[to - 1]);
    if to > from + 1 {
        law_every_byte_is_dumped(data, from, to - 1);
        let before = hex_bytes(data, from, to - 1);
        let all = hex_bytes(data, from, to);
        assert(all =~= before + " "@ + fixed(data[to - 1] as int, 16, 2));
        assert forall|i: int|
            #![trigger data[i]]
            from <= i < to implies all[3 * (i - from)] == digit(data[i] as int / 16) && all[3 * (i - from) + 1] == digit(
            data[i] as int % 16,
        ) by {
            if i < to - 1 {
                assert(before[3 * (i - from)] == digit(data[i] as int / 16));
            }
        }
    }
}

proof fn lemma_rows(data: Seq<u8>, i: int, n: int)
    requires
        0 <= i,
    ensures
        hex_rows(data, i, n).len() == (if n > i { (n - i + 15) / 16 } else { 0 }),
        forall|k: int|
            0 <= k < hex_rows(data, i, n).len() ==> #[trigger] hex_rows(data, i, n)[k] == hex_row(data, i + 16 * k, n),
    decreases (if n > i { n - i } else { 0 }),
{
    if n > i {
        lemma_rows(data, i + 16, n);
        let rest = hex_rows(data, i + 16, n);
        let all = hex_rows(data, i, n);
        assert(all =~= seq![hex_row(data, i, n)] + rest);
        assert forall|k: int| 0 <= k < all.len() implies #[trigger] all[k] == hex_row(data, i + 16 * k, n) by {
            if k > 0 {
                assert(rest[k - 1] == hex_row(data, i + 16 + 16 * (k - 1), n));
            }
        }
    }
}

/// A dump has one row for sixteen bytes, up to 256 bytes, and each row begins with its place.
pub proof fn law_dumps_have_a_row_for_sixteen_bytes(data: Seq<u8>)
    ensures
        data.len() <= 256 ==> hexdump(data).len() == (data.len() + 15) / 16,
        data.len() > 256 ==> hexdump(data).len() == 16,
        forall|k: int|
            0 <= k < hexdump(data).len() ==> (#[trigger] hexdump(data)[k]).len() >= 4 && hexdump(data)[k].take(4) == fixed(
                16 * k,
                16,
                4,
            ),
{
    let n = if data.len() <= 256 { data.len() as int } else { 256 };
    lemma_rows(data, 0, n);
    assert forall|k: int| 0 <= k < hexdump(data).len() implies (#[trigger] hexdump(data)[k]).len() >= 4 && hexdump(
        data,
    )[k].take(4) == fixed(16 * k, 16, 4) by {
        reveal_with_fuel(fixed, 5);
        assert(hexdump(data)[k] == hex_row(data, 16 * k, n));
        assert(fixed(16 * k, 16, 4).len() == 4);
        assert(hexdump(data)[k].take(4) =~= fixed(16 * k, 16, 4));
    }
}

/// A text that is padded keeps its characters and gets as wide as it is to be.
pub proof fn law_padding_only_adds_spaces(s: Seq<char>, w: int)
    ensures
        padr(s, w).len() == (if s.len() >= w { s.len() as int } else { w }),
        padl(s, w).len() == (if s.len() >= w { s.len() as int } else { w }),
        padr(s, w).take(s.len() as int) == s,
        padl(s, w).skip(padl(s, w).len() - s.len()) == s,
        forall|i: int| s.len() <= i < padr(s, w).len() ==> #[trigger] padr(s, w)[i] == ' ',
        forall|i: int| 0 <= i < padl(s, w).len() - s.len() ==> #[trigger] padl(s, w)[i] == ' ',
{
    assert(padr(s, w).take(s.len() as int) =~= s);
    assert(padl(s, w).skip(padl(s, w).len() - s.len()) =~= s);
}

/// What is cut off of a text is its end, and no more than has no room.
pub proof fn law_cutting_keeps_the_beginning(s: Seq<char>, n: int)
    requires
        n >= 0,
    ensures
        first(s, n).len() == (if s.len() <= n { s.len() as int } else { n }),
        forall|i: int| 0 <= i < first(s, n).len() ==> #[trigger] first(s, n)[i] == s[i],
{
}

/// What is kept of a path that is too long is its end.
pub proof fn law_the_end_of_a_path_is_kept(s: Seq<char>, max: int)
    requires
        max >= 1,
    ensures
        s.len() <= max ==> tail_of(s, max) == s,
        s.len() > max ==> tail_of(s, max).len() == max && tail_of(s, max).skip(1) == s.skip(s.len() - (max - 1)),
{
    reveal_strlit("…");
    if s.len() > max {
        assert(tail_of(s, max).skip(1) =~= s.skip(s.len() - (max - 1)));
    }
}

/// Trimming takes off white space at both ends and nothing else.
pub proof fn law_trimming_takes_off_white_space(s: Seq<char>)
    ensures
        trimmed(s).len() > 0 ==> !is_ws(trimmed(s)[0]) && !is_ws(trimmed(s).last()),
        s.len() > 0 && !is_ws(s[0]) && !is_ws(s.last()) ==> trimmed(s) == s,
        exists|a: int, b: int|
            0 <= a <= b <= s.len() && trimmed(s) == #[trigger] s.subrange(a, b) && (forall|i: int|
                0 <= i < a ==> is_ws(#[trigger] s[i])) && (forall|i: int| b <= i < s.len() ==> is_ws(#[trigger] s[i])),
{
    lemma_trim_l(s);
    let l = trim_l(s);
    lemma_trim_r(l);
    let a = s.len() - l.len();
    let b = a + trim_r(l).len();
    assert(trimmed(s) =~= s.subrange(a, b)) by {
        assert(l =~= s.skip(a));
    }
    assert forall|i: int| b <= i < s.len() implies is_ws(#[trigger] s[i]) by {
        assert(l[i - a] == s[i]);
    }
    assert(0 <= a <= b <= s.len() && trimmed(s) == s.subrange(a, b));
}

proof fn lemma_trim_l(s: Seq<char>)
    ensures
        trim_l(s).len() <= s.len(),
        trim_l(s) == s.skip(s.len() - trim_l(s).len()),
        forall|i: int| 0 <= i < s.len() - trim_l(s).len() ==> is_ws(#[trigger] s[i]),
        trim_l(s).len() > 0 ==> !is_ws(trim_l(s)[0]),
    decreases s.len(),
{
    if s.len() > 0 && is_ws(s[0]) {
        let t = s.drop_first();
        lemma_trim_l(t);
        assert(trim_l(s) =~= s.skip(s.len() - trim_l(s).len()));
        assert forall|i: int| 0 <= i < s.len() - trim_l(s).len() implies is_ws(#[trigger] s[i]) by {
            if i > 0 {
                assert(t[i - 1] == s[i]);
            }
        }
    } else {
        assert(s.skip(0) =~= s);
    }
}

proof fn lemma_trim_r(s: Seq<char>)
    ensures
        trim_r(s).len() <= s.len(),
        trim_r(s) == s.take(trim_r(s).len() as int),
        forall|i: int| trim_r(s).len() <= i < s.len() ==> is_ws(#[trigger] s[i]),
        trim_r(s).len() > 0 ==> !is_ws(trim_r(s).last()),
    decreases s.len(),
{
    if s.len() > 0 && is_ws(s.last()) {
        let t = s.drop_last();
        lemma_trim_r(t);
        assert(trim_r(s) =~= s.take(trim_r(s).len() as int));
        assert forall|i: int| trim_r(s).len() <= i < s.len() implies is_ws(#[trigger] s[i]) by {
            if i < s.len() - 1 {
                assert(t[i] == s[i]);
            }
        }
    } else {
        assert(s.take(s.len() as int) =~= s);
    }
}

/// A text is cut at its line breaks, and a break at its end begins no further line.
pub proof fn law_lines_end_at_breaks(a: Seq<char>, rest: Seq<char>)
    requires
        !a.contains('\n'),
    ensures
        lines(a + seq!['\n'] + rest) == seq![drop_cr(a)] + lines(rest),
        a.len() > 0 ==> lines(a) == seq![a],
        lines(Seq::empty()).len() == 0,
{
    lemma_lines(a, seq!['\n'] + rest, Seq::empty());
    assert(a + (seq!['\n'] + rest) =~= a + seq!['\n'] + rest);
    assert(Seq::<char>::empty() + a =~= a);
    let t = seq!['\n'] + rest;
    assert(t[0] == '\n');
    assert(t.drop_first() =~= rest);
    lemma_lines(a, Seq::empty(), Seq::empty());
    assert(a + Seq::<char>::empty() =~= a);
}

proof fn lemma_lines(a: Seq<char>, rest: Seq<char>, cur: Seq<char>)
    requires
        !a.contains('\n'),
    ensures
        lines_from(a + rest, cur) == lines_from(rest, cur + a),
    decreases a.len(),
{
    if a.len() == 0 {
        assert(a + rest =~= rest);
        assert(cur + a =~= cur);
    } else {
        let b = a.drop_first();
        assert(a[0] != '\n') by {
            assert(a.contains(a[0]));
        }
        assert(!b.contains('\n')) by {
            if b.contains('\n') {
                let i = choose|i: int| 0 <= i < b.len() && b[i] == '\n';
                assert(a[i + 1] == '\n');
            }
        }
        assert((a + rest)[0] == a[0]);
        assert((a + rest).drop_first() =~= b + rest);
        lemma_lines(b, rest, cur.push(a[0]));
        assert(cur.push(a[0]) + b =~= cur + a);
    }
}

/// Files are counted in words that fit the number.
pub proof fn law_files_are_counted(n: int)
    requires
        n >= 0,
    ensures
        n == 1 ==> files_text(n) == "1 file"@,
        n != 1 ==> files_text(n) == dec(n) + " files"@,
{
}

/// A member that is put behind others is found under its name where none of them has it, and the
/// others are found as before.
pub proof fn law_members_are_found_by_name(e: Seq<(Seq<char>, JV)>, k: Seq<char>, v: JV, other: Seq<char>)
    requires
        forall|i: int| 0 <= i < e.len() ==> (#[trigger] e[i]).0 != k,
    ensures
        JV::Obj(e.push((k, v))).get(k) == Some(v),
        other != k ==> JV::Obj(e.push((k, v))).get(other) == JV::Obj(e).get(other),
        JV::Obj(e).get(k) is None,
    decreases e.len(),
{
    let all = e.push((k, v));
    if e.len() > 0 {
        assert(e[0].0 != k);
        let rest = e.drop_first();
        assert forall|i: int| 0 <= i < rest.len() implies (#[trigger] rest[i]).0 != k by {
            assert(rest[i] == e[i + 1]);
        }
        law_members_are_found_by_name(rest, k, v, other);
        assert(all[0] == e[0]);
        assert(all.drop_first() =~= rest.push((k, v)));
    } else {
        reveal_with_fuel(lookup, 2);
        assert(all[0] == (k, v));
        assert(all.drop_first() =~= Seq::<(Seq<char>, JV)>::empty());
    }
}

/// The first member of a name is the one that counts, and only an object has members.
pub proof fn law_the_first_member_counts(e: Seq<(Seq<char>, JV)>)
    requires
        e.len() > 0,
    ensures
        JV::Obj(e).get(e[0].0) == Some(e[0].1),
        JV::Null.get(e[0].0) is None,
        JV::Str(e[0].0).get(e[0].0) is None,
        JV::Arr(Seq::empty()).get(e[0].0) is None,
{
}

/// The value that a mantissa of 53 bits holds for a number is at most half a step away from it, and
/// the number itself where it has no more than 53 bits.
pub proof fn law_mantissas_are_near(n: int)
    requires
        n >= 0,
    ensures
        -ulp(n) <= 2 * (near(n, 1) - n) <= ulp(n),
        n < 0x20_0000_0000_0000 ==> near(n, 1) == n,
{
    assert(n / 1 == n);
    lemma_ulp(n);
    law_rounding_is_to_the_nearest(n, ulp(n));
    assert(1 * ulp(n) == ulp(n));
    if n < 0x20_0000_0000_0000 {
        lemma_small_is_exact(n);
    }
}

proof fn lemma_ulp(n: int)
    ensures
        ulp(n) >= 1,
    decreases n,
{
    if n >= 0x20_0000_0000_0000 {
        lemma_ulp(n / 2);
    }
}

/// A member is read as what it is, and something else stands in for it only where it is none of
/// that sort.
pub proof fn law_members_are_read_as_they_are(r: JV, k: Seq<char>, s: Seq<char>, d: Seq<char>, n: i64, m: i64, v: Seq<JV>, t: NumV)
    ensures
        r.get(k) == Some(JV::Str(s)) ==> r.get_str(k) == Some(s) && r.str_or(k, d) == s && r.get_i64(k) is None,
        r.get(k) == Some(JV::Int(n as int)) ==> r.get_i64(k) == Some(n as int) && r.i64_or(k, m as int) == n && r.str_or(
            k,
            d,
        ) == d,
        r.get(k) == Some(JV::Int(n as int)) && n >= 0 ==> r.get_u64(k) == Some(n as int) && r.u64_or(k, m as int) == n,
        r.get(k) == Some(JV::Int(n as int)) && n < 0 ==> r.get_u64(k) is None && r.u64_or(k, m as int) == m,
        r.get(k) == Some(JV::Bool(true)) ==> r.flag(k) && r.get_bool(k) == Some(true),
        r.get(k) == Some(JV::Bool(false)) ==> !r.flag(k) && r.get_bool(k) == Some(false),
        r.get(k) == Some(JV::Arr(v)) ==> r.get_arr(k) == Some(v) && r.items(k) == v,
        r.get(k) == Some(JV::Real(t, s)) ==> r.get_num(k) == Some(t) && r.num_at(k) == t,
        r.get(k) == Some(JV::Int(n as int)) && 0 <= n < 0x20_0000_0000_0000 ==> !r.num_at(k).neg,
        r.get(k) is None ==> r.get_str(k) is None && r.str_or(k, d) == d && r.i64_or(k, m as int) == m && !r.flag(k) && r.items(
            k,
        ).len() == 0 && r.num_at(k) == NumV::zero(),
{
}

} // verus!
