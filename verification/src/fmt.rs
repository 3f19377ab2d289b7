//! Small pieces of the display: sizes, ages, durations, file modes, hex dumps, and where a list
//! is scrolled to.

use vstd::prelude::*;

use crate::json::Json;
use crate::num::{minutes_of, scaled, seconds_over_of, thousandths_of, Num};
#[allow(unused_imports)]
use crate::num::{minutes, seconds_over, thousandths, NumV, ONE};
use crate::style::Color;
use crate::text::{decimal, decimal_signed, fixed_digits, own, pad_right, same};
#[allow(unused_imports)]
use crate::text::{dec, fixed, padr, rep, sdec, strs, has_prefix, starts_with};
#[allow(unused_imports)]
use crate::json::JV;

verus! {

/// The whole number nearest to `n / d`; of two that are equally near, the even one.
pub open spec fn round_even(n: int, d: int) -> int {
    let q = n / d;
    let r = n % d;
    if 2 * r < d {
        q
    } else if 2 * r > d {
        q + 1
    } else {
        q + q % 2
    }
}

pub(crate) fn round_even_u(n: u128, d: u128) -> (r: u128)
    requires
        0 < d <= 0x10_0000_0000_0000_0000_0000_0000,
        n <= 0x10_0000_0000_0000_0000_0000_0000,
    ensures
        r == round_even(n as int, d as int),
{
    let q: u128 = n / d;
    let m: u128 = n % d;
    assert(q <= n) by (nonlinear_arith)
        requires
            q == n / d,
            d > 0,
    ;
    if 2 * m < d {
        q
    } else if 2 * m > d {
        q + 1
    } else {
        q + q % 2
    }
}

/// The step between the numbers of the size of `n` that a mantissa of 53 bits can hold.
pub open spec fn ulp(n: int) -> int
    decreases n,
{
    if n < 0x20_0000_0000_0000 { 1 } else { 2 * ulp(n / 2) }
}

/// The nearest number that a mantissa of 53 bits can hold.
pub open spec fn to_mantissa(n: int) -> int {
    round_even(n, ulp(n)) * ulp(n)
}

fn mantissa(n: u64) -> (r: u64)
    requires
        n <= 0x8000_0000_0000_0000,
    ensures
        r == to_mantissa(n as int),
        r <= 0x8000_0000_0000_0000,
        n < 0x20_0000_0000_0000 ==> r == n,
        n >= 1024 ==> r >= 1024,
{
    let mut d: u64 = 1;
    let mut m: u64 = n;
    while m >= 0x20_0000_0000_0000
        invariant
            n <= 0x8000_0000_0000_0000,
            m == n / d,
            ulp(n as int) == d * ulp(m as int),
            d == 1 || d == 2 || d == 4 || d == 8 || d == 16 || d == 32 || d == 64 || d == 128 || d == 256 || d
                == 512 || d == 1024 || d == 2048,
            d >= 2 ==> m >= 0x10_0000_0000_0000,
        decreases m,
    {
        assert(ulp(m as int) == 2 * ulp(m as int / 2));
        assert(d * (2 * ulp(m as int / 2)) == (2 * d) * ulp(m as int / 2)) by (nonlinear_arith);
        d = 2 * d;
        m = m / 2;
    }
    assert(ulp(n as int) == d);
    let q: u128 = round_even_u(n as u128, d as u128);
    assert(q == m || q == m + 1);
    assert(q * d <= 0x8000_0000_0000_0000);
    (q as u64) * d
}

/// The name of the unit of `1024^i` bytes.
pub open spec fn unit_name(i: int) -> Seq<char> {
    if i == 0 { "B"@ } else if i == 1 { "KiB"@ } else if i == 2 { "MiB"@ } else if i == 3 { "GiB"@ } else { "TiB"@ }
}

pub open spec fn unit_size(i: int) -> int {
    if i == 0 { 1 } else if i == 1 { 1024 } else if i == 2 { 0x10_0000 } else if i == 3 { 0x4000_0000 } else { 0x100_0000_0000 }
}

/// The largest unit that `n` holds at least one of.
pub open spec fn unit_of(n: int) -> int {
    if n < unit_size(1) { 0 } else if n < unit_size(2) { 1 } else if n < unit_size(3) { 2 } else if n < unit_size(4) { 3 } else { 4 }
}

/// A number of tenths written with one decimal.
pub open spec fn one_decimal(tenths: int) -> Seq<char> {
    dec(tenths / 10) + "."@ + dec(tenths % 10)
}

/// A size in bytes: whole bytes below 1024, else the largest unit that fits with one decimal.
pub open spec fn bytes_text(n: int) -> Seq<char> {
    let v = if n < 0 { -to_mantissa(-n) } else { to_mantissa(n) };
    if v < 1024 {
        sdec(v) + " "@ + "B"@
    } else {
        one_decimal(round_even(10 * v, unit_size(unit_of(v)))) + " "@ + unit_name(unit_of(v))
    }
}

/// A size for people: `512 B`, `1.5 KiB`, `3.0 GiB`.
pub fn fmt_bytes(n: i64) -> (r: String)
    ensures
        r@ == bytes_text(n as int),
{
    if n < 1024 {
        if n < 0 {
            let m: u64 = if n == i64::MIN { 0x8000_0000_0000_0000 } else { (-n) as u64 };
            let v: u64 = mantissa(m);
            let w: i64 = if v == 0x8000_0000_0000_0000 { i64::MIN } else { -(v as i64) };
            decimal_signed(w).concat(" ").concat("B")
        } else {
            let v: u64 = mantissa(n as u64);
            decimal_signed(v as i64).concat(" ").concat("B")
        }
    } else {
        let v: u64 = mantissa(n as u64);
        let (d, name): (u128, &str) = if v < 0x10_0000 {
            (1024, "KiB")
        } else if v < 0x4000_0000 {
            (0x10_0000, "MiB")
        } else if v < 0x100_0000_0000 {
            (0x4000_0000, "GiB")
        } else {
            (0x100_0000_0000, "TiB")
        };
        let t: u128 = round_even_u(10 * (v as u128), d);
        assert(t <= 0xFFFF_FFFF_FFFF_FFFF) by (nonlinear_arith)
            requires
                t == round_even(10 * (v as int), d as int),
                d >= 1024,
                v <= 0x8000_0000_0000_0000,
        ;
        let tenths: u64 = t as u64;
        decimal(tenths / 10).concat(".").concat(decimal(tenths % 10).as_str()).concat(" ").concat(name)
    }
}

/// An age in whole seconds: seconds, or minutes and seconds, or hours and minutes.
pub open spec fn age_text(s: int) -> Seq<char> {
    if s < 60 {
        dec(s) + "s"@
    } else if s < 3600 {
        dec(s / 60) + "m"@ + fixed(s % 60, 10, 2) + "s"@
    } else {
        dec(s / 3600) + "h"@ + fixed((s % 3600) / 60, 10, 2) + "m"@
    }
}

/// The whole seconds from `ts` to `now`; none before `ts`.
pub open spec fn age_secs(now: NumV, ts: NumV) -> int {
    let s = now.minus(ts).whole();
    if s < 0 { 0 } else { s }
}

/// How long ago `ts` was, seen from `now`.
pub fn fmt_age(now: &Num, ts: &Num) -> (r: String)
    requires
        now.wf(),
        ts.wf(),
    ensures
        r@ == age_text(age_secs(now@, ts@)),
{
    let w: i64 = now.minus(ts).whole();
    let s: u64 = if w < 0 { 0 } else { w as u64 };
    if s < 60 {
        decimal(s).concat("s")
    } else if s < 3600 {
        decimal(s / 60).concat("m").concat(fixed_digits(s % 60, 10, 2).as_str()).concat("s")
    } else {
        decimal(s / 3600).concat("h").concat(fixed_digits((s % 3600) / 60, 10, 2).as_str()).concat("m")
    }
}

/// Writes a large number.
pub(crate) fn decimal_wide(n: u128) -> (r: String)
    ensures
        r@ == dec(n as int),
    decreases n,
{
    if n <= 0xFFFF_FFFF_FFFF_FFFF {
        decimal(n as u64)
    } else {
        let mut r: String = decimal_wide(n / 10);
        r.push(crate::text::digit_char((n % 10) as u64));
        r
    }
}

/// A number with `k` parts to the whole, rounded to the nearest.
pub open spec fn parts(t: NumV, k: int) -> int {
    round_even(t.size * k, 0x1_0000_0000_0000_0000_0000)
}

/// A duration in seconds: milliseconds below a second, two decimals below ten seconds, one below
/// a minute, else minutes and seconds.
pub open spec fn dur_text(t: NumV) -> Seq<char> {
    if !t.above_zero() {
        "0ms"@
    } else if t.size < ONE {
        dec(thousandths(t.size)) + "ms"@
    } else if t.whole() < 10 {
        dec(parts(t, 100) / 100) + "."@ + fixed(parts(t, 100) % 100, 10, 2) + "s"@
    } else if t.whole() < 60 {
        one_decimal(parts(t, 10)) + "s"@
    } else {
        dec(minutes(t.size)) + "m"@ + sdec2(seconds_over(t.size, minutes(t.size))) + "s"@
    }
}

/// At least two characters, the sign among them.
pub open spec fn sdec2(n: int) -> Seq<char> {
    if 0 <= n < 10 { "0"@ + dec(n) } else if n < 0 { "-"@ + dec(-n) } else { dec(n) }
}

fn two_places(n: i128) -> (r: String)
    requires
        n > i128::MIN,
    ensures
        r@ == sdec2(n as int),
{
    if n < 0 {
        own("-").concat(decimal_wide((-n) as u128).as_str())
    } else if n < 10 {
        own("0").concat(decimal(n as u64).as_str())
    } else {
        decimal_wide(n as u128)
    }
}

/// How long something took, for people.
pub fn fmt_dur(t: &Num) -> (r: String)
    requires
        t.wide(),
    ensures
        r@ == dur_text(t@),
{
    if !t.above_zero() {
        own("0ms")
    } else if t.size.whole == 0 {
        decimal(thousandths_of(t.size)).concat("ms")
    } else if t.size.whole < 10 {
        let (w, c): (u128, u64) = scaled(t.size, 100);
        decimal(w as u64).concat(".").concat(fixed_digits(c, 10, 2).as_str()).concat("s")
    } else if t.size.whole < 60 {
        let (w, c): (u128, u64) = scaled(t.size, 10);
        decimal(w as u64).concat(".").concat(decimal(c).as_str()).concat("s")
    } else {
        let m: u128 = minutes_of(t.size);
        let s: i128 = seconds_over_of(t.size, m);
        decimal_wide(m).concat("m").concat(two_places(s).as_str()).concat("s")
    }
}

/// The flag and the colour of a session's status; the terminal's own for an unknown one.
pub open spec fn flag_of(status: Seq<char>) -> (Seq<char>, Color) {
    if status == "running"@ {
        ("R"@, Color::Green)
    } else if status == "finished"@ {
        ("F"@, Color::DarkGray)
    } else if status == "killed"@ {
        ("K"@, Color::Red)
    } else if status == "error"@ {
        ("E"@, Color::Red)
    } else {
        ("?"@, Color::Reset)
    }
}

pub fn session_flag(status: &str) -> (r: (&'static str, Color))
    ensures
        (r.0@, r.1) == flag_of(status@),
{
    if same(status, "running") {
        ("R", Color::Green)
    } else if same(status, "finished") {
        ("F", Color::DarkGray)
    } else if same(status, "killed") {
        ("K", Color::Red)
    } else if same(status, "error") {
        ("E", Color::Red)
    } else {
        ("?", Color::Reset)
    }
}

/// The colour of a line of a structural diff.
pub open spec fn tag_color(tag: Seq<char>) -> Color {
    if tag == "type"@ {
        Color::Yellow
    } else if tag == "hdr"@ || tag == "@"@ {
        Color::Cyan
    } else if tag == "+"@ {
        Color::Green
    } else if tag == "-"@ || tag == "err"@ {
        Color::Red
    } else {
        Color::DarkGray
    }
}

pub fn struct_color(tag: &str) -> (r: Color)
    ensures
        r == tag_color(tag@),
{
    if same(tag, "type") {
        Color::Yellow
    } else if same(tag, "hdr") || same(tag, "@") {
        Color::Cyan
    } else if same(tag, "+") {
        Color::Green
    } else if same(tag, "-") || same(tag, "err") {
        Color::Red
    } else {
        Color::DarkGray
    }
}

/// The title of a pane, set off by a space on each side.
pub fn title(base: &str, _focused: bool) -> (r: String)
    ensures
        r@ == " "@ + base@ + " "@,
{
    own(" ").concat(base).concat(" ")
}

/// The indent of a row of a tree: two spaces for each level.
pub fn tree_indent(depth: usize) -> (r: String)
    ensures
        r@ == rep(' ', 2 * depth),
{
    let mut r: String = String::new();
    let mut i: usize = 0;
    while i < depth
        invariant
            i <= depth,
            r@ == rep(' ', 2 * i),
        decreases depth - i,
    {
        r.push(' ');
        r.push(' ');
        i += 1;
        assert(r@ == rep(' ', 2 * i));
    }
    r
}

/// The end of a text that is too long: its last characters behind an ellipsis, `max` in all.
pub open spec fn tail_of(s: Seq<char>, max: int) -> Seq<char> {
    if s.len() <= max { s } else { "…"@ + s.skip(s.len() - (max - 1)) }
}

/// Keeps the end of a long path, where the file name and the line are.
pub fn tail_trunc(s: &str, max: usize) -> (r: String)
    requires
        max > 0 || s@.len() == 0,
    ensures
        r@ == tail_of(s@, max as int),
{
    let n: usize = s.unicode_len();
    if n <= max {
        return own(s);
    }
    let skip: usize = n - (max - 1);
    let t: &str = s.substring_char(skip, n);
    assert(t@ == s@.skip(skip as int));
    own("…").concat(t)
}

/// The first row shown of a list of `n` lines in a pane of height `h`: the cursor stands a third
/// of the way down, as far as the ends of the list let it.
pub open spec fn scroll_row(cursor: int, n: int, h: int) -> int {
    let visible = if h >= 2 { h - 2 } else { 0 };
    if visible == 0 || n <= visible {
        0
    } else {
        let want = if cursor >= visible / 3 { cursor - visible / 3 } else { 0 };
        if want <= n - visible { want } else { n - visible }
    }
}

/// Where to scroll a list so that its cursor is in view. The offset is what 16 bits hold of
/// the row.
pub fn scroll_for_cursor(cursor_line: usize, n_lines: usize, rect_h: u16) -> (r: u16)
    ensures
        r as int == scroll_row(cursor_line as int, n_lines as int, rect_h as int) % 65536,
{
    let visible: usize = if rect_h >= 2 { (rect_h - 2) as usize } else { 0 };
    if visible == 0 || n_lines <= visible {
        return 0;
    }
    let third: usize = visible / 3;
    let want: usize = if cursor_line >= third { cursor_line - third } else { 0 };
    let last: usize = n_lines - visible;
    let row: usize = if want <= last { want } else { last };
    assert(row as u16 == row % 65536) by (bit_vector);
    row as u16
}

/// A number of files.
pub open spec fn files_text(n: int) -> Seq<char> {
    if n == 1 { "1 file"@ } else { dec(n) + " files"@ }
}

pub fn bold_count(n: usize) -> (r: String)
    ensures
        r@ == files_text(n as int),
{
    if n == 1 {
        own("1 file")
    } else {
        decimal(n as u64).concat(" files")
    }
}

/// A recipe that has started and is not marked as finished.
pub open spec fn building(row: JV) -> bool {
    row.num_at("started_ts"@).above_zero() && row.num_at("ended_ts"@).is_zero()
}

/// Whether a build edge is being built.
pub fn edge_running(row: &Json) -> (r: bool)
    ensures
        r == building(row@),
{
    row.num_at("started_ts").above_zero() && row.num_at("ended_ts").is_zero()
}

/// Where a make variable was set: its location, under the directory of its make where that is
/// absolute and the location is not.
pub open spec fn site_of(r: JV) -> Seq<char> {
    let loc = r.str_or("loc"@, ""@);
    let mk = r.str_or("make"@, ""@);
    if has_prefix(mk, "/"@) && loc.len() > 0 && !has_prefix(loc, "/"@) {
        mk + "/"@ + loc
    } else {
        loc
    }
}

pub fn makevar_site(r: &Json) -> (s: String)
    ensures
        s@ == site_of(r@),
{
    let loc: &str = r.str_or("loc", "");
    let mk: &str = r.str_or("make", "");
    if starts_with(mk, "/") && !loc.is_empty() && !starts_with(loc, "/") {
        own(mk).concat("/").concat(loc)
    } else {
        own(loc)
    }
}

/// The letter of a kind of file.
pub open spec fn file_type(m: u32) -> char {
    let t = m & 0o170000u32;
    if t == 0o120000 {
        'l'
    } else if t == 0o040000 {
        'd'
    } else if t == 0o100000 {
        '-'
    } else if t == 0o060000 {
        'b'
    } else if t == 0o020000 {
        'c'
    } else if t == 0o010000 {
        'p'
    } else if t == 0o140000 {
        's'
    } else {
        '?'
    }
}

/// `c` where a permission is given, a dash where it is not.
pub open spec fn perm(m: u32, mask: u32, c: char) -> char {
    if m & mask != 0 { c } else { '-' }
}

/// A file mode as a directory listing shows it.
pub open spec fn mode_text(m: u32) -> Seq<char> {
    seq![
        file_type(m),
        perm(m, 0o400, 'r'),
        perm(m, 0o200, 'w'),
        perm(m, 0o100, 'x'),
        perm(m, 0o040, 'r'),
        perm(m, 0o020, 'w'),
        perm(m, 0o010, 'x'),
        perm(m, 0o004, 'r'),
        perm(m, 0o002, 'w'),
        perm(m, 0o001, 'x'),
    ]
}

fn perm_char(m: u32, mask: u32, c: char) -> (r: char)
    ensures
        r == perm(m, mask, c),
{
    if m & mask != 0 {
        c
    } else {
        '-'
    }
}

/// A file mode for people: the lowest 32 bits of `mode`.
pub fn filemode(mode: i64) -> (r: String)
    ensures
        r@ == mode_text(mode as u32),
{
    let m: u32 = mode as u32;
    let t: u32 = m & 0o170000u32;
    let ft: char = if t == 0o120000 {
        'l'
    } else if t == 0o040000 {
        'd'
    } else if t == 0o100000 {
        '-'
    } else if t == 0o060000 {
        'b'
    } else if t == 0o020000 {
        'c'
    } else if t == 0o010000 {
        'p'
    } else if t == 0o140000 {
        's'
    } else {
        '?'
    };
    let mut s: String = String::new();
    s.push(ft);
    s.push(perm_char(m, 0o400, 'r'));
    s.push(perm_char(m, 0o200, 'w'));
    s.push(perm_char(m, 0o100, 'x'));
    s.push(perm_char(m, 0o040, 'r'));
    s.push(perm_char(m, 0o020, 'w'));
    s.push(perm_char(m, 0o010, 'x'));
    s.push(perm_char(m, 0o004, 'r'));
    s.push(perm_char(m, 0o002, 'w'));
    s.push(perm_char(m, 0o001, 'x'));
    assert(s@ =~= mode_text(m));
    s
}

/// A natural number written in octal.
pub open spec fn oct(n: int) -> Seq<char>
    decreases n,
{
    if n < 8 {
        seq![crate::text::digit(n)]
    } else {
        oct(n / 8).push(crate::text::digit(n % 8))
    }
}

pub fn octal(n: u64) -> (r: String)
    ensures
        r@ == oct(n as int),
    decreases n,
{
    if n < 8 {
        let mut r: String = String::new();
        r.push(crate::text::digit_char(n));
        assert(r@ =~= oct(n as int));
        r
    } else {
        let mut r: String = octal(n / 8);
        r.push(crate::text::digit_char(n % 8));
        r
    }
}

/// The bytes `data[from..to]` in hex, with a space between two of them.
pub open spec fn hex_bytes(data: Seq<u8>, from: int, to: int) -> Seq<char>
    decreases to - from,
{
    if to <= from {
        Seq::empty()
    } else if to == from + 1 {
        fixed(data[from] as int, 16, 2)
    } else {
        hex_bytes(data, from, to - 1) + " "@ + fixed(data[to - 1] as int, 16, 2)
    }
}

/// The bytes `data[from..to]` as characters, a dot for what cannot be shown.
pub open spec fn ascii_bytes(data: Seq<u8>, from: int, to: int) -> Seq<char> {
    Seq::new(
        if to > from { (to - from) as nat } else { 0 },
        |i: int| if 0x20 <= data[from + i] < 0x7f { data[from + i] as char } else { '.' },
    )
}

/// The row of a hex dump that begins at the byte `i`.
pub open spec fn hex_row(data: Seq<u8>, i: int, n: int) -> Seq<char> {
    let to = if i + 16 <= n { i + 16 } else { n };
    fixed(i, 16, 4) + "  "@ + padr(hex_bytes(data, i, to), 48) + "  "@ + ascii_bytes(data, i, to)
}

/// The rows of a hex dump of the first 256 bytes, from the byte `i` on.
pub open spec fn hex_rows(data: Seq<u8>, i: int, n: int) -> Seq<Seq<char>>
    decreases (if n > i { n - i } else { 0 }),
{
    if i >= n {
        Seq::empty()
    } else {
        seq![hex_row(data, i, n)] + hex_rows(data, i + 16, n)
    }
}

/// A hex dump.
pub open spec fn hexdump(data: Seq<u8>) -> Seq<Seq<char>> {
    hex_rows(data, 0, if data.len() <= 256 { data.len() as int } else { 256 })
}

fn hex_part(data: &Vec<u8>, from: usize, to: usize) -> (r: String)
    requires
        from <= to <= data@.len(),
    ensures
        r@ == hex_bytes(data@, from as int, to as int),
{
    let mut r: String = String::new();
    let mut k: usize = from;
    while k < to
        invariant
            from <= k <= to <= data@.len(),
            r@ == hex_bytes(data@, from as int, k as int),
        decreases to - k,
    {
        if k > from {
            r.append(" ");
        }
        let d: String = fixed_digits(data[k] as u64, 16, 2);
        r.append(d.as_str());
        assert(r@ =~= hex_bytes(data@, from as int, k + 1));
        k += 1;
    }
    r
}

fn ascii_part(data: &Vec<u8>, from: usize, to: usize) -> (r: String)
    requires
        from <= to <= data@.len(),
    ensures
        r@ == ascii_bytes(data@, from as int, to as int),
{
    let mut r: String = String::new();
    let mut k: usize = from;
    while k < to
        invariant
            from <= k <= to <= data@.len(),
            r@ == ascii_bytes(data@, from as int, k as int),
        decreases to - k,
    {
        let b: u8 = data[k];
        r.push(if 0x20 <= b && b < 0x7f { b as char } else { '.' });
        assert(r@ =~= ascii_bytes(data@, from as int, k + 1));
        k += 1;
    }
    assert(r@ =~= ascii_bytes(data@, from as int, to as int));
    r
}

/// Appends a hex dump of the first 256 bytes, sixteen to a row: offset, hex, characters.
pub fn hexdump_into(data: &Vec<u8>, out: &mut Vec<String>)
    ensures
        strs(final(out)@) == strs(old(out)@) + hexdump(data@),
{
    let n: usize = if data.len() <= 256 { data.len() } else { 256 };
    let mut i: usize = 0;
    let ghost before = strs(out@);
    assert(strs(out@) + hex_rows(data@, 0, n as int) =~= before + hexdump(data@));
    while i < n
        invariant
            n <= data@.len(),
            n <= 256,
            i <= n + 15,
            strs(out@) + hex_rows(data@, i as int, n as int) == before + hexdump(data@),
        decreases n + 16 - i,
    {
        let to: usize = if i + 16 <= n { i + 16 } else { n };
        let hex: String = hex_part(data, i, to);
        let row: String = fixed_digits(i as u64, 16, 4).concat("  ").concat(pad_right(hex.as_str(), 48).as_str()).concat(
            "  ",
        ).concat(ascii_part(data, i, to).as_str());
        let ghost was = strs(out@);
        out.push(row);
        assert(strs(out@) =~= was.push(hex_row(data@, i as int, n as int)));
        assert(strs(out@) + hex_rows(data@, i + 16, n as int) =~= was + hex_rows(data@, i as int, n as int));
        i += 16;
    }
    assert(strs(out@) =~= before + hexdump(data@));
}

/// The row of the cursor is one of those that are shown.
pub proof fn law_cursor_is_in_view(cursor: int, n: int, h: int)
    requires
        0 <= cursor < n,
        h > 2,
    ensures
        scroll_row(cursor, n, h) <= cursor < scroll_row(cursor, n, h) + (h - 2),
{
}

/// A text that is too long for its place fits into it by its end.
pub proof fn law_shortened_text_fits(s: Seq<char>, max: int)
    requires
        max > 0,
    ensures
        tail_of(s, max).len() <= max,
        s.len() > max ==> tail_of(s, max).skip(1) == s.skip(s.len() - (max - 1)),
{
    reveal_strlit("…");
    assert(s.len() > max ==> tail_of(s, max).skip(1) =~= s.skip(s.len() - (max - 1)));
}

} // verus!
