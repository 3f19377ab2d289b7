//! Text: the character-level operations that the rest of the library is written with.
//! A string is modelled by the sequence of its characters.

use vstd::prelude::*;

verus! {

/// `String::push` appends one character.
pub assume_specification[ String::push ](s: &mut String, c: char)
    ensures
        final(s)@ == old(s)@.push(c),
;

/// `String::pop` takes the last character off and returns it; on an empty string it
/// returns `None` and changes nothing.
pub assume_specification[ String::pop ](s: &mut String) -> (r: Option<char>)
    ensures
        old(s)@.len() == 0 ==> r is None && final(s)@ == old(s)@,
        old(s)@.len() > 0 ==> r == Some(old(s)@.last()) && final(s)@ == old(s)@.drop_last(),
;

/// `str == str`: two string slices are equal when they hold the same characters.
#[verifier::external_body]
pub(crate) fn same(a: &str, b: &str) -> (r: bool)
    ensures
        r == (a@ == b@),
{
    a == b
}

/// The characters of each string of a list.
pub open spec fn strs(v: Seq<String>) -> Seq<Seq<char>> {
    v.map_values(|s: String| s@)
}

/// An owned copy of a string slice.
pub fn own(s: &str) -> (r: String)
    ensures
        r@ == s@,
{
    s.to_owned()
}

/// The characters of a string as a vector.
pub fn chars(s: &str) -> (v: Vec<char>)
    ensures
        v@ == s@,
{
    let mut v: Vec<char> = Vec::new();
    for c in it: s.chars()
        invariant
            it.seq() == s@,
            v@ == s@.take(it.index() as int),
    {
        v.push(c);
        assert(s@.take(it.index() + 1) == s@.take(it.index() as int).push(c));
    }
    assert(s@.take(s@.len() as int) == s@);
    v
}

/// The string of the characters `v[from..to]`.
pub fn from_chars(v: &Vec<char>, from: usize, to: usize) -> (r: String)
    requires
        from <= to <= v@.len(),
    ensures
        r@ == v@.subrange(from as int, to as int),
{
    let mut r: String = String::new();
    let mut i: usize = from;
    while i < to
        invariant
            from <= i <= to <= v@.len(),
            r@ == v@.subrange(from as int, i as int),
        decreases to - i,
    {
        r.push(v[i]);
        assert(v@.subrange(from as int, i + 1) == v@.subrange(from as int, i as int).push(v@[i as int]));
        i += 1;
    }
    r
}

/// The number of characters.
pub fn count(s: &str) -> (n: usize)
    ensures
        n == s@.len(),
{
    s.unicode_len()
}

/// `n` copies of one character.
pub open spec fn rep(c: char, n: int) -> Seq<char> {
    Seq::new(if n > 0 { n as nat } else { 0 }, |i: int| c)
}

/// A string of `n` copies of `c`.
pub fn repeat_char(c: char, n: usize) -> (r: String)
    ensures
        r@ == rep(c, n as int),
{
    let mut r: String = String::new();
    let mut i: usize = 0;
    while i < n
        invariant
            i <= n,
            r@ == rep(c, i as int),
        decreases n - i,
    {
        r.push(c);
        i += 1;
        assert(r@ == rep(c, i as int));
    }
    r
}

/// `s` filled up with spaces on the right to a width of `w` characters.
pub open spec fn padr(s: Seq<char>, w: int) -> Seq<char> {
    s + rep(' ', w - s.len())
}

/// `s` filled up with spaces on the left to a width of `w` characters.
pub open spec fn padl(s: Seq<char>, w: int) -> Seq<char> {
    rep(' ', w - s.len()) + s
}

pub fn pad_right(s: &str, w: usize) -> (r: String)
    ensures
        r@ == padr(s@, w as int),
{
    let n: usize = s.unicode_len();
    let fill: usize = if n < w { w - n } else { 0 };
    assert(rep(' ', fill as int) == rep(' ', w - s@.len()));
    own(s).concat(repeat_char(' ', fill).as_str())
}

pub fn pad_left(s: &str, w: usize) -> (r: String)
    ensures
        r@ == padl(s@, w as int),
{
    let n: usize = s.unicode_len();
    let fill: usize = if n < w { w - n } else { 0 };
    assert(rep(' ', fill as int) == rep(' ', w - s@.len()));
    repeat_char(' ', fill).concat(s)
}

/// The first `n` characters, or all of them if there are fewer.
pub open spec fn first(s: Seq<char>, n: int) -> Seq<char> {
    if n >= s.len() { s } else { s.take(if n > 0 { n } else { 0 }) }
}

pub fn take_chars(s: &str, n: usize) -> (r: String)
    ensures
        r@ == first(s@, n as int),
{
    if n >= s.unicode_len() {
        own(s)
    } else {
        let t: &str = s.substring_char(0, n);
        assert(t@ == s@.take(n as int));
        own(t)
    }
}

/// The digit of a value below sixteen, in lower case.
pub open spec fn digit(d: int) -> char {
    if d == 0 { '0' } else if d == 1 { '1' } else if d == 2 { '2' } else if d == 3 { '3' }
    else if d == 4 { '4' } else if d == 5 { '5' } else if d == 6 { '6' } else if d == 7 { '7' }
    else if d == 8 { '8' } else if d == 9 { '9' } else if d == 10 { 'a' } else if d == 11 { 'b' }
    else if d == 12 { 'c' } else if d == 13 { 'd' } else if d == 14 { 'e' } else { 'f' }
}

pub fn digit_char(d: u64) -> (c: char)
    requires
        d < 16,
    ensures
        c == digit(d as int),
{
    match d {
        0 => '0',
        1 => '1',
        2 => '2',
        3 => '3',
        4 => '4',
        5 => '5',
        6 => '6',
        7 => '7',
        8 => '8',
        9 => '9',
        10 => 'a',
        11 => 'b',
        12 => 'c',
        13 => 'd',
        14 => 'e',
        _ => 'f',
    }
}

/// A natural number written in decimal.
pub open spec fn dec(n: int) -> Seq<char>
    decreases n,
{
    if n < 10 {
        seq![digit(n)]
    } else {
        dec(n / 10).push(digit(n % 10))
    }
}

/// An integer written in decimal, with a minus sign where it is negative.
pub open spec fn sdec(n: int) -> Seq<char> {
    if n < 0 { seq!['-'] + dec(-n) } else { dec(n) }
}

pub fn decimal(n: u64) -> (r: String)
    ensures
        r@ == dec(n as int),
    decreases n,
{
    if n < 10 {
        let mut r: String = String::new();
        r.push(digit_char(n));
        assert(r@ == dec(n as int));
        r
    } else {
        let mut r: String = decimal(n / 10);
        r.push(digit_char(n % 10));
        r
    }
}

pub fn decimal_signed(n: i64) -> (r: String)
    ensures
        r@ == sdec(n as int),
{
    if n < 0 {
        let m: u64 = if n == i64::MIN { 9223372036854775808 } else { (-n) as u64 };
        let mut r: String = String::new();
        r.push('-');
        assert(r@ == seq!['-']);
        r.concat(decimal(m).as_str())
    } else {
        decimal(n as u64)
    }
}

/// A natural number written in base `b`, in exactly `w` digits (the lowest ones).
pub open spec fn fixed(n: int, b: int, w: nat) -> Seq<char>
    decreases w,
{
    if w == 0 {
        Seq::empty()
    } else {
        fixed(n / b, b, (w - 1) as nat).push(digit(n % b))
    }
}

pub fn fixed_digits(n: u64, b: u64, w: usize) -> (r: String)
    requires
        2 <= b <= 16,
    ensures
        r@ == fixed(n as int, b as int, w as nat),
    decreases w,
{
    if w == 0 {
        String::new()
    } else {
        let mut r: String = fixed_digits(n / b, b, w - 1);
        r.push(digit_char(n % b));
        r
    }
}

/// The characters that Unicode gives the White_Space property.
pub open spec fn is_ws(c: char) -> bool {
    ||| '\u{9}' <= c <= '\u{d}'
    ||| c == ' '
    ||| c == '\u{85}'
    ||| c == '\u{a0}'
    ||| c == '\u{1680}'
    ||| '\u{2000}' <= c <= '\u{200a}'
    ||| c == '\u{2028}'
    ||| c == '\u{2029}'
    ||| c == '\u{202f}'
    ||| c == '\u{205f}'
    ||| c == '\u{3000}'
}

pub fn is_whitespace(c: char) -> (r: bool)
    ensures
        r == is_ws(c),
{
    ('\u{9}' <= c && c <= '\u{d}') || c == ' ' || c == '\u{85}' || c == '\u{a0}' || c == '\u{1680}'
        || ('\u{2000}' <= c && c <= '\u{200a}') || c == '\u{2028}' || c == '\u{2029}' || c == '\u{202f}'
        || c == '\u{205f}' || c == '\u{3000}'
}

/// `s` without the whitespace that it starts with.
pub open spec fn trim_l(s: Seq<char>) -> Seq<char>
    decreases s.len(),
{
    if s.len() > 0 && is_ws(s[0]) { trim_l(s.drop_first()) } else { s }
}

/// `s` without the whitespace that it ends with.
pub open spec fn trim_r(s: Seq<char>) -> Seq<char>
    decreases s.len(),
{
    if s.len() > 0 && is_ws(s.last()) { trim_r(s.drop_last()) } else { s }
}

/// `s` without the whitespace at both ends.
pub open spec fn trimmed(s: Seq<char>) -> Seq<char> {
    trim_r(trim_l(s))
}

pub fn trim(s: &str) -> (r: String)
    ensures
        r@ == trimmed(s@),
{
    let v: Vec<char> = chars(s);
    let n: usize = v.len();
    let mut a: usize = 0;
    assert(v@.subrange(0, n as int) == s@);
    while a < n && is_whitespace(v[a])
        invariant
            a <= n == v@.len(),
            trim_l(s@) == trim_l(v@.subrange(a as int, n as int)),
        decreases n - a,
    {
        assert(v@.subrange(a as int, n as int).drop_first() == v@.subrange(a + 1, n as int));
        a += 1;
    }
    assert(trim_l(s@) == v@.subrange(a as int, n as int));
    let mut b: usize = n;
    while b > a && is_whitespace(v[b - 1])
        invariant
            a <= b <= n == v@.len(),
            trim_r(trim_l(s@)) == trim_r(v@.subrange(a as int, b as int)),
        decreases b,
    {
        assert(v@.subrange(a as int, b as int).drop_last() == v@.subrange(a as int, b - 1));
        b -= 1;
    }
    from_chars(&v, a, b)
}

pub fn trim_start(s: &str) -> (r: String)
    ensures
        r@ == trim_l(s@),
{
    let v: Vec<char> = chars(s);
    let n: usize = v.len();
    let mut a: usize = 0;
    assert(v@.subrange(0, n as int) =~= s@);
    while a < n && is_whitespace(v[a])
        invariant
            a <= n == v@.len(),
            trim_l(s@) == trim_l(v@.subrange(a as int, n as int)),
        decreases n - a,
    {
        assert(v@.subrange(a as int, n as int).drop_first() =~= v@.subrange(a + 1, n as int));
        a += 1;
    }
    assert(trim_l(s@) == v@.subrange(a as int, n as int));
    from_chars(&v, a, n)
}

/// The whitespace-separated words of `s`; `cur` is the word that is being read.
pub open spec fn words_from(s: Seq<char>, cur: Seq<char>) -> Seq<Seq<char>>
    decreases s.len(),
{
    if s.len() == 0 {
        if cur.len() > 0 { seq![cur] } else { Seq::empty() }
    } else if is_ws(s[0]) {
        if cur.len() > 0 {
            seq![cur] + words_from(s.drop_first(), Seq::empty())
        } else {
            words_from(s.drop_first(), Seq::empty())
        }
    } else {
        words_from(s.drop_first(), cur.push(s[0]))
    }
}

/// The words of `s`.
pub open spec fn words(s: Seq<char>) -> Seq<Seq<char>> {
    words_from(s, Seq::empty())
}

pub fn split_words(s: &str) -> (r: Vec<String>)
    ensures
        strs(r@) == words(s@),
{
    let v: Vec<char> = chars(s);
    let n: usize = v.len();
    let mut out: Vec<String> = Vec::new();
    let mut cur: String = String::new();
    let mut i: usize = 0;
    assert(v@.skip(0) == s@);
    assert(strs(out@) + words_from(v@.skip(0), cur@) == words(s@));
    while i < n
        invariant
            i <= n == v@.len(),
            strs(out@) + words_from(v@.skip(i as int), cur@) == words(s@),
        decreases n - i,
    {
        let c: char = v[i];
        let ghost rest = v@.skip(i as int);
        assert(rest.drop_first() == v@.skip(i + 1));
        if is_whitespace(c) {
            if !cur.as_str().is_empty() {
                let ghost before = out@;
                out.push(cur);
                assert(strs(out@) == strs(before).push(out@.last()@));
                assert(strs(out@) + words_from(v@.skip(i + 1), Seq::empty())
                    == strs(before) + words_from(rest, cur@));
                cur = String::new();
            }
            assert(cur@ == Seq::<char>::empty());
        } else {
            cur.push(c);
        }
        i += 1;
    }
    assert(v@.skip(n as int).len() == 0);
    if !cur.as_str().is_empty() {
        let ghost before = out@;
        out.push(cur);
        assert(strs(out@) == strs(before) + seq![out@.last()@]);
    }
    assert(strs(out@) == words(s@));
    out
}

/// The list joined with `sep` between its items.
pub open spec fn joined(v: Seq<Seq<char>>, sep: Seq<char>) -> Seq<char>
    decreases v.len(),
{
    if v.len() == 0 {
        Seq::empty()
    } else if v.len() == 1 {
        v[0]
    } else {
        joined(v.drop_last(), sep) + sep + v.last()
    }
}

pub fn join(v: &Vec<String>, sep: &str) -> (r: String)
    ensures
        r@ == joined(strs(v@), sep@),
{
    let n: usize = v.len();
    let mut r: String = String::new();
    let mut i: usize = 0;
    while i < n
        invariant
            i <= n == v@.len(),
            r@ == joined(strs(v@).take(i as int), sep@),
        decreases n - i,
    {
        assert(strs(v@).take(i + 1).drop_last() == strs(v@).take(i as int));
        if i > 0 {
            r.append(sep);
        }
        r.append(v[i].as_str());
        assert(r@ == joined(strs(v@).take(i + 1), sep@));
        i += 1;
    }
    assert(strs(v@).take(n as int) == strs(v@));
    r
}

/// A copy of a list of strings.
pub fn clone_strings(v: &Vec<String>) -> (r: Vec<String>)
    ensures
        strs(r@) == strs(v@),
        r@.len() == v@.len(),
{
    let mut r: Vec<String> = Vec::new();
    let mut i: usize = 0;
    while i < v.len()
        invariant
            i <= v@.len(),
            r@.len() == i,
            forall|k: int| 0 <= k < i ==> r@[k]@ == v@[k]@,
        decreases v@.len() - i,
    {
        r.push(v[i].clone());
        i += 1;
    }
    assert(strs(r@) == strs(v@));
    r
}

/// `s` starts with `p`.
pub open spec fn has_prefix(s: Seq<char>, p: Seq<char>) -> bool {
    p.len() <= s.len() && s.take(p.len() as int) == p
}

pub fn starts_with(s: &str, p: &str) -> (r: bool)
    ensures
        r == has_prefix(s@, p@),
{
    let n: usize = p.unicode_len();
    if n > s.unicode_len() {
        false
    } else {
        let t: &str = s.substring_char(0, n);
        assert(t@ == s@.take(n as int));
        same(t, p)
    }
}

/// `s` ends with `p`.
pub open spec fn has_suffix(s: Seq<char>, p: Seq<char>) -> bool {
    p.len() <= s.len() && s.skip(s.len() - p.len()) == p
}

pub fn ends_with(s: &str, p: &str) -> (r: bool)
    ensures
        r == has_suffix(s@, p@),
{
    let n: usize = p.unicode_len();
    let m: usize = s.unicode_len();
    if n > m {
        false
    } else {
        let t: &str = s.substring_char(m - n, m);
        assert(t@ == s@.skip(s@.len() - p@.len()));
        same(t, p)
    }
}

/// `p` stands in `s` from the character `i` on.
pub open spec fn stands_at(s: Seq<char>, p: Seq<char>, i: int) -> bool {
    0 <= i && i + p.len() <= s.len() && s.subrange(i, i + p.len()) == p
}

/// `p` stands somewhere in `s`.
pub open spec fn holds_text(s: Seq<char>, p: Seq<char>) -> bool {
    exists|i: int| stands_at(s, p, i)
}

pub fn contains(s: &str, p: &str) -> (r: bool)
    ensures
        r == holds_text(s@, p@),
{
    let n: usize = s.unicode_len();
    let m: usize = p.unicode_len();
    if m > n {
        return false;
    }
    let mut i: usize = 0;
    while i <= n - m
        invariant
            n == s@.len(),
            m == p@.len(),
            m <= n,
            i <= n - m + 1,
            forall|k: int| 0 <= k < i ==> !stands_at(s@, p@, k),
        decreases n - m + 1 - i,
    {
        let t: &str = s.substring_char(i, i + m);
        if same(t, p) {
            assert(stands_at(s@, p@, i as int));
            return true;
        }
        if i == n - m {
            assert forall|k: int| !stands_at(s@, p@, k) by {
                if k == i {
                }
            }
            return false;
        }
        i += 1;
    }
    false
}

/// The lines of a text: what stands between line feeds, without a last empty piece, each
/// without a carriage return at its end.
pub open spec fn lines_from(s: Seq<char>, cur: Seq<char>) -> Seq<Seq<char>>
    decreases s.len(),
{
    if s.len() == 0 {
        if cur.len() > 0 { seq![cur] } else { Seq::empty() }
    } else if s[0] == '\n' {
        seq![drop_cr(cur)] + lines_from(s.drop_first(), Seq::empty())
    } else {
        lines_from(s.drop_first(), cur.push(s[0]))
    }
}

pub open spec fn drop_cr(s: Seq<char>) -> Seq<char> {
    if s.len() > 0 && s.last() == '\r' { s.drop_last() } else { s }
}

pub open spec fn lines(s: Seq<char>) -> Seq<Seq<char>> {
    lines_from(s, Seq::empty())
}

pub fn split_lines(s: &str) -> (r: Vec<String>)
    ensures
        strs(r@) == lines(s@),
{
    let v: Vec<char> = chars(s);
    let n: usize = v.len();
    let mut out: Vec<String> = Vec::new();
    let mut cur: String = String::new();
    let mut i: usize = 0;
    assert(v@.skip(0) == s@);
    assert(strs(out@) + lines_from(v@.skip(0), cur@) == lines(s@));
    while i < n
        invariant
            i <= n == v@.len(),
            strs(out@) + lines_from(v@.skip(i as int), cur@) == lines(s@),
        decreases n - i,
    {
        let c: char = v[i];
        let ghost rest = v@.skip(i as int);
        assert(rest.drop_first() == v@.skip(i + 1));
        if c == '\n' {
            let ghost before = out@;
            let ghost word = cur@;
            let k: usize = cur.as_str().unicode_len();
            if k > 0 && cur.as_str().get_char(k - 1) == '\r' {
                let _ = cur.pop();
            }
            assert(cur@ == drop_cr(word));
            out.push(cur);
            assert(strs(out@) == strs(before).push(drop_cr(word)));
            assert(strs(out@) + lines_from(v@.skip(i + 1), Seq::empty()) == strs(before) + lines_from(
                rest,
                word,
            ));
            cur = String::new();
        } else {
            cur.push(c);
        }
        i += 1;
    }
    assert(v@.skip(n as int).len() == 0);
    if !cur.as_str().is_empty() {
        let ghost before = out@;
        out.push(cur);
        assert(strs(out@) == strs(before) + seq![out@.last()@]);
    }
    assert(strs(out@) == lines(s@));
    out
}

} // verus!
