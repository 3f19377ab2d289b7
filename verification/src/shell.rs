//! Command lines: an argument list joined into a line that can be edited, and a typed line
//! split into an argument list.

use vstd::prelude::*;

use crate::text::{chars, is_whitespace};
#[allow(unused_imports)]
use crate::text::{is_ws, joined, join, strs};

verus! {

/// The words of `s` where `q` is the quote that is open, `cur` the word that is being read and
/// `in_word` whether a word has begun.
pub open spec fn split_from(s: Seq<char>, q: Option<char>, cur: Seq<char>, in_word: bool) -> Seq<Seq<char>>
    decreases s.len(),
{
    if s.len() == 0 {
        if in_word { seq![cur] } else { Seq::empty() }
    } else {
        match q {
            Some(c) => if s[0] == c {
                split_from(s.drop_first(), None, cur, in_word)
            } else {
                split_from(s.drop_first(), q, cur.push(s[0]), in_word)
            },
            None => if s[0] == '\'' || s[0] == '"' {
                split_from(s.drop_first(), Some(s[0]), cur, true)
            } else if s[0] == '\\' && s.len() > 1 && s[1] == '\'' {
                split_from(s.skip(2), None, cur.push('\''), true)
            } else if is_ws(s[0]) {
                if in_word {
                    seq![cur] + split_from(s.drop_first(), None, Seq::empty(), false)
                } else {
                    split_from(s.drop_first(), None, cur, false)
                }
            } else {
                split_from(s.drop_first(), None, cur.push(s[0]), true)
            },
        }
    }
}

/// The words of a command line: separated by whitespace outside of quotes, single and double
/// quotes taken off. Outside of quotes a single quote behind a backslash stands for itself.
pub open spec fn split_words_of(s: Seq<char>) -> Seq<Seq<char>> {
    split_from(s, None, Seq::empty(), false)
}

/// Splits a typed command line into its words, honouring single and double quotes, and a single
/// quote behind a backslash.
pub fn shell_split(s: &str) -> (r: Vec<String>)
    ensures
        strs(r@) == split_words_of(s@),
{
    let v: Vec<char> = chars(s);
    let n: usize = v.len();
    let mut out: Vec<String> = Vec::new();
    let mut cur: String = String::new();
    let mut in_word: bool = false;
    let mut quote: Option<char> = None;
    let mut i: usize = 0;
    assert(v@.skip(0) == s@);
    assert(strs(out@) + split_from(v@.skip(0), quote, cur@, in_word) == split_words_of(s@));
    while i < n
        invariant
            i <= n == v@.len(),
            strs(out@) + split_from(v@.skip(i as int), quote, cur@, in_word) == split_words_of(s@),
        decreases n - i,
    {
        let c: char = v[i];
        let ghost rest = v@.skip(i as int);
        assert(rest.drop_first() == v@.skip(i + 1));
        match quote {
            Some(q) => {
                if c == q {
                    quote = None;
                } else {
                    cur.push(c);
                }
            },
            None => {
                if c == '\'' || c == '"' {
                    in_word = true;
                    quote = Some(c);
                } else if c == '\\' && i + 1 < n && v[i + 1] == '\'' {
                    assert(rest.skip(2) =~= v@.skip(i + 2));
                    assert(rest[1] == '\'');
                    in_word = true;
                    cur.push('\'');
                    i += 1;
                } else if is_whitespace(c) {
                    if in_word {
                        let ghost before = out@;
                        let ghost word = cur@;
                        out.push(cur);
                        assert(strs(out@) == strs(before).push(word));
                        assert(strs(out@) + split_from(v@.skip(i + 1), None, Seq::empty(), false) == strs(before)
                            + split_from(rest, None, word, true));
                        cur = String::new();
                        in_word = false;
                    }
                } else {
                    in_word = true;
                    cur.push(c);
                }
            },
        }
        i += 1;
    }
    assert(v@.skip(n as int).len() == 0);
    if in_word {
        let ghost before = out@;
        out.push(cur);
        assert(strs(out@) == strs(before) + seq![out@.last()@]);
    }
    assert(strs(out@) == split_words_of(s@));
    out
}

/// A word needs quotes: it is empty, or holds whitespace or a quote.
pub open spec fn needs_quotes(a: Seq<char>) -> bool {
    a.len() == 0 || exists|i: int| 0 <= i < a.len() && (is_ws(#[trigger] a[i]) || a[i] == '\'' || a[i] == '"')
}

/// `a` with each single quote written as a closing quote, an escaped quote and an opening quote.
pub open spec fn escaped(a: Seq<char>) -> Seq<char>
    decreases a.len(),
{
    if a.len() == 0 {
        Seq::empty()
    } else if a.last() == '\'' {
        escaped(a.drop_last()) + "'\\''"@
    } else {
        escaped(a.drop_last()).push(a.last())
    }
}

/// A word as it stands in a command line.
pub open spec fn quoted(a: Seq<char>) -> Seq<char> {
    if needs_quotes(a) {
        seq!['\''] + escaped(a) + seq!['\'']
    } else {
        a
    }
}

/// The command line of an argument list.
pub open spec fn line_of(argv: Seq<Seq<char>>) -> Seq<char> {
    joined(argv.map_values(|a: Seq<char>| quoted(a)), " "@)
}

fn quote_word(a: &str) -> (r: String)
    ensures
        r@ == quoted(a@),
{
    let v: Vec<char> = chars(a);
    let n: usize = v.len();
    let mut need: bool = n == 0;
    let mut esc: String = String::new();
    let mut i: usize = 0;
    while i < n
        invariant
            i <= n == v@.len(),
            v@ == a@,
            need == (n == 0 || exists|k: int|
                0 <= k < i && (is_ws(#[trigger] a@[k]) || a@[k] == '\'' || a@[k] == '"')),
            esc@ == escaped(a@.take(i as int)),
        decreases n - i,
    {
        let c: char = v[i];
        assert(a@.take(i + 1).drop_last() == a@.take(i as int));
        assert(a@[i as int] == c);
        if is_whitespace(c) || c == '\'' || c == '"' {
            need = true;
        }
        if c == '\'' {
            esc.append("'\\''");
        } else {
            esc.push(c);
        }
        i += 1;
    }
    assert(a@.take(n as int) == a@);
    if need {
        let mut r: String = String::new();
        r.push('\'');
        r.append(esc.as_str());
        r.push('\'');
        assert(r@ == seq!['\''] + escaped(a@) + seq!['\'']);
        r
    } else {
        assert(!needs_quotes(a@));
        crate::text::own(a)
    }
}

/// Joins an argument list into a command line that can be edited, quoting the words that need
/// it.
pub fn shell_join(argv: &Vec<String>) -> (r: String)
    ensures
        r@ == line_of(strs(argv@)),
{
    let mut words: Vec<String> = Vec::new();
    let mut i: usize = 0;
    while i < argv.len()
        invariant
            i <= argv@.len(),
            words@.len() == i,
            forall|k: int| 0 <= k < i ==> words@[k]@ == quoted(argv@[k]@),
        decreases argv@.len() - i,
    {
        words.push(quote_word(argv[i].as_str()));
        i += 1;
    }
    assert(strs(words@) == strs(argv@).map_values(|a: Seq<char>| quoted(a)));
    join(&words, " ")
}

/// Inside a single quote an escaped word is read as the word, and the quote stays open.
proof fn lemma_split_escaped(a: Seq<char>, rest: Seq<char>, cur: Seq<char>)
    ensures
        split_from(escaped(a) + rest, Some('\''), cur, true) == split_from(rest, Some('\''), cur + a, true),
    decreases a.len(),
{
    if a.len() == 0 {
        assert(escaped(a) + rest =~= rest);
        assert(cur + a =~= cur);
    } else {
        let b = a.drop_last();
        let c = a.last();
        reveal_strlit("'\\''");
        let e = if c == '\'' { "'\\''"@ } else { seq![c] };
        let s = e + rest;
        assert(escaped(a) + rest =~= escaped(b) + s);
        lemma_split_escaped(b, s, cur);
        assert(cur + a =~= (cur + b).push(c));
        if c == '\'' {
            let s1 = s.drop_first();
            let s2 = s1.skip(2);
            assert(s[0] == '\'');
            assert(s1[0] == '\\' && s1[1] == '\'' && s1.len() > 1);
            assert(s2[0] == '\'');
            assert(s2.drop_first() =~= rest);
            assert(split_from(s, Some('\''), cur + b, true) == split_from(s1, None, cur + b, true));
            assert(split_from(s1, None, cur + b, true) == split_from(s2, None, (cur + b).push('\''), true));
            assert(split_from(s2, None, (cur + b).push('\''), true) == split_from(
                rest,
                Some('\''),
                (cur + b).push('\''),
                true,
            ));
        } else {
            assert(s[0] == c);
            assert(s.drop_first() =~= rest);
        }
    }
}

/// Outside of quotes, characters that are neither quotes nor whitespace belong to the word.
proof fn lemma_split_plain(a: Seq<char>, rest: Seq<char>, cur: Seq<char>, in_word: bool)
    requires
        a.len() > 0,
        !needs_quotes(a),
        rest.len() > 0 ==> rest[0] != '\'',
    ensures
        split_from(a + rest, None, cur, in_word) == split_from(rest, None, cur + a, true),
    decreases a.len(),
{
    let s = a + rest;
    assert(s[0] == a[0]);
    assert(s.drop_first() == a.drop_first() + rest);
    assert(s.len() > 1 ==> s[1] == if a.len() > 1 { a[1] } else { rest[0] });
    if a.len() == 1 {
        assert(s.drop_first() == rest);
        assert(cur.push(a[0]) == cur + a);
    } else {
        let t = a.drop_first();
        assert forall|i: int| 0 <= i < t.len() implies !(is_ws(#[trigger] t[i]) || t[i] == '\'' || t[i] == '"') by {
            assert(t[i] == a[i + 1]);
        }
        lemma_split_plain(t, rest, cur.push(a[0]), true);
        assert(cur.push(a[0]) + t == cur + a);
    }
}

/// A quoted word is read back as the word.
proof fn lemma_split_word(a: Seq<char>, rest: Seq<char>)
    requires
        rest.len() > 0 ==> rest[0] != '\'',
    ensures
        split_from(quoted(a) + rest, None, Seq::empty(), false) == split_from(rest, None, a, true),
{
    let e = Seq::<char>::empty();
    assert(e + a =~= a);
    if needs_quotes(a) {
        let s = quoted(a) + rest;
        let tail = seq!['\''] + rest;
        assert(s[0] == '\'');
        assert(s.drop_first() =~= escaped(a) + tail);
        lemma_split_escaped(a, tail, e);
        assert(tail.drop_first() =~= rest);
    } else {
        lemma_split_plain(a, rest, e, false);
    }
}

proof fn lemma_joined_front(v: Seq<Seq<char>>, sep: Seq<char>)
    requires
        v.len() >= 2,
    ensures
        joined(v, sep) == v[0] + sep + joined(v.drop_first(), sep),
    decreases v.len(),
{
    if v.len() == 2 {
        assert(joined(v.drop_last(), sep) == v[0]);
        assert(v.drop_first().len() == 1);
    } else {
        lemma_joined_front(v.drop_last(), sep);
        assert(v.drop_last().drop_first() == v.drop_first().drop_last());
        assert(joined(v, sep) == v[0] + sep + (joined(v.drop_last().drop_first(), sep) + sep + v.last()));
    }
}

/// A joined argument list is split into the same argument list again.
pub proof fn law_split_inverts_join(argv: Seq<Seq<char>>)
    ensures
        split_words_of(line_of(argv)) == argv,
    decreases argv.len(),
{
    let e = Seq::<char>::empty();
    let q = argv.map_values(|a: Seq<char>| quoted(a));
    reveal_strlit(" ");
    if argv.len() == 0 {
        assert(split_words_of(line_of(argv)) == argv);
    } else if argv.len() == 1 {
        lemma_split_word(argv[0], e);
        assert(q[0] + e == line_of(argv));
        assert(split_words_of(line_of(argv)) == argv);
    } else {
        lemma_joined_front(q, " "@);
        let rest = argv.drop_first();
        assert(q.drop_first() == rest.map_values(|a: Seq<char>| quoted(a)));
        let tail = " "@ + line_of(rest);
        assert(line_of(argv) == q[0] + tail);
        lemma_split_word(argv[0], tail);
        assert(tail[0] == ' ');
        assert(tail.drop_first() == line_of(rest));
        law_split_inverts_join(rest);
        assert(seq![argv[0]] + rest == argv);
    }
}

} // verus!
