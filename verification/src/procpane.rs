//! The processes of a box: their tree, and what is known of the one at the cursor.

use vstd::prelude::*;

use crate::app::App;
#[allow(unused_imports)]
use crate::app::pairs_v;
use crate::boxes::le_text;
#[allow(unused_imports)]
use crate::boxes::text_le;
use crate::json::Json;
#[allow(unused_imports)]
use crate::json::{jvs, JV};
use crate::lists::fit_usize;
#[allow(unused_imports)]
use crate::lists::fit;
use crate::render::{indent_text, last_part, nothing_line, row_depths, texts_of};
#[allow(unused_imports)]
use crate::render::{after_last, depths_of, indent_of, nothing_text, texts_at};
use crate::style::{bold, cursor, dim, fg, fg_bg_bold, fg_bold, fg_dim, plain, raw, styled, Color, Line, Style, Text};
#[allow(unused_imports)]
use crate::style::{raw_line, styled_line, LineV};
use crate::text::{decimal_signed, join, own, pad_left};
#[allow(unused_imports)]
use crate::text::{joined, padl, sdec, strs};
use crate::tree::collapse_chains;
#[allow(unused_imports)]
use crate::tree::{in_chain, shown_depth};

verus! {

/// A row of the processes.
#[derive(Debug)]
pub struct ProcTreeRow {
    pub rid: i64,
    pub tgid: i64,
    pub ppid: i64,
    pub exe: String,
    pub argv: Vec<String>,
    pub depth: usize,
    /// The process is only shown because others hang off it.
    pub connector: bool,
}

/// What a row of the processes is.
#[verifier::ext_equal]
pub struct ProcV {
    pub rid: int,
    pub tgid: int,
    pub ppid: int,
    pub exe: Seq<char>,
    pub argv: Seq<Seq<char>>,
    pub depth: usize,
    pub connector: bool,
}

impl ProcTreeRow {
    pub open spec fn view(&self) -> ProcV {
        ProcV {
            rid: self.rid as int,
            tgid: self.tgid as int,
            ppid: self.ppid as int,
            exe: self.exe@,
            argv: strs(self.argv@),
            depth: self.depth,
            connector: self.connector,
        }
    }
}

/// What rows of the processes are.
pub open spec fn proc_views(v: Seq<ProcTreeRow>) -> Seq<ProcV> {
    v.map_values(|p: ProcTreeRow| p@)
}

/// What the engine's row of a process says.
pub open spec fn proc_of(p: JV) -> ProcV {
    ProcV {
        rid: p.i64_or("rid"@, -1),
        tgid: p.i64_or("tgid"@, 0),
        ppid: p.i64_or("ppid"@, 0),
        exe: p.str_or("exe"@, ""@),
        argv: texts_at(p, "argv"@),
        depth: fit(p.u64_or("depth"@, 0)),
        connector: p.flag("connector"@),
    }
}

fn read_proc(p: &Json) -> (r: ProcTreeRow)
    ensures
        r@ == proc_of(p@),
{
    ProcTreeRow {
        rid: p.i64_or("rid", -1),
        tgid: p.i64_or("tgid", 0),
        ppid: p.i64_or("ppid", 0),
        exe: own(p.str_or("exe", "")),
        argv: texts_of(p, "argv"),
        depth: fit_usize(p.u64_or("depth", 0)),
        connector: p.flag("connector"),
    }
}

impl App {
    /// The rows of the processes.
    pub open spec fn procs(self) -> Seq<ProcV> {
        jvs(self.lists.processes.rows@).map_values(|p: JV| proc_of(p))
    }

    pub fn proc_tree_rows(&self) -> (r: Vec<ProcTreeRow>)
        ensures
            proc_views(r@) == self.procs(),
    {
        let rows: &Vec<Json> = &self.lists.processes.rows;
        let mut out: Vec<ProcTreeRow> = Vec::new();
        let mut i: usize = 0;
        while i < rows.len()
            invariant
                i <= rows@.len(),
                rows == &self.lists.processes.rows,
                proc_views(out@) == self.procs().take(i as int),
            decreases rows@.len() - i,
        {
            let ghost o = proc_views(out@);
            assert(jvs(rows@)[i as int] == rows@[i as int]@);
            out.push(read_proc(&rows[i]));
            assert(proc_views(out@) =~= o.push(proc_of(rows@[i as int]@)));
            i += 1;
            assert(proc_views(out@) =~= self.procs().take(i as int));
        }
        assert(self.procs().take(rows@.len() as int) =~= self.procs());
        out
    }
}

/// The name that a process goes by: what it was called as, else its program, without directories.
pub open spec fn anchor(r: ProcV) -> Seq<char> {
    after_last(if r.argv.len() > 0 && r.argv[0].len() > 0 { r.argv[0] } else { r.exe }, '/')
}

/// The arguments behind the name.
pub open spec fn rest_args(r: ProcV) -> Seq<char> {
    if r.argv.len() > 1 { joined(r.argv.skip(1), " "@) } else { ""@ }
}

/// A row of the processes.
pub open spec fn proc_line(r: ProcV, depth: int, chain: bool, on: bool) -> LineV {
    let number = if r.connector { ""@ } else { sdec(r.tgid) };
    let side = if on { cursor() } else { plain() };
    let (name, rest) = if on {
        (fg_bg_bold(Color::Black, Color::Cyan), cursor())
    } else if r.connector {
        (fg_dim(Color::DarkGray), fg_dim(Color::DarkGray))
    } else {
        (fg_bold(Color::Cyan), fg(Color::DarkGray))
    };
    let l = LineV::new().sp(padl(number, 6) + "  "@, side).sp(indent_of(depth, chain), side).sp(anchor(r), name);
    if rest_args(r).len() > 0 { l.sp(" "@ + rest_args(r), rest) } else { l }
}

fn args_behind(argv: &Vec<String>) -> (r: String)
    ensures
        r@ == (if argv@.len() > 1 { joined(strs(argv@).skip(1), " "@) } else { ""@ }),
{
    if argv.len() <= 1 {
        return own("");
    }
    let mut v: Vec<String> = Vec::new();
    let mut i: usize = 1;
    while i < argv.len()
        invariant
            1 <= i <= argv@.len(),
            v@.len() == i - 1,
            forall|k: int| 0 <= k < v@.len() ==> (#[trigger] v@[k])@ == argv@[k + 1]@,
        decreases argv@.len() - i,
    {
        v.push(argv[i].clone());
        i += 1;
    }
    assert(strs(v@) =~= strs(argv@).skip(1));
    join(&v, " ")
}

fn proc_row(r: &ProcTreeRow, depth: usize, chain: bool, on: bool) -> (l: Line)
    ensures
        l@ == proc_line(r@, depth as int, chain, on),
{
    assert(strs(r.argv@).len() == r.argv@.len());
    assert(r.argv@.len() > 0 ==> strs(r.argv@)[0] == r.argv@[0]@);
    let called: &str = if r.argv.len() > 0 && r.argv[0].as_str().unicode_len() > 0 {
        r.argv[0].as_str()
    } else {
        r.exe.as_str()
    };
    let name: String = last_part(called, '/');
    let number: String = if r.connector { own("") } else { decimal_signed(r.tgid) };
    let side: Style = if on { cursor() } else { plain() };
    let (name_style, rest_style): (Style, Style) = if on {
        (fg_bg_bold(Color::Black, Color::Cyan), cursor())
    } else if r.connector {
        (fg_dim(Color::DarkGray), fg_dim(Color::DarkGray))
    } else {
        (fg_bold(Color::Cyan), fg(Color::DarkGray))
    };
    let l: Line = Line::new().add(pad_left(number.as_str(), 6).concat("  "), side).add(
        indent_text(depth, chain),
        side,
    ).add(name, name_style);
    let rest: String = args_behind(&r.argv);
    if rest.as_str().unicode_len() > 0 {
        l.add(own(" ").concat(rest.as_str()), rest_style)
    } else {
        l
    }
}

impl App {
    /// The rows of the processes.
    pub open spec fn proc_lines(self) -> Seq<LineV> {
        let d = depths_of(jvs(self.lists.processes.rows@));
        Seq::new(
            self.procs().len(),
            |i: int| proc_line(self.procs()[i], shown_depth(d, i), in_chain(d, i), i == self.lists.processes.sel),
        )
    }

    /// The list of the processes.
    pub open spec fn processes_pane(self) -> Seq<LineV> {
        seq![styled_line(padl("TGID"@, 6) + "  "@ + "PROCESS"@, bold())] + (if self.lists.processes.rows@.len() == 0 {
            seq![
                raw_line(
                    nothing_text(
                        self.lists.processes.total as int,
                        self.filters.procs@.is_active(),
                        "(no captured processes)"@,
                        "(no processes match filter)"@,
                    ),
                ),
            ]
        } else {
            self.proc_lines()
        })
    }
}

/// The list of the processes, as a tree.
pub fn processes_lines(app: &App) -> (r: Text)
    ensures
        r@ == app.processes_pane(),
{
    let head: String = pad_left("TGID", 6).concat("  ").concat("PROCESS");
    let mut out: Text = Text::new().ln(styled(head.as_str(), bold()));
    let ghost h = out@;
    let rows: Vec<ProcTreeRow> = app.proc_tree_rows();
    let ghost rv = proc_views(rows@);
    assert(rv.len() == app.procs().len());
    if rows.len() == 0 {
        out = out.ln(
            nothing_line(
                app.lists.processes.total,
                app.filters.procs.active().is_some(),
                "(no captured processes)",
                "(no processes match filter)",
            ),
        );
        assert(out@ =~= app.processes_pane());
        return out;
    }
    let d: Vec<usize> = row_depths(&app.lists.processes.rows);
    let chains: Vec<(usize, bool)> = collapse_chains(d.as_slice());
    let ghost all = app.proc_lines();
    assert(h + all.take(0) =~= h);
    let mut i: usize = 0;
    while i < rows.len()
        invariant
            i <= rows@.len() == chains@.len(),
            rv == proc_views(rows@),
            rv == app.procs(),
            d@ == depths_of(jvs(app.lists.processes.rows@)),
            d@.len() == chains@.len(),
            forall|k: int|
                0 <= k < chains@.len() ==> (#[trigger] chains@[k]).0 as int == shown_depth(d@, k) && chains@[k].1
                    == in_chain(d@, k),
            all == app.proc_lines(),
            out@ == h + all.take(i as int),
        decreases rows@.len() - i,
    {
        assert(rv[i as int] == rows@[i as int]@);
        let (depth, chain): (usize, bool) = chains[i];
        out = out.ln(proc_row(&rows[i], depth, chain, i == app.lists.processes.sel));
        i += 1;
        assert(out@ =~= h + all.take(i as int));
    }
    assert(all.take(all.len() as int) =~= all);
    assert(out@ =~= app.processes_pane());
    out
}

/// A variable put behind those of a sorted list that do not stand behind it.
pub open spec fn put_by_name(s: Seq<(Seq<char>, Seq<char>)>, e: (Seq<char>, Seq<char>)) -> Seq<(Seq<char>, Seq<char>)>
    decreases s.len(),
{
    if s.len() == 0 {
        seq![e]
    } else if text_le(s.last().0, e.0) {
        s.push(e)
    } else {
        put_by_name(s.drop_last(), e).push(s.last())
    }
}

/// The variables of an environment sorted by name; a value that is no text is shown as none.
pub open spec fn by_name(m: Seq<(Seq<char>, JV)>) -> Seq<(Seq<char>, Seq<char>)>
    decreases m.len(),
{
    if m.len() == 0 {
        Seq::empty()
    } else {
        put_by_name(
            by_name(m.drop_last()),
            (
                m.last().0,
                match m.last().1.str() {
                    Some(s) => s,
                    None => ""@,
                },
            ),
        )
    }
}

fn insert_by_name(v: &mut Vec<(String, String)>, e: (String, String))
    ensures
        pairs_v(final(v)@) == put_by_name(pairs_v(old(v)@), (e.0@, e.1@)),
{
    let ghost s = pairs_v(v@);
    let ghost ev = (e.0@, e.1@);
    let mut k: usize = v.len();
    assert(s.take(k as int) =~= s);
    assert(put_by_name(s, ev) =~= put_by_name(s.take(k as int), ev) + s.skip(k as int));
    while k > 0 && !le_text(v[k - 1].0.as_str(), e.0.as_str())
        invariant
            k <= v@.len(),
            s == pairs_v(v@),
            v@ == old(v)@,
            ev == (e.0@, e.1@),
            put_by_name(s, ev) == put_by_name(s.take(k as int), ev) + s.skip(k as int),
        decreases k,
    {
        let ghost t = s.take(k as int);
        assert(t.last() == (v@[k - 1].0@, v@[k - 1].1@));
        assert(t.drop_last() =~= s.take(k - 1));
        assert(put_by_name(t, ev) + s.skip(k as int) =~= put_by_name(s.take(k - 1), ev) + s.skip(k - 1));
        k -= 1;
    }
    let ghost t = s.take(k as int);
    assert(k > 0 ==> t.last() == (v@[k - 1].0@, v@[k - 1].1@));
    assert(put_by_name(t, ev) =~= t.push(ev));
    v.insert(k, e);
    assert(pairs_v(v@) =~= s.take(k as int).push(ev) + s.skip(k as int));
}

fn sort_by_name(m: &Vec<(String, Json)>) -> (r: Vec<(String, String)>)
    ensures
        pairs_v(r@) == by_name(m@.map_values(|e: (String, Json)| (e.0@, e.1@))),
{
    let ghost all = m@.map_values(|e: (String, Json)| (e.0@, e.1@));
    let mut out: Vec<(String, String)> = Vec::new();
    let mut i: usize = 0;
    assert(pairs_v(out@) =~= by_name(all.take(0)));
    while i < m.len()
        invariant
            i <= m@.len(),
            all == m@.map_values(|e: (String, Json)| (e.0@, e.1@)),
            pairs_v(out@) == by_name(all.take(i as int)),
        decreases m@.len() - i,
    {
        let ghost t = all.take(i + 1);
        assert(t.drop_last() =~= all.take(i as int));
        assert(t.last() == (m@[i as int].0@, m@[i as int].1@));
        let v: &str = match m[i].1.as_str() {
            Some(s) => s,
            None => "",
        };
        insert_by_name(&mut out, (m[i].0.clone(), own(v)));
        i += 1;
    }
    assert(all.take(all.len() as int) =~= all);
    out
}

/// The environment of a process.
pub open spec fn env_lines(env: Option<JV>) -> Seq<LineV> {
    match env {
        Some(JV::Obj(m)) => if m.len() > 0 {
            by_name(m).map_values(
                |e: (Seq<char>, Seq<char>)| LineV::new().sp(e.0, fg(Color::Cyan)).raw("="@ + e.1),
            )
        } else {
            no_env()
        },
        _ => no_env(),
    }
}

/// What is shown in place of an environment.
pub open spec fn no_env() -> Seq<LineV> {
    seq![styled_line("(none captured — run with -e to record the environment)"@, dim())]
}

fn env_text(env: &Option<Json>) -> (r: Text)
    ensures
        r@ == env_lines(crate::loads::opt_jv(*env)),
{
    match env {
        Some(Json::Obj(m)) => {
            assert((*env)->0@ == JV::Obj(m@.map_values(|e: (String, Json)| (e.0@, e.1@)))) by {
                assert((*env)->0@->Obj_0 =~= m@.map_values(|e: (String, Json)| (e.0@, e.1@)));
            }
            if m.len() > 0 {
                let v: Vec<(String, String)> = sort_by_name(m);
                let ghost sorted = pairs_v(v@);
                let ghost all = sorted.map_values(
                    |e: (Seq<char>, Seq<char>)| LineV::new().sp(e.0, fg(Color::Cyan)).raw("="@ + e.1),
                );
                let mut out: Text = Text::new();
                let mut i: usize = 0;
                while i < v.len()
                    invariant
                        i <= v@.len(),
                        sorted == pairs_v(v@),
                        all == sorted.map_values(
                            |e: (Seq<char>, Seq<char>)| LineV::new().sp(e.0, fg(Color::Cyan)).raw("="@ + e.1),
                        ),
                        out@ == all.take(i as int),
                    decreases v@.len() - i,
                {
                    assert(sorted[i as int] == (v@[i as int].0@, v@[i as int].1@));
                    let s: String = own("=").concat(v[i].1.as_str());
                    out = out.ln(Line::new().sp(v[i].0.as_str(), fg(Color::Cyan)).raw(s.as_str()));
                    i += 1;
                    assert(out@ =~= all.take(i as int));
                }
                assert(all.take(all.len() as int) =~= all);
                return out;
            }
        },
        _ => {},
    }
    let t: Text = Text::new().ln(styled("(none captured — run with -e to record the environment)", dim()));
    assert(t@ =~= no_env());
    t
}

/// What is known of a process but its environment.
pub open spec fn proc_head(r: ProcV) -> Seq<LineV> {
    seq![
        styled_line("tgid "@ + sdec(r.tgid) + "  ppid "@ + sdec(r.ppid), bold()),
        LineV::new().sp("exe   "@, dim()).raw(if r.exe.len() == 0 { "?"@ } else { r.exe }),
        LineV::new().sp("argv  "@, dim()).raw(joined(r.argv, " "@)),
        raw_line(""@),
        styled_line("── environment ──"@, dim()),
    ]
}

impl App {
    /// What is known of the process at the cursor, with the environment that the engine gave.
    pub open spec fn proc_detail_pane(self, env: Option<JV>) -> Seq<LineV> {
        let i = self.lists.processes.sel as int;
        if i >= self.procs().len() {
            seq![styled_line("(no process selected)"@, dim())]
        } else {
            let r = self.procs()[i];
            proc_head(r) + (if r.rid < 0 { Seq::empty() } else { env_lines(env) })
        }
    }
}

/// What is known of the process at the cursor, with the environment that the engine gave.
pub fn proc_detail_lines(app: &App, env: &Option<Json>) -> (r: Text)
    ensures
        r@ == app.proc_detail_pane(crate::loads::opt_jv(*env)),
{
    let rows: Vec<ProcTreeRow> = app.proc_tree_rows();
    let ghost rv = proc_views(rows@);
    assert(rv.len() == rows@.len());
    let i: usize = app.lists.processes.sel;
    if i >= rows.len() {
        let t: Text = Text::new().ln(styled("(no process selected)", dim()));
        assert(t@ =~= app.proc_detail_pane(crate::loads::opt_jv(*env)));
        return t;
    }
    let p: &ProcTreeRow = &rows[i];
    assert(rv[i as int] == p@);
    let ids: String = own("tgid ").concat(decimal_signed(p.tgid).as_str()).concat("  ppid ").concat(
        decimal_signed(p.ppid).as_str(),
    );
    let t: Text = Text::new().ln(styled(ids.as_str(), bold())).ln(
        Line::new().sp("exe   ", dim()).raw(
            if p.exe.as_str().unicode_len() == 0 {
                "?"
            } else {
                p.exe.as_str()
            },
        ),
    ).ln(Line::new().sp("argv  ", dim()).raw(join(&p.argv, " ").as_str())).ln(raw("")).ln(
        styled("── environment ──", dim()),
    );
    assert(t@ =~= proc_head(p@));
    if p.rid < 0 {
        assert(t@ =~= proc_head(p@) + Seq::<LineV>::empty());
        t
    } else {
        t.and(env_text(env))
    }
}

} // verus!
