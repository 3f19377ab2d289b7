//! What the launcher starts: a target and a set of choices, turned into an argument list by one
//! function, so that every target honours the same choices.

use vstd::prelude::*;

use crate::text::{chars, clone_strings, own, trim};
#[allow(unused_imports)]
use crate::text::{strs, trimmed};

verus! {

/// The image that the browser runs in.
pub const CARBONYL_IMAGE: &'static str =
    "docker.io/fathyb/carbonyl@sha256:77b3686f46a16375004985b522cef8f66e27fabc4a7d80209609bbb20fdfb362";

/// Where a launched box sits in the stack of boxes.
#[derive(Debug, PartialEq, Eq)]
pub enum Placement {
    /// A fresh box.
    New,
    /// The box of that name, run again in place.
    Reuse(String),
    /// A sub-box of the box of that name.
    On(String),
}

/// What a placement is.
pub enum PlacementV {
    New,
    Reuse(Seq<char>),
    On(Seq<char>),
}

impl Placement {
    pub open spec fn view(&self) -> PlacementV {
        match *self {
            Placement::New => PlacementV::New,
            Placement::Reuse(n) => PlacementV::Reuse(n@),
            Placement::On(p) => PlacementV::On(p@),
        }
    }
}

/// The choices that hold for every target in the same way.
#[derive(Debug)]
pub struct How {
    pub net: String,
    pub env: bool,
    pub placement: Placement,
    pub webcap: bool,
    pub webfilter: bool,
}

/// What a set of choices is.
pub struct HowV {
    pub net: Seq<char>,
    pub env: bool,
    pub placement: PlacementV,
    pub webcap: bool,
    pub webfilter: bool,
}

impl How {
    pub open spec fn view(&self) -> HowV {
        HowV {
            net: self.net@,
            env: self.env,
            placement: self.placement@,
            webcap: self.webcap,
            webfilter: self.webfilter,
        }
    }
}

/// What to run.
#[derive(Debug)]
pub enum LaunchTarget {
    /// An interactive shell in a box over the host's files.
    Shell,
    /// A command in a box over the host's files.
    Command(Vec<String>),
    /// A container from an image reference.
    Image(String),
    /// The browser, with the address it opens and the key it trusts.
    Browser { url: String, spki: Option<String> },
    /// An agent session that starts with a task.
    Ai { task: String },
    /// The login shell of the host: the one target that is not in a box.
    HostShell { shell: String },
}

/// What a target is.
pub enum TargetV {
    Shell,
    Command(Seq<Seq<char>>),
    Image(Seq<char>),
    Browser(Seq<char>, Option<Seq<char>>),
    Ai(Seq<char>),
    HostShell(Seq<char>),
}

impl LaunchTarget {
    pub open spec fn view(&self) -> TargetV {
        match *self {
            LaunchTarget::Shell => TargetV::Shell,
            LaunchTarget::Command(cmd) => TargetV::Command(strs(cmd@)),
            LaunchTarget::Image(r) => TargetV::Image(r@),
            LaunchTarget::Browser { url, spki } => TargetV::Browser(
                url@,
                match spki {
                    Some(k) => Some(k@),
                    None => None,
                },
            ),
            LaunchTarget::Ai { task } => TargetV::Ai(task@),
            LaunchTarget::HostShell { shell } => TargetV::HostShell(shell@),
        }
    }
}

/// An ASCII letter or digit.
pub open spec fn alnum(c: char) -> bool {
    ('0' <= c <= '9') || ('a' <= c <= 'z') || ('A' <= c <= 'Z')
}

/// The ASCII lower case of a character.
pub open spec fn lower(c: char) -> char {
    if 'A' <= c <= 'Z' { (c as u32 + 32) as char } else { c }
}

pub fn is_alnum(c: char) -> (r: bool)
    ensures
        r == alnum(c),
{
    ('0' <= c && c <= '9') || ('a' <= c && c <= 'z') || ('A' <= c && c <= 'Z')
}

pub fn to_lower(c: char) -> (r: char)
    ensures
        r == lower(c),
{
    if 'A' <= c && c <= 'Z' {
        ((c as u8) + 32) as char
    } else {
        c
    }
}

/// The ASCII letters and digits of a name, in lower case.
pub open spec fn bare_slug(s: Seq<char>) -> Seq<char>
    decreases s.len(),
{
    if s.len() == 0 {
        Seq::empty()
    } else if alnum(s.last()) {
        bare_slug(s.drop_last()).push(lower(s.last()))
    } else {
        bare_slug(s.drop_last())
    }
}

/// The name of the agent session that belongs to a box.
pub open spec fn agent_session(name: Seq<char>) -> Seq<char> {
    (if bare_slug(name).len() == 0 { "box"@ } else { bare_slug(name) }) + "agent"@
}

/// The session name of an agent on a box: letters and digits only, so that the engine takes it.
pub fn oaita_session_for_box(box_name: &str) -> (r: String)
    ensures
        r@ == agent_session(box_name@),
{
    let v: Vec<char> = chars(box_name);
    let mut slug: String = String::new();
    let mut i: usize = 0;
    while i < v.len()
        invariant
            i <= v@.len(),
            v@ == box_name@,
            slug@ == bare_slug(v@.take(i as int)),
        decreases v@.len() - i,
    {
        assert(v@.take(i + 1).drop_last() == v@.take(i as int));
        if is_alnum(v[i]) {
            slug.push(to_lower(v[i]));
        }
        i += 1;
    }
    assert(v@.take(v@.len() as int) == v@);
    if slug.as_str().is_empty() {
        own("box").concat("agent")
    } else {
        slug.concat("agent")
    }
}

proof fn lemma_bare_slug_alnum(s: Seq<char>)
    ensures
        forall|i: int| 0 <= i < bare_slug(s).len() ==> alnum(#[trigger] bare_slug(s)[i]),
    decreases s.len(),
{
    if s.len() > 0 {
        lemma_bare_slug_alnum(s.drop_last());
        assert(alnum(s.last()) ==> alnum(lower(s.last())));
        let t = bare_slug(s.drop_last());
        assert(bare_slug(s) == t || bare_slug(s) == t.push(lower(s.last())));
    }
}

/// The session name of every box is made of ASCII letters and digits, and is not empty.
pub proof fn law_agent_session_is_alphanumeric(name: Seq<char>)
    ensures
        agent_session(name).len() > 0,
        forall|i: int| 0 <= i < agent_session(name).len() ==> alnum(#[trigger] agent_session(name)[i]),
{
    lemma_bare_slug_alnum(name);
    reveal_strlit("box");
    reveal_strlit("agent");
}

/// Each character of a name as it stands in a slug.
pub open spec fn dashed(s: Seq<char>) -> Seq<char> {
    s.map_values(|c: char| if alnum(c) { lower(c) } else { '-' })
}

/// `s` without the dashes that it starts with.
pub open spec fn undash_l(s: Seq<char>) -> Seq<char>
    decreases s.len(),
{
    if s.len() > 0 && s[0] == '-' { undash_l(s.drop_first()) } else { s }
}

/// `s` without the dashes that it ends with.
pub open spec fn undash_r(s: Seq<char>) -> Seq<char>
    decreases s.len(),
{
    if s.len() > 0 && s.last() == '-' { undash_r(s.drop_last()) } else { s }
}

/// The slug of a name: lower case, every other character a dash, no dash at an end.
pub open spec fn slug(s: Seq<char>, fallback: Seq<char>) -> Seq<char> {
    let t = undash_r(undash_l(dashed(s)));
    if t.len() == 0 { fallback } else { t }
}

/// A short valid name made from any text, or `fallback` where nothing is left of it.
pub fn slugify(s: &str, fallback: &str) -> (r: String)
    ensures
        r@ == slug(s@, fallback@),
{
    let v: Vec<char> = chars(s);
    let n: usize = v.len();
    let mut w: Vec<char> = Vec::new();
    let mut i: usize = 0;
    while i < n
        invariant
            i <= n == v@.len(),
            v@ == s@,
            w@.len() == i,
            forall|k: int| 0 <= k < i ==> w@[k] == dashed(s@)[k],
        decreases n - i,
    {
        w.push(if is_alnum(v[i]) { to_lower(v[i]) } else { '-' });
        i += 1;
    }
    assert(w@ == dashed(s@));
    let mut a: usize = 0;
    assert(w@.subrange(0, n as int) == w@);
    while a < n && w[a] == '-'
        invariant
            a <= n == w@.len(),
            undash_l(w@) == undash_l(w@.subrange(a as int, n as int)),
        decreases n - a,
    {
        assert(w@.subrange(a as int, n as int).drop_first() == w@.subrange(a + 1, n as int));
        a += 1;
    }
    assert(undash_l(w@) == w@.subrange(a as int, n as int));
    let mut b: usize = n;
    while b > a && w[b - 1] == '-'
        invariant
            a <= b <= n == w@.len(),
            undash_r(undash_l(w@)) == undash_r(w@.subrange(a as int, b as int)),
        decreases b,
    {
        assert(w@.subrange(a as int, b as int).drop_last() == w@.subrange(a as int, b - 1));
        b -= 1;
    }
    if a == b {
        own(fallback)
    } else {
        crate::text::from_chars(&w, a, b)
    }
}

/// `s` alone where `b` holds, nothing otherwise.
pub open spec fn on(b: bool, s: Seq<char>) -> Seq<Seq<char>> {
    if b { seq![s] } else { Seq::empty() }
}

/// An argument list under construction.
struct Args {
    v: Vec<String>,
}

impl Args {
    spec fn view(&self) -> Seq<Seq<char>> {
        strs(self.v@)
    }

    fn new() -> (r: Args)
        ensures
            r@ == Seq::<Seq<char>>::empty(),
    {
        let r: Args = Args { v: Vec::new() };
        assert(r@ =~= Seq::<Seq<char>>::empty());
        r
    }

    fn arg(self, s: &str) -> (r: Args)
        ensures
            r@ == self@.push(s@),
    {
        let mut v: Vec<String> = self.v;
        v.push(own(s));
        let r: Args = Args { v };
        assert(r@ =~= self@.push(s@));
        r
    }

    fn flag(self, b: bool, s: &str) -> (r: Args)
        ensures
            r@ == self@ + on(b, s@),
    {
        if b {
            let r: Args = self.arg(s);
            assert(r@ =~= self@ + on(b, s@));
            r
        } else {
            assert(self@ =~= self@ + on(b, s@));
            self
        }
    }

    fn all(self, more: &Vec<String>) -> (r: Args)
        ensures
            r@ == self@ + strs(more@),
    {
        let mut v: Vec<String> = self.v;
        let mut w: Vec<String> = clone_strings(more);
        v.append(&mut w);
        let r: Args = Args { v };
        assert(r@ =~= self@ + strs(more@));
        r
    }
}

/// The name that a run gives its box.
pub open spec fn run_place(p: PlacementV, cmd: Seq<Seq<char>>) -> Seq<Seq<char>> {
    match p {
        PlacementV::New => Seq::empty(),
        PlacementV::Reuse(n) => seq![n],
        PlacementV::On(q) => seq![
            q + "."@ + (if cmd.len() > 0 { slug(cmd[0], "run"@) } else { "sh"@ }),
        ],
    }
}

/// The argument list that runs a command in a box over the host's files.
pub open spec fn run_words(how: HowV, brush: bool, cmd: Seq<Seq<char>>) -> Seq<Seq<char>> {
    seq!["sarun"@, "run"@] + on(brush, "-b"@) + seq!["--net"@, how.net] + on(how.env, "-e"@) + on(
        how.webcap,
        "--webcap"@,
    ) + on(how.webfilter, "--webfilter"@) + run_place(how.placement, cmd) + seq!["--"@] + cmd
}

pub fn run_argv(how: &How, brush: bool, cmd: &Vec<String>) -> (r: Vec<String>)
    ensures
        strs(r@) == run_words(how@, brush, strs(cmd@)),
{
    let a: Args = Args::new().arg("sarun").arg("run").flag(brush, "-b").arg("--net").arg(how.net.as_str()).flag(
        how.env,
        "-e",
    ).flag(how.webcap, "--webcap").flag(how.webfilter, "--webfilter");
    let ghost head = a@;
    assert(head =~= seq!["sarun"@, "run"@] + on(brush, "-b"@) + seq!["--net"@, how.net@] + on(how.env, "-e"@) + on(
        how.webcap,
        "--webcap"@,
    ) + on(how.webfilter, "--webfilter"@));
    let b: Args = match &how.placement {
        Placement::New => a,
        Placement::Reuse(n) => a.arg(n.as_str()),
        Placement::On(p) => {
            let child: String = if cmd.len() > 0 { slugify(cmd[0].as_str(), "run") } else { own("sh") };
            assert(cmd@.len() > 0 ==> strs(cmd@)[0] == cmd@[0]@);
            let name: String = own(p.as_str()).concat(".").concat(child.as_str());
            a.arg(name.as_str())
        },
    };
    assert(b@ =~= head + run_place(how@.placement, strs(cmd@)));
    let c: Args = b.arg("--").all(cmd);
    assert(c@ =~= run_words(how@, brush, strs(cmd@)));
    c.v
}

/// The argument list that runs a container from an image.
pub open spec fn oci_words(how: HowV, reference: Seq<char>, cmd: Seq<Seq<char>>) -> Seq<Seq<char>> {
    seq!["sarun"@, "oci"@, "run"@, "--net"@, how.net] + (match how.placement {
        PlacementV::Reuse(n) => seq!["--name"@, n],
        _ => Seq::empty(),
    }) + on(how.webcap, "--webcap"@) + on(how.webfilter, "--webfilter"@) + seq![reference] + (if cmd.len() > 0 {
        seq!["--"@] + cmd
    } else {
        Seq::empty()
    })
}

pub fn oci_run_argv(how: &How, reference: &str, cmd: &Vec<String>) -> (r: Vec<String>)
    ensures
        strs(r@) == oci_words(how@, reference@, strs(cmd@)),
{
    let a: Args = Args::new().arg("sarun").arg("oci").arg("run").arg("--net").arg(how.net.as_str());
    let b: Args = match &how.placement {
        Placement::Reuse(n) => a.arg("--name").arg(n.as_str()),
        _ => a,
    };
    let c: Args = b.flag(how.webcap, "--webcap").flag(how.webfilter, "--webfilter").arg(reference);
    let d: Args = if cmd.len() > 0 { c.arg("--").all(cmd) } else { c };
    assert(d@ =~= oci_words(how@, reference@, strs(cmd@)));
    d.v
}

/// The argument list that starts an agent session.
pub open spec fn ai_words(how: HowV, task: Seq<char>) -> Seq<Seq<char>> {
    seq!["sarun"@, "oaita"@, "run"@] + (match how.placement {
        PlacementV::On(p) => seq!["--on"@, p],
        _ => Seq::empty(),
    }) + seq!["--net"@, how.net, "--task"@, task] + seq![
        match how.placement {
            PlacementV::On(p) => agent_session(p),
            PlacementV::Reuse(n) => slug(n, "agent"@),
            PlacementV::New => "agent"@,
        },
    ]
}

pub fn ai_argv(how: &How, task: &str) -> (r: Vec<String>)
    ensures
        strs(r@) == ai_words(how@, task@),
{
    let a: Args = Args::new().arg("sarun").arg("oaita").arg("run");
    let (b, session): (Args, String) = match &how.placement {
        Placement::On(p) => (a.arg("--on").arg(p.as_str()), oaita_session_for_box(p.as_str())),
        Placement::Reuse(n) => (a, slugify(n.as_str(), "agent")),
        Placement::New => (a, own("agent")),
    };
    let c: Args = b.arg("--net").arg(how.net.as_str()).arg("--task").arg(task).arg(session.as_str());
    assert(c@ =~= ai_words(how@, task@));
    c.v
}

/// The command that the browser's container runs.
pub open spec fn browser_words(url: Seq<char>, spki: Option<Seq<char>>) -> Seq<Seq<char>> {
    seq![
        "/carbonyl/carbonyl"@,
        "--no-sandbox"@,
        "--disable-dev-shm-usage"@,
        "--user-data-dir=/carbonyl/data"@,
    ] + (match spki {
        Some(k) => seq!["--ignore-certificate-errors-spki-list="@ + k],
        None => Seq::empty(),
    }) + seq![if trimmed(url).len() == 0 { "about:blank"@ } else { trimmed(url) }]
}

/// The argument list of a launch.
pub open spec fn launch_words(target: TargetV, how: HowV) -> Seq<Seq<char>> {
    match target {
        TargetV::HostShell(shell) => seq![shell],
        TargetV::Shell => run_words(how, true, Seq::empty()),
        TargetV::Command(cmd) => run_words(how, true, cmd),
        TargetV::Image(r) => oci_words(how, r, Seq::empty()),
        TargetV::Browser(url, spki) => oci_words(how, CARBONYL_IMAGE@, browser_words(url, spki)),
        TargetV::Ai(task) => ai_words(how, task),
    }
}

/// The one builder: a target and the choices become an argument list.
pub fn build_launch(target: &LaunchTarget, how: &How) -> (r: Vec<String>)
    ensures
        strs(r@) == launch_words(target@, how@),
{
    let none: Vec<String> = Vec::new();
    assert(strs(none@) =~= Seq::<Seq<char>>::empty());
    match target {
        LaunchTarget::HostShell { shell } => {
            let a: Args = Args::new().arg(shell.as_str());
            assert(a@ =~= seq![shell@]);
            a.v
        },
        LaunchTarget::Shell => run_argv(how, true, &none),
        LaunchTarget::Command(cmd) => run_argv(how, true, cmd),
        LaunchTarget::Image(reference) => oci_run_argv(how, reference.as_str(), &none),
        LaunchTarget::Browser { url, spki } => {
            let a: Args = Args::new().arg("/carbonyl/carbonyl").arg("--no-sandbox").arg(
                "--disable-dev-shm-usage",
            ).arg("--user-data-dir=/carbonyl/data");
            let b: Args = match spki {
                Some(k) => {
                    let f: String = own("--ignore-certificate-errors-spki-list=").concat(k.as_str());
                    a.arg(f.as_str())
                },
                None => a,
            };
            let dest: String = trim(url.as_str());
            let c: Args = if dest.as_str().is_empty() { b.arg("about:blank") } else { b.arg(dest.as_str()) };
            assert(c@ =~= browser_words(url@, match *spki {
                Some(k) => Some(k@),
                None => None,
            }));
            oci_run_argv(how, CARBONYL_IMAGE, &c.v)
        },
        LaunchTarget::Ai { task } => ai_argv(how, task.as_str()),
    }
}

/// A target that runs in a box.
pub open spec fn boxed(target: TargetV) -> bool {
    !(target is HostShell)
}

/// Every target that runs in a box is started with the chosen network: the argument after
/// `--net` is that network.
pub proof fn law_every_box_gets_the_network(target: TargetV, how: HowV)
    requires
        boxed(target),
    ensures
        exists|i: int|
            #![trigger launch_words(target, how)[i]]
            0 <= i && i + 1 < launch_words(target, how).len() && launch_words(target, how)[i] == "--net"@
                && launch_words(target, how)[i + 1] == how.net,
{
    let w = launch_words(target, how);
    match target {
        TargetV::Shell => {
            assert(w[3] == "--net"@ && w[4] == how.net);
        },
        TargetV::Command(cmd) => {
            assert(w[3] == "--net"@ && w[4] == how.net);
        },
        TargetV::Image(r) => {
            assert(w[3] == "--net"@ && w[4] == how.net);
        },
        TargetV::Browser(url, spki) => {
            assert(w[3] == "--net"@ && w[4] == how.net);
        },
        TargetV::Ai(task) => {
            let i: int = if how.placement is On { 5 } else { 3 };
            assert(w[i] == "--net"@ && w[i + 1] == how.net);
        },
        TargetV::HostShell(_) => {},
    }
}

/// The host shell is started bare, whatever the choices are.
pub proof fn law_host_shell_takes_no_choices(shell: Seq<char>, a: HowV, b: HowV)
    ensures
        launch_words(TargetV::HostShell(shell), a) == seq![shell],
        launch_words(TargetV::HostShell(shell), a) == launch_words(TargetV::HostShell(shell), b),
{
}

/// An image cannot be put on top of another box: such a placement is the same as a fresh one.
pub proof fn law_image_on_a_box_is_fresh(reference: Seq<char>, how: HowV, p: Seq<char>)
    ensures
        launch_words(TargetV::Image(reference), (HowV { placement: PlacementV::On(p), ..how })) == launch_words(
            TargetV::Image(reference),
            (HowV { placement: PlacementV::New, ..how }),
        ),
{
}

} // verus!
