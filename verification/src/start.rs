//! How the client is started: its arguments, and where its settings are.

use vstd::prelude::*;

use crate::text::{ends_with, own, same};
#[allow(unused_imports)]
use crate::text::{has_suffix, strs};

verus! {

/// What the client is to do.
#[derive(Debug, PartialEq, Eq)]
pub enum Start {
    /// It says how it is used.
    Help,
    /// It does not know where the engine is.
    NoSocket,
    /// It draws one screen, of the engine at that socket.
    Once(String),
    /// It runs on the terminal, with the engine at that socket.
    Interactive(String),
}

/// What the client is to do.
pub enum StartV {
    Help,
    NoSocket,
    Once(Seq<char>),
    Interactive(Seq<char>),
}

impl Start {
    pub open spec fn view(&self) -> StartV {
        match *self {
            Start::Help => StartV::Help,
            Start::NoSocket => StartV::NoSocket,
            Start::Once(s) => StartV::Once(s@),
            Start::Interactive(s) => StartV::Interactive(s@),
        }
    }
}

/// What arguments say, from the first on: whether one screen is asked for, and the socket. Nothing
/// where help is asked for. An argument that is not known is passed over, the last socket counts.
pub open spec fn said(args: Seq<Seq<char>>, once: bool, sock: Seq<char>) -> Option<(bool, Seq<char>)>
    decreases args.len(),
{
    if args.len() == 0 {
        Some((once, sock))
    } else if args[0] == "--once"@ {
        said(args.skip(1), true, sock)
    } else if args[0] == "--sock"@ {
        if args.len() == 1 { Some((once, Seq::empty())) } else { said(args.skip(2), once, args[1]) }
    } else if args[0] == "-h"@ || args[0] == "--help"@ {
        None
    } else {
        said(args.skip(1), once, sock)
    }
}

/// What the client is to do: the socket of the arguments counts before that of the environment,
/// and that before the usual one.
pub open spec fn started(args: Seq<Seq<char>>, env_sock: Seq<char>, usual: Seq<char>) -> StartV {
    match said(args, false, Seq::empty()) {
        None => StartV::Help,
        Some((once, given)) => {
            let sock = if given.len() > 0 { given } else if env_sock.len() > 0 { env_sock } else { usual };
            if sock.len() == 0 {
                StartV::NoSocket
            } else if once {
                StartV::Once(sock)
            } else {
                StartV::Interactive(sock)
            }
        },
    }
}

/// What the client is to do.
pub fn ui_start(args: &Vec<String>, env_sock: &str, usual: &str) -> (r: Start)
    ensures
        r@ == started(strs(args@), env_sock@, usual@),
{
    let ghost all = strs(args@);
    let n: usize = args.len();
    let mut once: bool = false;
    let mut sock: String = String::new();
    let mut i: usize = 0;
    assert(all.skip(0) =~= all);
    while i < n
        invariant
            i <= n == args@.len(),
            all == strs(args@),
            said(all, false, Seq::empty()) == said(all.skip(i as int), once, sock@),
        decreases n - i,
    {
        let ghost rest = all.skip(i as int);
        assert(rest[0] == args@[i as int]@);
        assert(rest.skip(1) =~= all.skip(i + 1));
        let a: &str = args[i].as_str();
        if same(a, "--once") {
            once = true;
            i += 1;
        } else if same(a, "--sock") {
            if i + 1 < n {
                assert(rest.skip(2) =~= all.skip(i + 2));
                assert(rest[1] == args@[i + 1]@);
                sock = args[i + 1].clone();
                i += 2;
            } else {
                sock = String::new();
                i += 1;
                assert(all.skip(i as int) =~= Seq::<Seq<char>>::empty());
            }
        } else if same(a, "-h") || same(a, "--help") {
            return Start::Help;
        } else {
            i += 1;
        }
    }
    if sock.as_str().is_empty() {
        sock = own(env_sock);
    }
    if sock.as_str().is_empty() {
        sock = own(usual);
    }
    if sock.as_str().is_empty() {
        Start::NoSocket
    } else if once {
        Start::Once(sock)
    } else {
        Start::Interactive(sock)
    }
}

/// A name within a directory.
pub open spec fn inside(dir: Seq<char>, name: Seq<char>) -> Seq<char> {
    if dir.len() == 0 || has_suffix(dir, "/"@) { dir + name } else { dir + "/"@ + name }
}

/// A name within a directory, where the name does not start with a slash.
pub fn path_in(dir: &str, name: &str) -> (r: String)
    ensures
        r@ == inside(dir@, name@),
{
    if dir.is_empty() || ends_with(dir, "/") {
        let r: String = own(dir).concat(name);
        assert(dir@.len() == 0 ==> r@ =~= name@);
        r
    } else {
        own(dir).concat("/").concat(name)
    }
}

/// The directory of the settings of a namespace: below the directory of all settings, or below
/// that of the user.
pub open spec fn settings(ns: Option<Seq<char>>, conf: Option<Seq<char>>, home: Option<Seq<char>>) -> Seq<char> {
    let name = match ns {
        Some(n) if n.len() > 0 => "slopbox."@ + n,
        _ => "slopbox"@,
    };
    let base = match conf {
        Some(c) if c.len() > 0 => c,
        _ => inside(
            match home {
                Some(h) => h,
                None => "/root"@,
            },
            ".config"@,
        ),
    };
    inside(base, name)
}

/// The directory of the settings, from the variables `SLOPBOX_NS`, `XDG_CONFIG_HOME` and `HOME`.
pub fn settings_dir(ns: Option<String>, conf: Option<String>, home: Option<String>) -> (r: String)
    ensures
        r@ == settings(
            crate::loads::opt_text(ns),
            crate::loads::opt_text(conf),
            crate::loads::opt_text(home),
        ),
{
    let name: String = match ns {
        Some(n) => if n.as_str().is_empty() {
            own("slopbox")
        } else {
            own("slopbox.").concat(n.as_str())
        },
        None => own("slopbox"),
    };
    let user: String = match home {
        Some(h) => h,
        None => own("/root"),
    };
    let base: String = match conf {
        Some(c) => if c.as_str().is_empty() {
            path_in(user.as_str(), ".config")
        } else {
            c
        },
        None => path_in(user.as_str(), ".config"),
    };
    path_in(base.as_str(), name.as_str())
}

} // verus!
