//! The commands that are started.

use vstd::prelude::*;

#[allow(unused_imports)]
use crate::app::{App, NetMode, StepV};
#[allow(unused_imports)]
use crate::keys::{KeyCode, Mods};
#[allow(unused_imports)]
use crate::launch::{agent_session, browser_words, launch_words, slug, HowV, PlacementV, TargetV};
#[allow(unused_imports)]
use crate::text::trimmed;
#[allow(unused_imports)]
use crate::types::{modal_v, Action, ModalV, NextV, PickV};

verus! {

/// A shell in a fresh box: captured, with the chosen network, and with the environment only where
/// that was chosen.
pub proof fn law_a_shell_is_captured(how: HowV)
    requires
        how.placement == PlacementV::New,
        !how.webcap,
        !how.webfilter,
    ensures
        !how.env ==> launch_words(TargetV::Shell, how) == seq!["sarun"@, "run"@, "-b"@, "--net"@, how.net, "--"@],
        how.env ==> launch_words(TargetV::Shell, how) == seq![
            "sarun"@,
            "run"@,
            "-b"@,
            "--net"@,
            how.net,
            "-e"@,
            "--"@,
        ],
{
    if how.env {
        assert(launch_words(TargetV::Shell, how) =~= seq!["sarun"@, "run"@, "-b"@, "--net"@, how.net, "-e"@, "--"@]);
    } else {
        assert(launch_words(TargetV::Shell, how) =~= seq!["sarun"@, "run"@, "-b"@, "--net"@, how.net, "--"@]);
    }
}

/// A command in a box is run as it is, behind two dashes; in a named box behind the name, below
/// another box behind its name and a name for the command.
pub proof fn law_a_command_is_run_as_it_is(how: HowV, cmd: Seq<Seq<char>>)
    requires
        !how.webcap,
        !how.webfilter,
        !how.env,
        cmd.len() > 0,
    ensures
        how.placement == PlacementV::New ==> launch_words(TargetV::Command(cmd), how) == seq![
            "sarun"@,
            "run"@,
            "-b"@,
            "--net"@,
            how.net,
            "--"@,
        ] + cmd,
        how.placement matches PlacementV::Reuse(n) ==> launch_words(TargetV::Command(cmd), how) == seq![
            "sarun"@,
            "run"@,
            "-b"@,
            "--net"@,
            how.net,
            n,
            "--"@,
        ] + cmd,
        how.placement matches PlacementV::On(p) ==> launch_words(TargetV::Command(cmd), how) == seq![
            "sarun"@,
            "run"@,
            "-b"@,
            "--net"@,
            how.net,
            p + "."@ + slug(cmd[0], "run"@),
            "--"@,
        ] + cmd,
{
    let w = launch_words(TargetV::Command(cmd), how);
    match how.placement {
        PlacementV::New => {
            assert(w =~= seq!["sarun"@, "run"@, "-b"@, "--net"@, how.net, "--"@] + cmd);
        },
        PlacementV::Reuse(n) => {
            assert(w =~= seq!["sarun"@, "run"@, "-b"@, "--net"@, how.net, n, "--"@] + cmd);
        },
        PlacementV::On(p) => {
            assert(w =~= seq!["sarun"@, "run"@, "-b"@, "--net"@, how.net, p + "."@ + slug(cmd[0], "run"@), "--"@] + cmd);
        },
    }
}

/// What the web is asked for and answers is captured, and filtered, where that was chosen, and
/// else not.
pub proof fn law_web_capture_is_chosen(how: HowV)
    requires
        how.placement == PlacementV::New,
        !how.env,
    ensures
        launch_words(TargetV::Shell, how) == seq!["sarun"@, "run"@, "-b"@, "--net"@, how.net] + (if how.webcap {
            seq!["--webcap"@]
        } else {
            Seq::empty()
        }) + (if how.webfilter { seq!["--webfilter"@] } else { Seq::empty() }) + seq!["--"@],
{
    assert(launch_words(TargetV::Shell, how) =~= seq!["sarun"@, "run"@, "-b"@, "--net"@, how.net] + (if how.webcap {
        seq!["--webcap"@]
    } else {
        Seq::empty()
    }) + (if how.webfilter { seq!["--webfilter"@] } else { Seq::empty() }) + seq!["--"@]);
}

/// A container from an image.
pub proof fn law_an_image_is_run(how: HowV, reference: Seq<char>)
    requires
        how.placement == PlacementV::New,
        !how.webcap,
        !how.webfilter,
    ensures
        launch_words(TargetV::Image(reference), how) == seq![
            "sarun"@,
            "oci"@,
            "run"@,
            "--net"@,
            how.net,
            reference,
        ],
{
    assert(launch_words(TargetV::Image(reference), how) =~= seq![
        "sarun"@,
        "oci"@,
        "run"@,
        "--net"@,
        how.net,
        reference,
    ]);
}

/// An agent gets its task, the chosen network and, where it works on a box, that box.
pub proof fn law_an_agent_gets_its_task(how: HowV, task: Seq<char>)
    ensures
        how.placement == PlacementV::New ==> launch_words(TargetV::Ai(task), how) == seq![
            "sarun"@,
            "oaita"@,
            "run"@,
            "--net"@,
            how.net,
            "--task"@,
            task,
            "agent"@,
        ],
        how.placement matches PlacementV::On(p) ==> launch_words(TargetV::Ai(task), how) == seq![
            "sarun"@,
            "oaita"@,
            "run"@,
            "--on"@,
            p,
            "--net"@,
            how.net,
            "--task"@,
            task,
            agent_session(p),
        ],
{
    let w = launch_words(TargetV::Ai(task), how);
    match how.placement {
        PlacementV::New => {
            assert(w =~= seq!["sarun"@, "oaita"@, "run"@, "--net"@, how.net, "--task"@, task, "agent"@]);
        },
        PlacementV::On(p) => {
            assert(w =~= seq![
                "sarun"@,
                "oaita"@,
                "run"@,
                "--on"@,
                p,
                "--net"@,
                how.net,
                "--task"@,
                task,
                agent_session(p),
            ]);
        },
        _ => {},
    }
}

/// The browser opens the typed address, an empty page where none was typed, and trusts the key it
/// is given and no other.
pub proof fn law_the_browser_opens_the_address(url: Seq<char>, key: Seq<char>)
    ensures
        browser_words(url, Some(key)).last() == (if trimmed(url).len() == 0 { "about:blank"@ } else { trimmed(url) }),
        browser_words(url, Some(key)) == seq![
            "/carbonyl/carbonyl"@,
            "--no-sandbox"@,
            "--disable-dev-shm-usage"@,
            "--user-data-dir=/carbonyl/data"@,
            "--ignore-certificate-errors-spki-list="@ + key,
            if trimmed(url).len() == 0 { "about:blank"@ } else { trimmed(url) },
        ],
        browser_words(url, None).len() == browser_words(url, Some(key)).len() - 1,
{
    assert(browser_words(url, Some(key)) =~= seq![
        "/carbonyl/carbonyl"@,
        "--no-sandbox"@,
        "--disable-dev-shm-usage"@,
        "--user-data-dir=/carbonyl/data"@,
        "--ignore-certificate-errors-spki-list="@ + key,
        if trimmed(url).len() == 0 { "about:blank"@ } else { trimmed(url) },
    ]);
}

/// The browser runs in the box of its own name, with its pages captured.
pub proof fn law_the_browser_is_captured(a: App, b: App, url: Seq<char>, key: Seq<char>, mods: Mods, now: u64)
    requires
        modal_v(a.ui.modal) == Some(ModalV::BrowserUrl { buf: url, spki: key }),
        a.key_v(KeyCode::Enter, mods, now, b),
    ensures
        b.ui.modal is None,
        b.plan().len() == a.plan().len() + 1,
        b.plan()[0] == StepV::OpenPty(
            seq![
                a.env.exe@,
                "oci"@,
                "run"@,
                "--net"@,
                a.net(),
                "--name"@,
                "BROWSER"@,
                "--webcap"@,
                "--webfilter"@,
                crate::launch::CARBONYL_IMAGE@,
                "--"@,
            ] + browser_words(url, Some(key)),
        ),
{
    let s = a.without_modal();
    let how = crate::modals::browser_how(s.net(), s.jobs.launch.env);
    let w = launch_words(TargetV::Browser(url, Some(key)), how);
    assert(w =~= seq![
        "sarun"@,
        "oci"@,
        "run"@,
        "--net"@,
        a.net(),
        "--name"@,
        "BROWSER"@,
        "--webcap"@,
        "--webfilter"@,
        crate::launch::CARBONYL_IMAGE@,
        "--"@,
    ] + browser_words(url, Some(key)));
    assert(s.resolved(w) =~= seq![
        a.env.exe@,
        "oci"@,
        "run"@,
        "--net"@,
        a.net(),
        "--name"@,
        "BROWSER"@,
        "--webcap"@,
        "--webfilter"@,
        crate::launch::CARBONYL_IMAGE@,
        "--"@,
    ] + browser_words(url, Some(key)));
}

/// The network of a box is the chosen one, but the host's where a network of its own cannot be had.
pub proof fn law_the_network_is_the_chosen_one(a: App)
    ensures
        a.jobs.launch.net == NetMode::Host ==> a.net() == "host"@,
        a.jobs.launch.net == NetMode::Off ==> a.net() == "off"@,
        a.jobs.launch.net == NetMode::Tap && a.jobs.launch.tap_ok ==> a.net() == "tap"@,
        a.jobs.launch.net == NetMode::Tap && !a.jobs.launch.tap_ok ==> a.net() == "host"@,
{
}

/// The entry for a shell in a new box starts this program's shell in a box; the entry for a host
/// shell starts the login shell, and nothing else.
pub proof fn law_entries_start_what_they_say(a: App, b: App)
    ensures
        a.action_v(Action::PtyNewBoxShell, b) ==> b.plan().len() == a.plan().len() + 1 && (b.plan()[0]
            matches StepV::OpenPty(w) && w.len() >= 6 && w[0] == a.env.exe@ && w[1] == "run"@ && w[2] == "-b"@ && w[3]
            == "--net"@ && w[4] == a.net() && w.last() == "--"@),
        a.action_v(Action::PtyNewHostShell, b) && a.env.shell@ != "sarun"@ ==> b.plan() == seq![
            StepV::OpenPty(seq![a.env.shell@]),
        ] + a.plan(),
        a.action_v(Action::PtyNewCustom, b) ==> b.plan() == seq![StepV::ReadPtyCommand] + a.plan(),
        a.action_v(Action::NewFromImage, b) ==> b.plan() == seq![StepV::ReadImageConf] + a.plan(),
        a.action_v(Action::BrowserCarbonyl, b) ==> b.plan() == seq![StepV::ReadBrowserKey] + a.plan(),
        a.action_v(Action::OpenApiConfig, b) ==> b.plan() == seq![StepV::ReadApiConfig] + a.plan(),
        a.action_v(Action::OaitaLocalPty, b) ==> b.plan().len() == a.plan().len() + 1 && (b.plan()[0]
            matches StepV::OpenPty(w) && w.len() == 3 && w[1] == "oaita"@ && w[2] == "local"@),
{
    let how = a.how_v(PlacementV::New);
    law_a_shell_is_captured(how);
    assert(seq![a.env.shell@] =~= launch_words(TargetV::HostShell(a.env.shell@), how));
}

/// A command that is typed is started word for word, its quotes taken off.
pub proof fn law_a_typed_command_is_started(a: App, b: App, argv: Seq<Seq<char>>, mods: Mods, now: u64)
    requires
        argv.len() > 0,
        argv[0] != "sarun"@,
        modal_v(a.ui.modal) == Some(ModalV::PtyCmd { buf: crate::shell::line_of(argv) }),
        a.key_v(KeyCode::Enter, mods, now, b),
    ensures
        b.plan() == seq![StepV::OpenPty(argv)] + a.plan(),
        b.ui.modal is None,
{
    crate::shell::law_split_inverts_join(argv);
}

/// What is picked in the list of images is done: a loaded one is run, any other is fetched.
pub proof fn law_a_picked_image_is_used(a: App, b: App, p: PickV, crumbs: Seq<Seq<char>>, stack: Seq<crate::types::LevelV>, mods: Mods, now: u64)
    requires
        modal_v(a.ui.modal) == Some(ModalV::ImagePicker { crumbs, stack }),
        stack.len() > 0,
        0 <= stack.last().sel < stack.last().items.len(),
        stack.last().items[stack.last().sel] == p,
        a.jobs.load is None,
        a.key_v(KeyCode::Enter, mods, now, b),
    ensures
        p.next matches NextV::Pull(reference) ==> b.plan() == seq![StepV::LoadImage(reference)] + a.plan()
            && b.ui.modal is None,
        p.next matches NextV::RunLocal(name) ==> b.plan() == seq![
            StepV::OpenPty(seq![a.env.exe@, "oci"@, "run"@, "--net"@, a.net(), name]),
        ] + a.plan() && b.ui.modal is None,
        p.next matches NextV::EnterRef(prefix) ==> b.todo == a.todo && modal_v(b.ui.modal) == Some(
            ModalV::ImageRef { buf: prefix },
        ),
        p.next matches NextV::Menu(items) ==> b.todo == a.todo && (modal_v(b.ui.modal) matches Some(
            ModalV::ImagePicker { stack: deeper, .. },
        ) && deeper.len() == stack.len() + 1 && deeper.last().items == items && deeper.last().sel == 0),
{
    if let NextV::RunLocal(name) = p.next {
        let s = a.without_modal();
        let how = s.how_v(PlacementV::New);
        law_an_image_is_run(how, name);
        assert(s.resolved(launch_words(TargetV::Image(name), how)) =~= seq![
            a.env.exe@,
            "oci"@,
            "run"@,
            "--net"@,
            a.net(),
            name,
        ]);
    }
}

/// A reference that is typed is fetched, without the space around it; an empty one is not.
pub proof fn law_a_typed_reference_is_fetched(a: App, b: App, buf: Seq<char>, mods: Mods, now: u64)
    requires
        modal_v(a.ui.modal) == Some(ModalV::ImageRef { buf }),
        a.jobs.load is None,
        a.key_v(KeyCode::Enter, mods, now, b),
    ensures
        trimmed(buf).len() > 0 ==> b.plan() == seq![StepV::LoadImage(trimmed(buf))] + a.plan(),
        trimmed(buf).len() == 0 ==> b.plan() == a.plan(),
        b.ui.modal is None,
{
}

/// A task that is typed for a box is given to an agent on that box.
pub proof fn law_a_typed_task_is_given_to_an_agent(a: App, b: App, box_name: Seq<char>, session: Seq<char>, buf: Seq<char>, mods: Mods, now: u64)
    requires
        modal_v(a.ui.modal) == Some(ModalV::OaitaTask { box_name, session, buf }),
        trimmed(buf).len() > 0,
        a.key_v(KeyCode::Enter, mods, now, b),
    ensures
        b.plan() == seq![
            StepV::OpenPty(
                seq![
                    a.env.exe@,
                    "oaita"@,
                    "run"@,
                    "--on"@,
                    box_name,
                    "--net"@,
                    a.net(),
                    "--task"@,
                    trimmed(buf),
                    agent_session(box_name),
                ],
            ),
        ] + a.plan(),
{
    let s = a.without_modal();
    let how = s.how_v(PlacementV::On(box_name));
    law_an_agent_gets_its_task(how, trimmed(buf));
    assert(s.resolved(launch_words(TargetV::Ai(trimmed(buf)), how)) =~= seq![
        a.env.exe@,
        "oaita"@,
        "run"@,
        "--on"@,
        box_name,
        "--net"@,
        a.net(),
        "--task"@,
        trimmed(buf),
        agent_session(box_name),
    ]);
}

/// A model that is picked, or whose address is typed, is served from that address.
pub proof fn law_a_picked_model_is_served(a: App, b: App, m: ModalV, mods: Mods, now: u64)
    requires
        modal_v(a.ui.modal) == Some(m),
        a.key_v(KeyCode::Enter, mods, now, b),
        a.env.exe@ != "sarun"@,
    ensures
        m matches ModalV::ModelPicker { models, sel, loading, .. } ==> (!loading && 0 <= sel < models.len() ==> b.plan()
            == seq![
            StepV::OpenPty(seq![a.env.exe@, "oaita"@, "local"@, "--model-url"@, models[sel].url]),
        ] + a.plan()),
        m matches ModalV::ModelUrl { buf } ==> (trimmed(buf).len() > 0 ==> b.plan() == seq![
            StepV::OpenPty(seq![a.env.exe@, "oaita"@, "local"@, "--model-url"@, trimmed(buf)]),
        ] + a.plan()),
{
    let s = a.without_modal();
    if let ModalV::ModelPicker { models, sel, loading, .. } = m {
        if !loading && 0 <= sel < models.len() {
            assert(s.local_model(Some(models[sel].url)) =~= seq![
                a.env.exe@,
                "oaita"@,
                "local"@,
                "--model-url"@,
                models[sel].url,
            ]);
        }
    }
    if let ModalV::ModelUrl { buf } = m {
        assert(s.local_model(Some(trimmed(buf))) =~= seq![
            a.env.exe@,
            "oaita"@,
            "local"@,
            "--model-url"@,
            trimmed(buf),
        ]);
    }
}

} // verus!
