use vstd::prelude::*;

use crate::tail::{join_lines, StderrTail};
use crate::port::{law_port_decimal_round_trip, parsed_u16};
use crate::text::{chars_of, decimal, matches_at, occurs_at, push_decimal};

verus! {

/// How many times the shell probes a freshly started server before giving up:
/// one probe every 200 ms, 30 s in all.
pub const HEALTHZ_MAX_TRIES: u32 = 150;

/// How many times a restart checks whether the old server has let go of the
/// port: one check every 200 ms, 5 s in all.
pub const PORT_RELEASE_CHECKS: u32 = 25;

/// What one probe of a starting server saw.
#[derive(Clone, Copy, Debug, PartialEq, Eq)]
pub enum Probe {
    /// The server process has exited.
    Exited,
    /// The health check answered.
    Healthy,
    /// The process runs but the health check got no good answer.
    Silent,
}

/// The watch over a server that is starting: how many probes it has taken.
pub struct ReadinessWatch {
    probes: u32,
}

/// What the watch does after a probe.
pub enum WatchStep {
    /// Sleep and probe again.
    Waiting(ReadinessWatch),
    /// The server answers: it is ready.
    Ready,
    /// The server process exited before it answered.
    Exited,
    /// The server never answered within `HEALTHZ_MAX_TRIES` probes.
    TimedOut,
}

impl ReadinessWatch {
    #[verifier::type_invariant]
    spec fn within_budget(self) -> bool {
        self.probes < HEALTHZ_MAX_TRIES
    }

    /// The number of probes taken so far.
    pub closed spec fn taken(self) -> nat {
        self.probes as nat
    }

    /// A watch that has taken no probe yet.
    pub fn new() -> (w: Self)
        ensures
            w.taken() == 0,
    {
        ReadinessWatch { probes: 0 }
    }

    /// Takes in what one probe saw. An exit is checked before the health
    /// check, and the watch ends on the first exit, on the first healthy
    /// answer, or after `HEALTHZ_MAX_TRIES` probes.
    pub fn step(self, probe: Probe) -> (s: WatchStep)
        ensures
            self.taken() < HEALTHZ_MAX_TRIES,
            match probe {
                Probe::Exited => s is Exited,
                Probe::Healthy => s is Ready,
                Probe::Silent => if self.taken() + 1 == HEALTHZ_MAX_TRIES {
                    s is TimedOut
                } else {
                    s matches WatchStep::Waiting(next) && next.taken() == self.taken() + 1
                },
            },
    {
        proof {
            use_type_invariant(&self);
        }
        match probe {
            Probe::Exited => WatchStep::Exited,
            Probe::Healthy => WatchStep::Ready,
            Probe::Silent => {
                if self.probes + 1 == HEALTHZ_MAX_TRIES {
                    WatchStep::TimedOut
                } else {
                    WatchStep::Waiting(ReadinessWatch { probes: self.probes + 1 })
                }
            },
        }
    }
}

/// The outcome of a watch, as spec values.
pub enum WatchOutcome {
    Pending(nat),
    Ready,
    Exited,
    TimedOut,
}

/// Where a watch that has taken `taken` probes goes on `probe`.
pub open spec fn watch_next(taken: nat, probe: Probe) -> WatchOutcome {
    match probe {
        Probe::Exited => WatchOutcome::Exited,
        Probe::Healthy => WatchOutcome::Ready,
        Probe::Silent => if taken + 1 >= HEALTHZ_MAX_TRIES {
            WatchOutcome::TimedOut
        } else {
            WatchOutcome::Pending(taken + 1)
        },
    }
}

/// Where a fresh watch stands after the probes `probes`, taken in order until
/// the watch ends.
pub open spec fn watch_run(probes: Seq<Probe>) -> WatchOutcome
    decreases probes.len(),
{
    if probes.len() == 0 {
        WatchOutcome::Pending(0)
    } else {
        match watch_run(probes.drop_last()) {
            WatchOutcome::Pending(taken) => watch_next(taken, probes.last()),
            done => done,
        }
    }
}

/// A watch ends after at most `HEALTHZ_MAX_TRIES` probes, whatever they see;
/// while it runs it has taken exactly as many probes as it was given, and it
/// only ever reports a ready server on a healthy probe.
pub proof fn law_watch_ends_within_budget(probes: Seq<Probe>)
    ensures
        probes.len() < HEALTHZ_MAX_TRIES ==> (watch_run(probes) matches WatchOutcome::Pending(n)
            ==> n == probes.len()),
        probes.len() >= HEALTHZ_MAX_TRIES ==> !(watch_run(probes) is Pending),
        watch_run(probes) is Ready ==> exists|i: int|
            0 <= i < probes.len() && probes[i] == Probe::Healthy,
    decreases probes.len(),
{
    if probes.len() > 0 {
        let before = probes.drop_last();
        law_watch_ends_within_budget(before);
        if watch_run(before) is Ready {
            let i = choose|i: int| 0 <= i < before.len() && before[i] == Probe::Healthy;
            assert(probes[i] == Probe::Healthy);
        }
        if watch_run(probes) is Ready && !(watch_run(before) is Ready) {
            assert(probes[probes.len() - 1] == Probe::Healthy);
        }
    }
}

/// The decision of one port check during a restart.
pub struct PortWait {
    checks: u32,
}

/// What a restart does after one check of the port.
pub enum PortWaitStep {
    /// The port is free: start the server now.
    Start,
    /// Still taken: sleep, then check again.
    SleepThenCheck(PortWait),
    /// Still taken on the last check: sleep, then start the server anyway.
    SleepThenStart,
}

impl PortWait {
    #[verifier::type_invariant]
    spec fn within_budget(self) -> bool {
        self.checks < PORT_RELEASE_CHECKS
    }

    /// The number of checks made so far.
    pub closed spec fn made(self) -> nat {
        self.checks as nat
    }

    /// No check made yet.
    pub fn new() -> (w: Self)
        ensures
            w.made() == 0,
    {
        PortWait { checks: 0 }
    }

    /// Takes in whether the port is still in use.
    pub fn step(self, port_in_use: bool) -> (s: PortWaitStep)
        ensures
            self.made() < PORT_RELEASE_CHECKS,
            !port_in_use ==> s is Start,
            port_in_use && self.made() + 1 == PORT_RELEASE_CHECKS ==> s is SleepThenStart,
            port_in_use && self.made() + 1 < PORT_RELEASE_CHECKS ==> (s matches PortWaitStep::SleepThenCheck(
                next,
            ) && next.made() == self.made() + 1),
    {
        proof {
            use_type_invariant(&self);
        }
        if !port_in_use {
            PortWaitStep::Start
        } else if self.checks + 1 == PORT_RELEASE_CHECKS {
            PortWaitStep::SleepThenStart
        } else {
            PortWaitStep::SleepThenCheck(PortWait { checks: self.checks + 1 })
        }
    }
}

/// The tray status of a shell that found a healthy server already running.
pub open spec fn attached_status_text(port: u16) -> Seq<char> {
    "运行中（外部实例）: "@ + decimal(port as nat)
}

/// The tray status of a server that this shell started and that answers.
pub open spec fn ready_status_text(port: u16) -> Seq<char> {
    "运行中: "@ + decimal(port as nat)
}

/// The tray status when an already running server was found on `port`.
pub fn attached_status(port: u16) -> (s: String)
    ensures
        s@ == attached_status_text(port),
{
    let mut s = "运行中（外部实例）: ".to_string();
    push_decimal(&mut s, port as u128);
    s
}

/// The tray status once the started server answers on `port`.
pub fn ready_status(port: u16) -> (s: String)
    ensures
        s@ == ready_status_text(port),
{
    let mut s = "运行中: ".to_string();
    push_decimal(&mut s, port as u128);
    s
}

/// The failure report when node could not be started.
pub fn spawn_failure_message(error: &str, node_path: &str) -> (m: String)
    ensures
        m@ == "无法启动 node（"@ + error@ + "）。\n查找路径: "@ + node_path@
            + "\n请确认本机已安装 Node.js ≥ 20。"@,
{
    "无法启动 node（".to_string().concat(error).concat("）。\n查找路径: ").concat(node_path).concat(
        "\n请确认本机已安装 Node.js ≥ 20。",
    )
}

/// The failure report when the server process exits before it answers: the
/// kept lines of its standard error, joined with `\n`.
pub fn exited_message(tail: &StderrTail) -> (m: String)
    ensures
        m@ == "本地服务进程已退出。\n\n"@ + join_lines(tail@),
{
    let lines = tail.joined();
    "本地服务进程已退出。\n\n".to_string().concat(lines.as_str())
}

/// The failure report when the server never answers within the budget.
pub fn timeout_message(port: u16) -> (m: String)
    ensures
        m@ == "等待服务就绪超时（30s），端口 "@ + decimal(port as nat) + " 一直无响应。"@,
{
    let mut m = "等待服务就绪超时（30s），端口 ".to_string();
    push_decimal(&mut m, port as u128);
    m.append(" 一直无响应。");
    m
}

/// The address at which the console of the server on `port` is served.
pub open spec fn console_origin(port: u16) -> Seq<char> {
    "http://127.0.0.1:"@ + decimal(port as nat)
}

/// Whether a page that finished loading belongs to the console on `port`, so
/// that a remembered password may be filled in: its URL starts with the
/// console's origin.
pub fn is_console_page(url: &str, port: u16) -> (b: bool)
    ensures
        b == occurs_at(url@, console_origin(port), 0),
{
    let mut origin = "http://127.0.0.1:".to_string();
    push_decimal(&mut origin, port as u128);
    matches_at(&chars_of(url), &chars_of(origin.as_str()), 0)
}

/// A page belongs to the console on port `p`, for every `p`, exactly when its
/// URL starts with `http://127.0.0.1:` and then the decimal digits of `p`,
/// digits that read back as `p`; the root page of that origin is one.
pub proof fn law_console_page_follows_port(url: Seq<char>, p: u16)
    ensures
        occurs_at(url, console_origin(p), 0) <==> (url.len() >= 17 + decimal(p as nat).len()
            && url.take(17) == "http://127.0.0.1:"@ && url.skip(17).take(
            decimal(p as nat).len() as int,
        ) == decimal(p as nat)),
        parsed_u16(decimal(p as nat)) == Some(p),
        occurs_at("http://127.0.0.1:"@ + decimal(p as nat) + "/"@, console_origin(p), 0),
{
    reveal_strlit("http://127.0.0.1:");
    law_port_decimal_round_trip(p);
    let d = decimal(p as nat);
    let origin = console_origin(p);
    assert(origin.len() == 17 + d.len());
    if occurs_at(url, origin, 0) {
        assert(url.take(17) =~= url.subrange(0, origin.len() as int).take(17));
        assert(url.skip(17).take(d.len() as int) =~= url.subrange(0, origin.len() as int).skip(17));
        assert(origin.take(17) =~= "http://127.0.0.1:"@);
        assert(origin.skip(17) =~= d);
    }
    if url.len() >= 17 + d.len() && url.take(17) == "http://127.0.0.1:"@ && url.skip(17).take(
        d.len() as int,
    ) == d {
        assert(url.subrange(0, origin.len() as int) =~= origin);
    }
    let root = "http://127.0.0.1:"@ + d + "/"@;
    assert(root.subrange(0, origin.len() as int) =~= origin);
}

/// Where the server's files were found.
#[derive(Clone, Copy, Debug, PartialEq, Eq)]
pub enum LayoutChoice {
    /// In the installed resources; data goes to the app data directory.
    Installed,
    /// In the installed resources, but the app data directory is unknown.
    InstalledWithoutDataDir,
    /// In the source tree two levels above the shell; data goes next to it.
    Development,
    /// Nowhere: the installation is incomplete.
    Missing,
}

/// Picks where the server runs from. The installed resources win when they
/// hold `bin/serve.js`; then the source tree; else nothing is found.
pub fn choose_layout(installed_server: bool, data_dir_known: bool, dev_server: bool) -> (c:
    LayoutChoice)
    ensures
        c == (if installed_server {
            if data_dir_known {
                LayoutChoice::Installed
            } else {
                LayoutChoice::InstalledWithoutDataDir
            }
        } else if dev_server {
            LayoutChoice::Development
        } else {
            LayoutChoice::Missing
        }),
{
    if installed_server {
        if data_dir_known {
            LayoutChoice::Installed
        } else {
            LayoutChoice::InstalledWithoutDataDir
        }
    } else if dev_server {
        LayoutChoice::Development
    } else {
        LayoutChoice::Missing
    }
}

/// The error when neither layout holds the server.
pub fn missing_server_message() -> (m: String)
    ensures
        m@ == "找不到服务端文件（bin/serve.js），安装可能不完整。"@,
{
    "找不到服务端文件（bin/serve.js），安装可能不完整。".to_string()
}

/// Which node runtime starts the server.
#[derive(Clone, Copy, Debug, PartialEq, Eq)]
pub enum NodeChoice {
    /// `node.exe` shipped next to the server.
    BundledExe,
    /// `node` shipped next to the server; it gets its execute bit back first.
    BundledUnix,
    /// `node` from the system path.
    SystemPath,
}

/// Picks the node runtime: the bundled Windows one, then the bundled Unix
/// one, then whatever `node` the system path holds.
pub fn choose_node(bundled_exe: bool, bundled_unix: bool) -> (c: NodeChoice)
    ensures
        c == (if bundled_exe {
            NodeChoice::BundledExe
        } else if bundled_unix {
            NodeChoice::BundledUnix
        } else {
            NodeChoice::SystemPath
        }),
{
    if bundled_exe {
        NodeChoice::BundledExe
    } else if bundled_unix {
        NodeChoice::BundledUnix
    } else {
        NodeChoice::SystemPath
    }
}

} // verus!
