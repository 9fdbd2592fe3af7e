use vstd::prelude::*;

use crate::content::{
    background_command, exec_start_line, firewall_rules, port_line, server_invocation, slowdns_unit,
    ssh_config, temporary_files, SERVICE_UNIT_HEAD, SERVICE_UNIT_TAIL, SLOWDNS_PORT, SSH_CONFIG_HEAD,
    SSH_CONFIG_TAIL, SSH_PORT, INSTALL_DIR, SERVER_BINARY, SERVER_KEY, SERVER_PUBLIC_KEY,
};
use crate::display::NoteView;
use crate::machine::{
    accepts, answer_kind, at, done_of, expected, failure_report, initial, transition, EventView, InstallerView, OpView,
    Stage,
};
use crate::menu::{log_tail, LOG_TAIL_LINES};
use crate::provision::VALIDATE_COMMAND;
use crate::report::port_check_command;
use crate::text::{decimal, lemma_trimmed_is_trimmed, trim_end, trim_start, trimmed};

verus! {

/// The position of a stage in the installation.
pub open spec fn rank(stage: Stage) -> nat {
    match stage {
        Stage::Fresh => 0,
        Stage::RootCheck => 1,
        Stage::AskNameserver => 2,
        Stage::FetchIp(i) => 3 + if i < 3 { i as nat } else { 2 },
        Stage::HostnameIp => 6,
        Stage::SshRemoveBackup => 7,
        Stage::SshBackup => 8,
        Stage::SshWriteConfig => 9,
        Stage::SshRestart => 10,
        Stage::DnsRemoveDir => 11,
        Stage::DnsCreateDir => 12,
        Stage::DnsChangeDir => 13,
        Stage::DnsDownloadBinary => 14,
        Stage::DnsChmodBinary => 15,
        Stage::DnsDownloadKey => 16,
        Stage::DnsDownloadPublicKey => 17,
        Stage::DnsValidate => 18,
        Stage::UnitWrite => 19,
        Stage::EdnsFindCompiler => 20,
        Stage::EdnsAptUpdate => 21,
        Stage::EdnsAptInstall => 22,
        Stage::EdnsWriteSource => 23,
        Stage::EdnsCompile => 24,
        Stage::EdnsChmod => 25,
        Stage::EdnsWriteUnit => 26,
        Stage::FirewallRule(i) => 27 + if i < 17 { i as nat } else { 16 },
        Stage::FirewallIpv6 => 44,
        Stage::FirewallStopResolver => 45,
        Stage::FirewallKillPort => 46,
        Stage::SvcReload => 47,
        Stage::SvcEnableSlowdns => 48,
        Stage::SvcStartSlowdns => 49,
        Stage::SvcCheckSlowdns => 50,
        Stage::SvcBackgroundSlowdns => 51,
        Stage::SvcEnableEdns => 52,
        Stage::SvcStartEdns => 53,
        Stage::SvcCheckEdns => 54,
        Stage::SvcManualEdns => 55,
        Stage::SumFlushPort53 => 56,
        Stage::SumPort53 => 57,
        Stage::SumFlushPort5300 => 58,
        Stage::SumPort5300 => 59,
        Stage::SumFlushStatus => 60,
        Stage::SumSlowdnsActive => 61,
        Stage::SumEdnsActive => 62,
        Stage::SumPublicKey => 63,
        Stage::MenuFlush => 64,
        Stage::MenuChoice => 65,
        Stage::MenuStatusSlowdns => 66,
        Stage::MenuStatusEdns => 67,
        Stage::MenuUdpPorts => 68,
        Stage::MenuTcpPorts => 69,
        Stage::MenuRestart => 70,
        Stage::MenuLog => 71,
        Stage::MenuWhichDig => 72,
        Stage::MenuDig => 73,
        Stage::MenuWhichNslookup => 74,
        Stage::MenuNslookup => 75,
        Stage::Cleanup => 76,
        Stage::Clock => 77,
        Stage::FailedCleanup => 78,
        Stage::Finished => 79,
    }
}

/// Every step moves the installation to a later stage: no stage is visited twice, and the
/// installer has finished after at most eighty steps.
pub proof fn lemma_progress(s: InstallerView, e: EventView)
    requires
        accepts(s.stage, e),
    ensures
        rank(transition(s, e).0.stage) > rank(s.stage),
        rank(transition(s, e).0.stage) <= rank(Stage::Finished),
{
}

/// Each operation is answered by exactly the kind of event that the next stage waits for,
/// so a caller that answers each operation as `Op` documents never hands the installer an
/// event it cannot take.
pub proof fn lemma_answer_expected(s: InstallerView, e: EventView)
    requires
        accepts(s.stage, e),
    ensures
        expected(transition(s, e).0.stage) == answer_kind(transition(s, e).1.op),
{
}

/// Once finished, the installer takes no further event.
pub proof fn lemma_finished_is_final(e: EventView)
    ensures
        !accepts(Stage::Finished, e),
{
}

/// The installer exits exactly when it finishes: with status 0 only when a completed
/// installation has cleaned up and read the time, with status 1 only after a failure
/// was reported and the temporary files removed.
pub proof fn lemma_exit_codes(s: InstallerView, e: EventView)
    requires
        accepts(s.stage, e),
    ensures
        (transition(s, e).1.op is Exit) <==> transition(s, e).0.stage == Stage::Finished,
        transition(s, e).1.op == (OpView::Exit { code: 0 }) ==> s.stage == Stage::Clock,
        transition(s, e).1.op == (OpView::Exit { code: 1 }) ==> s.stage == Stage::FailedCleanup,
        s.stage == Stage::FailedCleanup ==> transition(s, e).1.op == (OpView::Exit { code: 1 }),
{
}

/// Every failure is reported as `Installation failed: <reason>` on standard error and is
/// followed by the removal of the temporary files.
pub proof fn lemma_failure_report(s: InstallerView, e: EventView)
    requires
        accepts(s.stage, e),
        transition(s, e).0.stage == Stage::FailedCleanup,
    ensures
        transition(s, e).1.op == (OpView::RemoveFiles { paths: temporary_files() }),
        transition(s, e).1.notes.len() > 0,
        exists|m: Seq<char>| transition(s, e).1.notes.last() == #[trigger] failure_report(m),
{
}

/// Nothing is done to the system before the root check: the first operation is the check,
/// and a failed check fails the installation.
pub proof fn lemma_root_check_first(m: Seq<char>)
    ensures
        transition(initial(), EventView::Start).1.op == OpView::CheckRoot,
        transition(initial(), EventView::Start).0.stage == Stage::RootCheck,
        transition(transition(initial(), EventView::Start).0, EventView::Done(Err(m))).0.stage
            == Stage::FailedCleanup,
{
}

/// The nameserver changes only when the user answers for it, and the server's address only
/// while it is being detected.
pub proof fn lemma_answers_kept(s: InstallerView, e: EventView)
    requires
        accepts(s.stage, e),
    ensures
        s.stage != Stage::AskNameserver ==> transition(s, e).0.nameserver == s.nameserver,
        !(s.stage is FetchIp || s.stage == Stage::HostnameIp) ==> transition(s, e).0.server_ip == s.server_ip,
{
}

/// The stages whose operation's outcome the installer ignores.
pub open spec fn ignores_outcome(stage: Stage) -> bool {
    match stage {
        Stage::FirewallRule(_) | Stage::FirewallIpv6 | Stage::FirewallStopResolver
        | Stage::FirewallKillPort | Stage::SvcEnableSlowdns | Stage::SvcEnableEdns
        | Stage::MenuStatusSlowdns | Stage::MenuStatusEdns | Stage::MenuUdpPorts
        | Stage::MenuTcpPorts | Stage::MenuRestart | Stage::MenuDig | Stage::MenuNslookup
        | Stage::Cleanup | Stage::FailedCleanup => true,
        _ => false,
    }
}

/// Firewall rules, enabling the services, the menu's commands and the removal of temporary
/// files may fail without effect: what follows does not depend on their outcome.
pub proof fn lemma_ignored_outcomes(s: InstallerView, e1: EventView, e2: EventView)
    requires
        ignores_outcome(s.stage),
        accepts(s.stage, e1),
        accepts(s.stage, e2),
    ensures
        transition(s, e1) == transition(s, e2),
{
}

/// The first body, among the answers of the public services, that is not blank once
/// trimmed; otherwise the trimmed output of the local address command; otherwise
/// the loopback address.
pub open spec fn chosen_ip(bodies: Seq<Option<Seq<char>>>, local: Result<Seq<char>, Seq<char>>) -> Seq<char>
    decreases bodies.len(),
{
    if bodies.len() == 0 {
        match local {
            Ok(out) => trimmed(out),
            Err(_) => crate::preparation::FALLBACK_IP@,
        }
    } else {
        match bodies[0] {
            Some(t) => if trimmed(t).len() > 0 {
                trimmed(t)
            } else {
                chosen_ip(bodies.drop_first(), local)
            },
            None => chosen_ip(bodies.drop_first(), local),
        }
    }
}

/// The installer after the address lookup, fed the three services' answers and then, if
/// needed, the outcome of the local address command.
pub open spec fn detect(s: InstallerView, b0: Option<Seq<char>>, b1: Option<Seq<char>>, b2: Option<Seq<char>>, local: EventView) -> InstallerView {
    let s1 = transition(s, EventView::Fetched(b0)).0;
    if s1.stage != Stage::FetchIp(1) {
        s1
    } else {
        let s2 = transition(s1, EventView::Fetched(b1)).0;
        if s2.stage != Stage::FetchIp(2) {
            s2
        } else {
            let s3 = transition(s2, EventView::Fetched(b2)).0;
            if s3.stage != Stage::HostnameIp {
                s3
            } else {
                transition(s3, local).0
            }
        }
    }
}

/// The server's address is the first usable answer of the public services, asked in order,
/// else the local address, else `127.0.0.1`; then the OpenSSH step begins.
pub proof fn lemma_ip_detection(
    s: InstallerView,
    b0: Option<Seq<char>>,
    b1: Option<Seq<char>>,
    b2: Option<Seq<char>>,
    local: Result<crate::machine::ExitReportView, Seq<char>>,
)
    requires
        s.stage == Stage::FetchIp(0),
    ensures
        detect(s, b0, b1, b2, EventView::Exited(local)).server_ip
            == chosen_ip(seq![b0, b1, b2], crate::machine::command_result(local)),
        detect(s, b0, b1, b2, EventView::Exited(local)).stage == Stage::SshRemoveBackup,
        detect(s, b0, b1, b2, EventView::Exited(local)).nameserver == s.nameserver,
{
    let bodies = seq![b0, b1, b2];
    assert(bodies.drop_first() =~= seq![b1, b2]);
    assert(seq![b1, b2].drop_first() =~= seq![b2]);
    assert(seq![b2].drop_first() =~= Seq::<Option<Seq<char>>>::empty());
    reveal_with_fuel(chosen_ip, 4);
}

proof fn lemma_chosen_ip_trimmed(bodies: Seq<Option<Seq<char>>>, local: Result<Seq<char>, Seq<char>>)
    ensures
        trimmed(chosen_ip(bodies, local)) == chosen_ip(bodies, local),
    decreases bodies.len(),
{
    if bodies.len() == 0 {
        match local {
            Ok(out) => lemma_trimmed_is_trimmed(out),
            Err(_) => {
                reveal_strlit("127.0.0.1");
                assert(trim_start(crate::preparation::FALLBACK_IP@) == crate::preparation::FALLBACK_IP@);
                assert(trim_end(crate::preparation::FALLBACK_IP@) == crate::preparation::FALLBACK_IP@);
            },
        }
    } else {
        match bodies[0] {
            Some(t) => {
                lemma_trimmed_is_trimmed(t);
                lemma_chosen_ip_trimmed(bodies.drop_first(), local);
            },
            None => lemma_chosen_ip_trimmed(bodies.drop_first(), local),
        }
    }
}

/// The detected address carries no white space around it: trimming it changes nothing.
pub proof fn lemma_detected_ip_trimmed(
    s: InstallerView,
    b0: Option<Seq<char>>,
    b1: Option<Seq<char>>,
    b2: Option<Seq<char>>,
    local: Result<crate::machine::ExitReportView, Seq<char>>,
)
    requires
        s.stage == Stage::FetchIp(0),
    ensures
        trimmed(detect(s, b0, b1, b2, EventView::Exited(local)).server_ip)
            == detect(s, b0, b1, b2, EventView::Exited(local)).server_ip,
{
    lemma_ip_detection(s, b0, b1, b2, local);
    lemma_chosen_ip_trimmed(seq![b0, b1, b2], crate::machine::command_result(local));
}

/// Whether `x` occurs in `s` as a contiguous part.
pub open spec fn occurs_in(x: Seq<char>, s: Seq<char>) -> bool {
    exists|a: Seq<char>, b: Seq<char>| #[trigger] (a + x + b) == s
}

proof fn lemma_occurs(a: Seq<char>, x: Seq<char>, b: Seq<char>, s: Seq<char>)
    requires
        s =~= a + x + b,
    ensures
        occurs_in(x, s),
{
    assert(a + x + b == s);
}

/// The service unit starts the tunnel server with an `ExecStart=` line holding exactly the
/// command line that the fallback runs in the background when the service is not active,
/// and that command serves the nameserver the user gave.
pub proof fn lemma_same_server_command(nameserver: Seq<char>)
    ensures
        occurs_in(exec_start_line(server_invocation(nameserver)), slowdns_unit(nameserver)),
        background_command(nameserver) == server_invocation(nameserver) + " &"@,
        occurs_in(nameserver, server_invocation(nameserver)),
{
    lemma_occurs(SERVICE_UNIT_HEAD@, exec_start_line(server_invocation(nameserver)), SERVICE_UNIT_TAIL@, slowdns_unit(nameserver));
    let q = decimal(SLOWDNS_PORT as nat);
    let p = decimal(SSH_PORT as nat);
    lemma_occurs(
        INSTALL_DIR@ + "/dnstt-server -udp :"@ + q + " -mtu 1800 -privkey-file "@ + INSTALL_DIR@ + "/server.key "@,
        nameserver,
        " 127.0.0.1:"@ + p,
        server_invocation(nameserver),
    );
}

/// One port number `p` (`SSH_PORT` in decimal) is where OpenSSH listens (its `Port` line),
/// what the firewall opens for TCP, and where the tunnel server forwards to; one port number
/// `q` (`SLOWDNS_PORT`) is where the tunnel server listens for UDP, what the firewall opens
/// for UDP, and what the summary checks for a listener.
pub proof fn lemma_ports_agree(nameserver: Seq<char>)
    ensures
        ({
            let p = decimal(SSH_PORT as nat);
            &&& occurs_in(port_line(p), ssh_config())
            &&& firewall_rules()[10] == "iptables -A INPUT -p tcp --dport "@ + p + " -j ACCEPT"@
            &&& occurs_in(" 127.0.0.1:"@ + p, server_invocation(nameserver))
        }),
        ({
            let q = decimal(SLOWDNS_PORT as nat);
            &&& firewall_rules()[11] == "iptables -A INPUT -p udp --dport "@ + q + " -j ACCEPT"@
            &&& occurs_in("/dnstt-server -udp :"@ + q, server_invocation(nameserver))
            &&& port_check_command() == "ss -ulpn 2>/dev/null | grep ':"@ + q + " '"@
        }),
{
    let p = decimal(SSH_PORT as nat);
    let q = decimal(SLOWDNS_PORT as nat);
    lemma_occurs(SSH_CONFIG_HEAD@, port_line(p), SSH_CONFIG_TAIL@, ssh_config());
    lemma_occurs(
        INSTALL_DIR@ + "/dnstt-server -udp :"@ + q + " -mtu 1800 -privkey-file "@ + INSTALL_DIR@ + "/server.key "@
            + nameserver,
        " 127.0.0.1:"@ + p,
        Seq::empty(),
        server_invocation(nameserver),
    );
    lemma_occurs(
        INSTALL_DIR@,
        "/dnstt-server -udp :"@ + q,
        " -mtu 1800 -privkey-file "@ + INSTALL_DIR@ + "/server.key "@ + nameserver + " 127.0.0.1:"@ + p,
        server_invocation(nameserver),
    );
}

/// Whether the path `p` is the directory `dir` or lies below it.
pub open spec fn under(dir: Seq<char>, p: Seq<char>) -> bool {
    p == dir || (p.len() > dir.len() && p.subrange(0, dir.len() as int) == dir && p[dir.len() as int] == '/')
}

/// The paths that an operation creates, writes, removes or changes into.
pub open spec fn touched_paths(op: OpView) -> Seq<Seq<char>> {
    match op {
        OpView::RemoveFileIfExists { path } => seq![path],
        OpView::CopyFile { to, .. } => seq![to],
        OpView::WriteFile { path, .. } => seq![path],
        OpView::RemoveDirIfExists { path } => seq![path],
        OpView::CreateDirAll { path } => seq![path],
        OpView::ChangeDir { path } => seq![path],
        OpView::Download { path, .. } => seq![path],
        OpView::SetMode { path, .. } => seq![path],
        OpView::RemoveFiles { paths } => paths,
        _ => seq![],
    }
}

/// The stages of the tunnel server's setup, from clearing its directory to validating the
/// downloaded program.
pub open spec fn in_server_setup(stage: Stage) -> bool {
    match stage {
        Stage::DnsRemoveDir | Stage::DnsCreateDir | Stage::DnsChangeDir | Stage::DnsDownloadBinary
        | Stage::DnsChmodBinary | Stage::DnsDownloadKey | Stage::DnsDownloadPublicKey
        | Stage::DnsValidate => true,
        _ => false,
    }
}

/// While the tunnel server is set up, every path that an operation creates, writes, removes or
/// changes into lies under `INSTALL_DIR`; the operations are only the directory's removal and
/// creation, the change into it, the downloads, the permission change and the run of
/// `./dnstt-server --help`; and the collected answers stay as they were.
pub proof fn lemma_server_setup_confined(s: InstallerView, e: EventView)
    requires
        accepts(s.stage, e),
        in_server_setup(transition(s, e).0.stage),
    ensures
        forall|i: int| 0 <= i < touched_paths(transition(s, e).1.op).len()
            ==> under(INSTALL_DIR@, #[trigger] touched_paths(transition(s, e).1.op)[i]),
        ({
            let op = transition(s, e).1.op;
            op is RemoveDirIfExists || op is CreateDirAll || op is ChangeDir || op is Download
                || op is SetMode || op == (OpView::Run { command: VALIDATE_COMMAND@ })
        }),
        transition(s, e).0 == at(s, transition(s, e).0.stage),
{
    reveal_strlit("/etc/slowdns");
    reveal_strlit("/etc/slowdns/dnstt-server");
    reveal_strlit("/etc/slowdns/server.key");
    reveal_strlit("/etc/slowdns/server.pub");
    assert(SERVER_BINARY@.subrange(0, INSTALL_DIR@.len() as int) =~= INSTALL_DIR@);
    assert(SERVER_KEY@.subrange(0, INSTALL_DIR@.len() as int) =~= INSTALL_DIR@);
    assert(SERVER_PUBLIC_KEY@.subrange(0, INSTALL_DIR@.len() as int) =~= INSTALL_DIR@);
}

/// The installer changes its working directory once only: into `INSTALL_DIR`, right after
/// that directory was created.
pub proof fn lemma_change_dir_after_create(s: InstallerView, e: EventView)
    requires
        accepts(s.stage, e),
    ensures
        transition(s, e).0.stage == Stage::DnsCreateDir
            ==> transition(s, e).1.op == (OpView::CreateDirAll { path: INSTALL_DIR@ }),
        transition(s, e).1.op is ChangeDir ==> {
            &&& s.stage == Stage::DnsCreateDir
            &&& done_of(e) is Ok
            &&& transition(s, e).1.op == (OpView::ChangeDir { path: INSTALL_DIR@ })
        },
{
}

/// The menu shows the last `LOG_TAIL_LINES` lines of the log, or all of them when there
/// are fewer, in their order.
pub proof fn lemma_log_tail(lines: Seq<Seq<char>>)
    ensures
        log_tail(lines).len() == if lines.len() > LOG_TAIL_LINES { LOG_TAIL_LINES as nat } else { lines.len() },
        forall|i: int| 0 <= i < log_tail(lines).len()
            ==> #[trigger] log_tail(lines)[i] == lines[lines.len() - log_tail(lines).len() + i],
{
}

} // verus!
