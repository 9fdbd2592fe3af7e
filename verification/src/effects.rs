use vstd::prelude::*;

use crate::content::{
    background_command, download_url, slowdns_unit, EDNS_PROXY_UNIT, EDNS_SOURCE_FILE, EDNS_UNIT_FILE,
    INSTALL_DIR, SERVER_BINARY, SERVER_KEY, SERVER_PUBLIC_KEY, SLOWDNS_UNIT_FILE, SSH_CONFIG_FILE,
    temporary_files,
};
use crate::display::{line1, success, warning, sp, NoteView, Style};
use crate::machine::{accepts, command_result, transition, EventView, ExitReportView, InstallerView, OpView, Stage};
use crate::menu::{FIND_DIG_COMMAND, RESTART_COMMAND, STATUS_SLOWDNS_COMMAND, UDP_PORTS_COMMAND};
use crate::content::LOG_FILE;
use crate::network::{
    CHECK_EDNS_COMMAND, CHECK_SLOWDNS_COMMAND, ENABLE_EDNS_COMMAND, ENABLE_SLOWDNS_COMMAND,
    MANUAL_EDNS_COMMAND, START_EDNS_COMMAND, START_SLOWDNS_COMMAND,
};
use crate::text::trimmed;

verus! {

/// A summary check's line: a green tick with `good` when `passed`, else a yellow mark
/// with `bad`.
pub open spec fn check_line(passed: bool, good: Seq<char>, bad: Seq<char>) -> NoteView {
    if passed {
        NoteView::Line(seq![sp(Style::Plain, "\r  "@), sp(Style::Green, "✓"@), sp(Style::Plain, " "@ + good)])
    } else {
        NoteView::Line(seq![sp(Style::Plain, "\r  "@), sp(Style::Yellow, "!"@), sp(Style::Plain, " "@ + bad)])
    }
}

/// The tunnel server is started by hand exactly when `systemctl is-active server-sldns`
/// does not succeed. When the service is active the installer reports it started and goes
/// on to enable the EDNS proxy; when it is not, it warns and runs the server in the
/// background with the nameserver the user gave.
pub proof fn lemma_slowdns_started_by_hand_only_when_inactive(
    s: InstallerView,
    r: Result<ExitReportView, Seq<char>>,
)
    requires
        s.stage == Stage::SvcCheckSlowdns,
    ensures
        ({
            let t = transition(s, EventView::Exited(r));
            &&& command_result(r) is Ok ==> {
                &&& t.0.stage == Stage::SvcEnableEdns
                &&& t.1.notes.len() > 0
                &&& t.1.notes[0] == success("SlowDNS service started"@)
                &&& t.1.op == (OpView::RunSilent { command: ENABLE_EDNS_COMMAND@ })
            }
            &&& command_result(r) is Err ==> {
                &&& t.0.stage == Stage::SvcBackgroundSlowdns
                &&& t.1.notes == seq![warning("Starting SlowDNS in background"@)]
                &&& t.1.op == (OpView::RunSilent { command: background_command(s.nameserver) })
            }
            &&& (t.1.op == OpView::RunSilent { command: background_command(s.nameserver) })
                <==> command_result(r) is Err
        }),
{
    reveal_strlit("/etc/slowdns");
    reveal_strlit("systemctl enable edns-proxy > /dev/null 2>&1");
    let b = background_command(s.nameserver);
    assert(b[0] == INSTALL_DIR@[0]);
    assert(b[0] != ENABLE_EDNS_COMMAND@[0]);
}

/// The EDNS proxy is started by hand exactly when `systemctl is-active edns-proxy` does not
/// succeed; when it is active the installer goes on to the summary.
pub proof fn lemma_edns_started_by_hand_only_when_inactive(
    s: InstallerView,
    r: Result<ExitReportView, Seq<char>>,
)
    requires
        s.stage == Stage::SvcCheckEdns,
    ensures
        ({
            let t = transition(s, EventView::Exited(r));
            &&& command_result(r) is Ok ==> {
                &&& t.0.stage == Stage::SumFlushPort53
                &&& t.1.notes.len() > 0
                &&& t.1.notes[0] == success("EDNS Proxy service started"@)
                &&& t.1.op == OpView::Flush
            }
            &&& command_result(r) is Err ==> {
                &&& t.0.stage == Stage::SvcManualEdns
                &&& t.1.op == (OpView::RunSilent { command: MANUAL_EDNS_COMMAND@ })
            }
        }),
{
}

/// The summary reports all services running exactly when both `systemctl is-active` checks
/// succeeded: the tunnel server's, remembered from the step before, and the EDNS proxy's,
/// whose outcome this step takes.
pub proof fn lemma_summary_services_line(
    s: InstallerView,
    r1: Result<ExitReportView, Seq<char>>,
    r2: Result<ExitReportView, Seq<char>>,
)
    requires
        s.stage == Stage::SumSlowdnsActive,
    ensures
        ({
            let t1 = transition(s, EventView::Exited(r1));
            let t2 = transition(t1.0, EventView::Exited(r2));
            &&& t1.1.op == (OpView::Run { command: CHECK_EDNS_COMMAND@ })
            &&& t1.0.stage == Stage::SumEdnsActive
            &&& t2.1.notes == seq![check_line(
                command_result(r1) is Ok && command_result(r2) is Ok,
                "All services are running"@,
                "Some services need attention"@,
            )]
            &&& t2.1.op == (OpView::ReadText { path: SERVER_PUBLIC_KEY@ })
        }),
{
}

/// The summary's service line, taken at the step that checks the EDNS proxy: all services
/// are reported running only when the tunnel server was found active and this check
/// succeeded; a failed EDNS proxy check always asks for attention.
pub proof fn lemma_summary_needs_both_services(s: InstallerView, r: Result<ExitReportView, Seq<char>>)
    requires
        s.stage == Stage::SumEdnsActive,
    ensures
        transition(s, EventView::Exited(r)).1.notes == seq![check_line(
            s.slowdns_active && command_result(r) is Ok,
            "All services are running"@,
            "Some services need attention"@,
        )],
        command_result(r) is Err ==> transition(s, EventView::Exited(r)).1.notes[0]
            == check_line(false, "All services are running"@, "Some services need attention"@),
{
}

/// The summary asks `systemctl is-active server-sldns` before it remembers whether the
/// tunnel server runs.
pub proof fn lemma_summary_asks_slowdns_first(s: InstallerView)
    requires
        s.stage == Stage::SumFlushStatus,
    ensures
        transition(s, EventView::Done(Ok(()))).0.stage == Stage::SumSlowdnsActive,
        transition(s, EventView::Done(Ok(()))).1.op == (OpView::Run { command: CHECK_SLOWDNS_COMMAND@ }),
{
}

/// The download of the file named `f` of the release into the install directory.
pub open spec fn fetch_into_install_dir(f: Seq<char>) -> OpView {
    OpView::Download { url: download_url(f), path: INSTALL_DIR@ + "/"@ + f }
}

/// Every download stores the release's file under the same name in `INSTALL_DIR`, and only
/// the server program and its two keys are downloaded.
pub proof fn lemma_downloads_keep_their_names(s: InstallerView, e: EventView)
    requires
        accepts(s.stage, e),
        transition(s, e).1.op is Download,
    ensures
        transition(s, e).1.op == fetch_into_install_dir("dnstt-server"@)
            || transition(s, e).1.op == fetch_into_install_dir("server.key"@)
            || transition(s, e).1.op == fetch_into_install_dir("server.pub"@),
        ({
            let op = transition(s, e).1.op;
            &&& op->Download_path == SERVER_KEY@ ==> op->Download_url == download_url("server.key"@)
            &&& op->Download_path == SERVER_BINARY@ ==> op->Download_url == download_url("dnstt-server"@)
            &&& op->Download_path == SERVER_PUBLIC_KEY@ ==> op->Download_url == download_url("server.pub"@)
        }),
{
    reveal_strlit("/etc/slowdns");
    reveal_strlit("/");
    reveal_strlit("dnstt-server");
    reveal_strlit("server.key");
    reveal_strlit("server.pub");
    reveal_strlit("/etc/slowdns/dnstt-server");
    reveal_strlit("/etc/slowdns/server.key");
    reveal_strlit("/etc/slowdns/server.pub");
    assert(SERVER_BINARY@ =~= INSTALL_DIR@ + "/"@ + "dnstt-server"@);
    assert(SERVER_KEY@ =~= INSTALL_DIR@ + "/"@ + "server.key"@);
    assert(SERVER_PUBLIC_KEY@ =~= INSTALL_DIR@ + "/"@ + "server.pub"@);
    assert(SERVER_KEY@ != SERVER_BINARY@);
    assert(SERVER_KEY@[20] != SERVER_PUBLIC_KEY@[20]);
    assert(SERVER_BINARY@ != SERVER_PUBLIC_KEY@);
}

/// The downloads come in this order: the program after changing into the install
/// directory, the private key after making the program executable, the public key after
/// the private key.
pub proof fn lemma_download_order(s: InstallerView)
    ensures
        s.stage == Stage::DnsChangeDir ==> transition(s, EventView::Done(Ok(()))).1.op
            == fetch_into_install_dir("dnstt-server"@),
        s.stage == Stage::DnsChmodBinary ==> transition(s, EventView::Done(Ok(()))).1.op
            == fetch_into_install_dir("server.key"@),
        s.stage == Stage::DnsDownloadKey ==> transition(s, EventView::Done(Ok(()))).1.op
            == fetch_into_install_dir("server.pub"@),
{
    reveal_strlit("/etc/slowdns");
    reveal_strlit("/");
    reveal_strlit("dnstt-server");
    reveal_strlit("server.key");
    reveal_strlit("server.pub");
    reveal_strlit("/etc/slowdns/dnstt-server");
    reveal_strlit("/etc/slowdns/server.key");
    reveal_strlit("/etc/slowdns/server.pub");
    assert(SERVER_BINARY@ =~= INSTALL_DIR@ + "/"@ + "dnstt-server"@);
    assert(SERVER_KEY@ =~= INSTALL_DIR@ + "/"@ + "server.key"@);
    assert(SERVER_PUBLIC_KEY@ =~= INSTALL_DIR@ + "/"@ + "server.pub"@);
}

/// Each service unit file receives its own unit: the tunnel server's unit file only the
/// tunnel server's unit for the nameserver the user gave, and the EDNS proxy's unit file
/// only the proxy's unit. The tunnel server's unit is written once, after the program was
/// validated.
pub proof fn lemma_unit_files_hold_their_units(s: InstallerView, e: EventView)
    requires
        accepts(s.stage, e),
        transition(s, e).1.op is WriteFile,
    ensures
        ({
            let op = transition(s, e).1.op;
            &&& op->WriteFile_path == SLOWDNS_UNIT_FILE@ ==> {
                &&& op->WriteFile_content == slowdns_unit(s.nameserver)
                &&& s.stage == Stage::DnsValidate
            }
            &&& op->WriteFile_path == EDNS_UNIT_FILE@ ==> {
                &&& op->WriteFile_content == EDNS_PROXY_UNIT@
                &&& s.stage == Stage::EdnsChmod
            }
        }),
{
    reveal_strlit("/etc/systemd/system/server-sldns.service");
    reveal_strlit("/etc/systemd/system/edns-proxy.service");
    reveal_strlit("/etc/ssh/sshd_config");
    reveal_strlit("/tmp/edns.c");
    assert(SLOWDNS_UNIT_FILE@.len() != EDNS_UNIT_FILE@.len());
    assert(SLOWDNS_UNIT_FILE@.len() != SSH_CONFIG_FILE@.len());
    assert(SLOWDNS_UNIT_FILE@.len() != EDNS_SOURCE_FILE@.len());
    assert(EDNS_UNIT_FILE@.len() != SSH_CONFIG_FILE@.len());
    assert(EDNS_UNIT_FILE@.len() != EDNS_SOURCE_FILE@.len());
}

/// Once the proxy is compiled and made executable, its unit is written to
/// `/etc/systemd/system/edns-proxy.service`.
pub proof fn lemma_edns_unit_after_compilation(s: InstallerView)
    requires
        s.stage == Stage::EdnsChmod,
    ensures
        transition(s, EventView::Done(Ok(()))).1.op
            == (OpView::WriteFile { path: EDNS_UNIT_FILE@, content: EDNS_PROXY_UNIT@ }),
        transition(s, EventView::Done(Ok(()))).0.stage == Stage::EdnsWriteUnit,
{
}

/// The line that confirms a restart of the services.
pub open spec fn restarted_line() -> NoteView {
    line1(Style::Green, "✓ Services restarted successfully"@)
}

/// Menu answer `3` runs `systemctl restart server-sldns edns-proxy` before anything is
/// confirmed; the confirmation follows the command's outcome, after a pause, and then the
/// installation cleans up.
pub proof fn lemma_restart_runs_before_confirming(s: InstallerView, input: Seq<char>, e: EventView)
    requires
        s.stage == Stage::MenuChoice,
        trimmed(input) == "3"@,
        accepts(Stage::MenuRestart, e),
    ensures
        ({
            let t1 = transition(s, EventView::Text(Ok(input)));
            let t2 = transition(t1.0, e);
            &&& t1.0.stage == Stage::MenuRestart
            &&& t1.1.op == (OpView::Run { command: RESTART_COMMAND@ })
            &&& !t1.1.notes.contains(restarted_line())
            &&& t2.1.notes == seq![NoteView::Pause { seconds: 2 }, restarted_line()]
            &&& t2.1.op == (OpView::RemoveFiles { paths: temporary_files() })
            &&& t2.0.stage == Stage::Cleanup
        }),
{
    reveal_strlit("1");
    reveal_strlit("2");
    reveal_strlit("3");
    assert("3"@[0] != "1"@[0] && "3"@[0] != "2"@[0]);
    assert(crate::menu::menu_option("3"@) == crate::menu::MenuOption::RestartServices);
    let t1 = transition(s, EventView::Text(Ok(input)));
    assert(t1.1.notes.len() == 1);
    let title = crate::menu::menu_title("════════════════ RESTARTING SERVICES ════════════════"@);
    assert(t1.1.notes[0] == title);
    assert(title != restarted_line()) by {
        assert(title->Line_0.len() == 2);
        assert(restarted_line()->Line_0.len() == 1);
    }
}

/// The services are started in this order when each command succeeds: after the reload,
/// enable the tunnel server, start it, check it; enable the EDNS proxy, start it, check it.
/// The enabling commands' outcomes do not matter.
pub proof fn lemma_service_start_order(s: InstallerView, r: Result<ExitReportView, Seq<char>>, d: Result<(), Seq<char>>)
    requires
        command_result(r) is Ok,
    ensures
        s.stage == Stage::SvcReload ==> transition(s, EventView::Exited(r)).1.op
            == (OpView::RunSilent { command: ENABLE_SLOWDNS_COMMAND@ }),
        s.stage == Stage::SvcEnableSlowdns ==> transition(s, EventView::Done(d)).1.op
            == (OpView::Run { command: START_SLOWDNS_COMMAND@ }),
        s.stage == Stage::SvcStartSlowdns ==> transition(s, EventView::Exited(r)).1.op
            == (OpView::Run { command: CHECK_SLOWDNS_COMMAND@ }),
        s.stage == Stage::SvcEnableEdns ==> transition(s, EventView::Done(d)).1.op
            == (OpView::Run { command: START_EDNS_COMMAND@ }),
        s.stage == Stage::SvcStartEdns ==> transition(s, EventView::Exited(r)).1.op
            == (OpView::Run { command: CHECK_EDNS_COMMAND@ }),
{
}

/// What each menu answer makes the installer do first: `1` shows the tunnel server's
/// status, `2` lists the UDP listeners, `3` restarts both services, `4` reads the
/// installation log, `5` looks for `dig`; any other answer cleans up at once.
pub proof fn lemma_menu_answers(s: InstallerView, input: Seq<char>)
    requires
        s.stage == Stage::MenuChoice,
    ensures
        ({
            let c = trimmed(input);
            let t = transition(s, EventView::Text(Ok(input)));
            &&& c == "1"@ ==> t.1.op == (OpView::Run { command: STATUS_SLOWDNS_COMMAND@ })
            &&& c == "2"@ ==> t.1.op == (OpView::Run { command: UDP_PORTS_COMMAND@ })
            &&& c == "3"@ ==> t.1.op == (OpView::Run { command: RESTART_COMMAND@ })
            &&& c == "4"@ ==> t.1.op == (OpView::ReadText { path: LOG_FILE@ })
            &&& c == "5"@ ==> t.1.op == (OpView::Run { command: FIND_DIG_COMMAND@ })
            &&& (c != "1"@ && c != "2"@ && c != "3"@ && c != "4"@ && c != "5"@) ==> {
                &&& t.1.op == (OpView::RemoveFiles { paths: temporary_files() })
                &&& t.0.stage == Stage::Cleanup
            }
        }),
{
    reveal_strlit("1");
    reveal_strlit("2");
    reveal_strlit("3");
    reveal_strlit("4");
    reveal_strlit("5");
    assert("1"@[0] != "2"@[0] && "1"@[0] != "3"@[0] && "1"@[0] != "4"@[0] && "1"@[0] != "5"@[0]);
    assert("2"@[0] != "3"@[0] && "2"@[0] != "4"@[0] && "2"@[0] != "5"@[0]);
    assert("3"@[0] != "4"@[0] && "3"@[0] != "5"@[0] && "4"@[0] != "5"@[0]);
}

} // verus!
