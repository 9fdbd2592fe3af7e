use vstd::prelude::*;

use crate::content::temporary_files;
use crate::machine::{accepts, command_result, failure_report, initial, transition, EventView, InstallerView, OpView, Stage};

verus! {

/// The part of the installation that a stage belongs to, in the order in which they run:
/// root check, nameserver, server address, OpenSSH, tunnel server, its service unit,
/// EDNS proxy, firewall, services, summary, menu, cleanup, and the closing time stamp.
/// A failed installation's cleanup and the finished installer come after all of them.
pub open spec fn phase(stage: Stage) -> nat {
    match stage {
        Stage::Fresh | Stage::RootCheck => 0,
        Stage::AskNameserver => 1,
        Stage::FetchIp(_) | Stage::HostnameIp => 2,
        Stage::SshRemoveBackup | Stage::SshBackup | Stage::SshWriteConfig | Stage::SshRestart => 3,
        Stage::DnsRemoveDir | Stage::DnsCreateDir | Stage::DnsChangeDir | Stage::DnsDownloadBinary
        | Stage::DnsChmodBinary | Stage::DnsDownloadKey | Stage::DnsDownloadPublicKey
        | Stage::DnsValidate => 4,
        Stage::UnitWrite => 5,
        Stage::EdnsFindCompiler | Stage::EdnsAptUpdate | Stage::EdnsAptInstall
        | Stage::EdnsWriteSource | Stage::EdnsCompile | Stage::EdnsChmod | Stage::EdnsWriteUnit => 6,
        Stage::FirewallRule(_) | Stage::FirewallIpv6 | Stage::FirewallStopResolver
        | Stage::FirewallKillPort => 7,
        Stage::SvcReload | Stage::SvcEnableSlowdns | Stage::SvcStartSlowdns | Stage::SvcCheckSlowdns
        | Stage::SvcBackgroundSlowdns | Stage::SvcEnableEdns | Stage::SvcStartEdns
        | Stage::SvcCheckEdns | Stage::SvcManualEdns => 8,
        Stage::SumFlushPort53 | Stage::SumPort53 | Stage::SumFlushPort5300 | Stage::SumPort5300
        | Stage::SumFlushStatus | Stage::SumSlowdnsActive | Stage::SumEdnsActive
        | Stage::SumPublicKey => 9,
        Stage::MenuFlush | Stage::MenuChoice | Stage::MenuStatusSlowdns | Stage::MenuStatusEdns
        | Stage::MenuUdpPorts | Stage::MenuTcpPorts | Stage::MenuRestart | Stage::MenuLog
        | Stage::MenuWhichDig | Stage::MenuDig | Stage::MenuWhichNslookup | Stage::MenuNslookup => 10,
        Stage::Cleanup => 11,
        Stage::Clock => 12,
        Stage::FailedCleanup | Stage::Finished => 13,
    }
}

/// The last phase of a running installation.
pub open spec fn last_phase() -> nat {
    12
}

/// The stages at which an error in the outcome fails the installation.
pub open spec fn fatal(stage: Stage) -> bool {
    match stage {
        Stage::RootCheck | Stage::AskNameserver | Stage::SshRemoveBackup | Stage::SshBackup
        | Stage::SshWriteConfig | Stage::SshRestart | Stage::DnsRemoveDir | Stage::DnsCreateDir
        | Stage::DnsChangeDir | Stage::DnsDownloadBinary | Stage::DnsChmodBinary
        | Stage::DnsDownloadKey | Stage::DnsDownloadPublicKey | Stage::UnitWrite
        | Stage::EdnsAptUpdate | Stage::EdnsAptInstall | Stage::EdnsWriteSource | Stage::EdnsCompile
        | Stage::EdnsChmod | Stage::EdnsWriteUnit | Stage::SvcReload | Stage::SvcStartSlowdns
        | Stage::SvcBackgroundSlowdns | Stage::SvcStartEdns | Stage::SvcManualEdns
        | Stage::SumFlushPort53 | Stage::SumFlushPort5300 | Stage::SumFlushStatus
        | Stage::MenuFlush | Stage::MenuChoice | Stage::Clock => true,
        _ => false,
    }
}

/// The error that an outcome carries: a failed file operation or prompt, or a command
/// that could not start or did not succeed (as `run_command` reports it).
pub open spec fn event_error(e: EventView) -> Option<Seq<char>> {
    match e {
        EventView::Done(Err(m)) => Some(m),
        EventView::Exited(r) => match command_result(r) {
            Err(m) => Some(m),
            Ok(_) => None,
        },
        EventView::Text(Err(m)) => Some(m),
        _ => None,
    }
}

/// One step of a running installation stays in its phase or enters the next one, unless it
/// fails; it fails exactly when a fatal stage gets an error, and then it reports that error
/// and removes the temporary files.
pub proof fn lemma_phase_step(s: InstallerView, e: EventView)
    requires
        accepts(s.stage, e),
        phase(s.stage) <= last_phase(),
    ensures
        (transition(s, e).0.stage == Stage::FailedCleanup) <==> (fatal(s.stage) && event_error(e) is Some),
        transition(s, e).0.stage == Stage::FailedCleanup ==> {
            &&& transition(s, e).1.op == (OpView::RemoveFiles { paths: temporary_files() })
            &&& transition(s, e).1.notes.len() > 0
            &&& transition(s, e).1.notes.last() == failure_report(event_error(e)->0)
        },
        transition(s, e).0.stage != Stage::FailedCleanup ==> {
            ||| phase(transition(s, e).0.stage) == phase(s.stage)
            ||| phase(transition(s, e).0.stage) == phase(s.stage) + 1
        },
        transition(s, e).0.stage == Stage::Finished ==> s.stage == Stage::Clock,
{
}

/// The states that the installer passes through from `s` when fed `events` in turn.
pub open spec fn run_states(s: InstallerView, events: Seq<EventView>) -> Seq<InstallerView>
    decreases events.len(),
{
    if events.len() == 0 {
        seq![s]
    } else {
        let before = run_states(s, events.drop_last());
        before.push(transition(before.last(), events.last()).0)
    }
}

/// Whether the installer, started at `s`, can take each of `events` in turn.
pub open spec fn run_accepted(s: InstallerView, events: Seq<EventView>) -> bool {
    forall|i: int| 0 <= i < events.len() ==> accepts(#[trigger] run_states(s, events)[i].stage, events[i])
}

/// `run_states` holds the start and then, after each event, the state that it leads to.
pub proof fn lemma_run_states(s: InstallerView, events: Seq<EventView>)
    ensures
        run_states(s, events).len() == events.len() + 1,
        run_states(s, events)[0] == s,
        forall|i: int| 0 <= i < events.len()
            ==> #[trigger] run_states(s, events)[i + 1] == transition(run_states(s, events)[i], events[i]).0,
    decreases events.len(),
{
    if events.len() > 0 {
        let rest = events.drop_last();
        lemma_run_states(s, rest);
        assert forall|i: int| 0 <= i < events.len() implies
            #[trigger] run_states(s, events)[i + 1] == transition(run_states(s, events)[i], events[i]).0 by {
            if i < rest.len() {
                assert(rest[i] == events[i]);
                assert(run_states(s, events)[i + 1] == run_states(s, rest)[i + 1]);
                assert(run_states(s, events)[i] == run_states(s, rest)[i]);
            }
        }
    }
}

/// Whether some state among the first `j + 1` of `st` belongs to phase `k`.
pub open spec fn phase_reached(st: Seq<InstallerView>, j: int, k: nat) -> bool {
    exists|i: int| 0 <= i <= j && #[trigger] phase(st[i].stage) == k
}

proof fn lemma_no_phase_skipped(st: Seq<InstallerView>, events: Seq<EventView>, j: int)
    requires
        st.len() == events.len() + 1,
        st[0] == initial(),
        forall|i: int| 0 <= i < events.len() ==> accepts(#[trigger] st[i].stage, events[i]),
        forall|i: int| 0 <= i < events.len() ==> #[trigger] st[i + 1] == transition(st[i], events[i]).0,
        0 <= j <= events.len(),
        phase(st[j].stage) <= last_phase(),
    ensures
        forall|k: nat| k <= phase(st[j].stage) ==> phase_reached(st, j, k),
    decreases j,
{
    if j > 0 {
        let q = j - 1;
        let p = st[q];
        assert(st[q + 1] == transition(p, events[q]).0);
        assert(accepts(p.stage, events[q]));
        if phase(p.stage) > last_phase() {
            assert(p.stage == Stage::FailedCleanup || p.stage == Stage::Finished);
            assert(false);
        }
        lemma_phase_step(p, events[j - 1]);
        lemma_no_phase_skipped(st, events, j - 1);
        assert forall|k: nat| k <= phase(st[j].stage) implies phase_reached(st, j, k) by {
            if k <= phase(p.stage) {
                assert(phase_reached(st, j - 1, k));
                let i = choose|i: int| 0 <= i <= j - 1 && #[trigger] phase(st[i].stage) == k;
                assert(0 <= i <= j && phase(st[i].stage) == k);
            } else {
                assert(phase(st[j].stage) == k);
            }
        }
    } else {
        assert forall|k: nat| k <= phase(st[j].stage) implies phase_reached(st, j, k) by {
            assert(phase(st[0].stage) == k);
        }
    }
}

/// A run of the installer from its start goes through its phases in order, one after the
/// other and skipping none, until it ends or fails. It fails exactly when a fatal stage gets
/// an error; the failure reports that error and removes the temporary files, and then the
/// installer exits and takes nothing more: no later phase runs.
pub proof fn lemma_run_in_order(events: Seq<EventView>)
    requires
        run_accepted(initial(), events),
    ensures
        ({
            let st = run_states(initial(), events);
            let n = events.len() as int;
            &&& forall|j: int| 0 <= j < n && phase(#[trigger] st[j + 1].stage) <= last_phase() ==> {
                &&& phase(st[j].stage) <= phase(st[j + 1].stage)
                &&& phase(st[j + 1].stage) <= phase(st[j].stage) + 1
            }
            &&& forall|j: int, k: nat| 0 <= j <= n && k <= phase(st[j].stage) <= last_phase()
                ==> #[trigger] phase_reached(st, j, k)
            &&& forall|j: int| 0 <= j < n ==> ((#[trigger] st[j + 1].stage == Stage::FailedCleanup)
                <==> (fatal(st[j].stage) && event_error(events[j]) is Some))
            &&& forall|j: int| 0 <= j < n && #[trigger] st[j + 1].stage == Stage::FailedCleanup ==> {
                &&& transition(st[j], events[j]).1.op == (OpView::RemoveFiles { paths: temporary_files() })
                &&& transition(st[j], events[j]).1.notes.last() == failure_report(event_error(events[j])->0)
            }
            &&& forall|j: int| 0 <= j <= n && #[trigger] st[j].stage == Stage::FailedCleanup
                ==> j == n || (j + 1 == n && st[n].stage == Stage::Finished)
            &&& forall|j: int| 0 <= j <= n && #[trigger] st[j].stage == Stage::Finished ==> j == n
        }),
{
    let st = run_states(initial(), events);
    let n = events.len() as int;
    lemma_run_states(initial(), events);
    assert forall|i: int| 0 <= i < n implies accepts(#[trigger] st[i].stage, events[i]) by {
        assert(accepts(run_states(initial(), events)[i].stage, events[i]));
    }
    assert forall|j: int| 0 <= j < n implies {
        &&& (st[j + 1].stage == Stage::FailedCleanup) <==> (fatal(st[j].stage) && event_error(events[j]) is Some)
        &&& st[j + 1].stage == Stage::FailedCleanup ==> {
            &&& transition(st[j], events[j]).1.op == (OpView::RemoveFiles { paths: temporary_files() })
            &&& transition(st[j], events[j]).1.notes.last() == failure_report(event_error(events[j])->0)
        }
        &&& phase(st[j + 1].stage) <= last_phase() ==> {
            &&& phase(st[j].stage) <= phase(st[j + 1].stage)
            &&& phase(st[j + 1].stage) <= phase(st[j].stage) + 1
        }
        &&& st[j].stage == Stage::FailedCleanup ==> st[j + 1].stage == Stage::Finished
    } by {
        assert(st[j + 1] == transition(st[j], events[j]).0);
        assert(accepts(st[j].stage, events[j]));
        if phase(st[j].stage) <= last_phase() {
            lemma_phase_step(st[j], events[j]);
        }
    }
    assert forall|j: int, k: nat| 0 <= j <= n && k <= phase(st[j].stage) <= last_phase()
        implies #[trigger] phase_reached(st, j, k) by {
        lemma_no_phase_skipped(st, events, j);
    }
    assert forall|j: int| 0 <= j <= n && #[trigger] st[j].stage == Stage::FailedCleanup
        implies j == n || (j + 1 == n && st[n].stage == Stage::Finished) by {
        if j < n {
            assert(st[j + 1].stage == Stage::Finished);
            if j + 1 < n {
                assert(accepts(st[j + 1].stage, events[j + 1]));
            }
        }
    }
    assert forall|j: int| 0 <= j <= n && #[trigger] st[j].stage == Stage::Finished implies j == n by {
        if j < n {
            assert(accepts(st[j].stage, events[j]));
        }
    }
}

} // verus!
