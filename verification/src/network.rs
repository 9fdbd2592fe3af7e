use vstd::prelude::*;

use crate::content::{background_command, firewall_rules, make_background_command, make_firewall_rules};
use crate::display::{Note, NoteView, append_notes, info, mk_info, mk_progress, mk_step_end, mk_step_start, mk_success, mk_warning, notes_view, progress, push_note, rule, step_end, step_start, success, warning};
use crate::machine::{Event, EventView, Installer, InstallerView, Op, OpView, Stage, Step, StepView, accepts, at, done_of, exited_of, fail, new_notes, step_of, take_done, take_exited};
use crate::text::owned;

verus! {

pub const FIREWALL_RULE_COUNT: u8 = 17;

pub const DISABLE_IPV6_COMMAND: &'static str = "echo 1 > /proc/sys/net/ipv6/conf/all/disable_ipv6";

pub const STOP_RESOLVER_COMMAND: &'static str = "systemctl stop systemd-resolved 2>/dev/null";

pub const KILL_PORT_COMMAND: &'static str = "pkill -f '53/udp' 2>/dev/null";

pub const RELOAD_COMMAND: &'static str = "systemctl daemon-reload";

pub const ENABLE_SLOWDNS_COMMAND: &'static str = "systemctl enable server-sldns > /dev/null 2>&1";

pub const START_SLOWDNS_COMMAND: &'static str = "systemctl start server-sldns";

pub const CHECK_SLOWDNS_COMMAND: &'static str = "systemctl is-active server-sldns";

pub const ENABLE_EDNS_COMMAND: &'static str = "systemctl enable edns-proxy > /dev/null 2>&1";

pub const START_EDNS_COMMAND: &'static str = "systemctl start edns-proxy";

pub const CHECK_EDNS_COMMAND: &'static str = "systemctl is-active edns-proxy";

pub const MANUAL_EDNS_COMMAND: &'static str = "/usr/local/bin/edns-proxy &";

/// The opening of the firewall step.
pub open spec fn firewall_intro() -> Seq<NoteView> {
    step_start(5, "CONFIGURE FIREWALL"@) + seq![
        info("Configuring system firewall"@),
        progress("Setting up firewall rules..."@, 800),
    ]
}

/// After `notes`, the firewall step begins with its first rule.
pub open spec fn firewall_begin(s: InstallerView, notes: Seq<NoteView>) -> (InstallerView, StepView) {
    (
        at(s, Stage::FirewallRule(0)),
        step_of(notes + firewall_intro(), OpView::RunSilent { command: firewall_rules()[0] }),
    )
}

/// After `notes`, the service step begins by reloading systemd.
pub open spec fn services_begin(s: InstallerView, notes: Seq<NoteView>) -> (InstallerView, StepView) {
    (
        at(s, Stage::SvcReload),
        step_of(
            notes + step_start(6, "START SERVICES"@).push(info("Starting all services"@)),
            OpView::Run { command: RELOAD_COMMAND@ },
        ),
    )
}

/// After `notes`, the proxy service is enabled.
pub open spec fn edns_start(s: InstallerView, notes: Seq<NoteView>) -> (InstallerView, StepView) {
    (
        at(s, Stage::SvcEnableEdns),
        step_of(notes.push(progress("Starting EDNS Proxy service..."@, 1000)), OpView::RunSilent { command: ENABLE_EDNS_COMMAND@ }),
    )
}

/// The close of the service step.
pub open spec fn services_outro() -> Seq<NoteView> {
    seq![
        progress("Verifying service status..."@, 1500),
        success("Service verification complete"@),
        success("All services started successfully"@),
        step_end(),
    ]
}

pub open spec fn is_network(stage: Stage) -> bool {
    match stage {
        Stage::FirewallRule(_) | Stage::FirewallIpv6 | Stage::FirewallStopResolver
        | Stage::FirewallKillPort | Stage::SvcReload | Stage::SvcEnableSlowdns
        | Stage::SvcStartSlowdns | Stage::SvcCheckSlowdns | Stage::SvcBackgroundSlowdns
        | Stage::SvcEnableEdns | Stage::SvcStartEdns | Stage::SvcCheckEdns | Stage::SvcManualEdns => true,
        _ => false,
    }
}

/// Firewall rules (whose failures are ignored) and the start of both services. A service
/// that `systemctl is-active` does not report as running is started by hand.
pub open spec fn network_transition(s: InstallerView, e: EventView) -> (InstallerView, StepView) {
    match s.stage {
        Stage::FirewallRule(i) => if i + 1 < FIREWALL_RULE_COUNT {
            (
                at(s, Stage::FirewallRule((i + 1) as u8)),
                step_of(seq![], OpView::RunSilent { command: firewall_rules()[i + 1] }),
            )
        } else {
            (
                at(s, Stage::FirewallIpv6),
                step_of(seq![info("Disabling IPv6..."@)], OpView::RunSilent { command: DISABLE_IPV6_COMMAND@ }),
            )
        },
        Stage::FirewallIpv6 => (
            at(s, Stage::FirewallStopResolver),
            step_of(
                seq![success("Firewall rules configured"@), progress("Stopping conflicting DNS services..."@, 500)],
                OpView::RunSilent { command: STOP_RESOLVER_COMMAND@ },
            ),
        ),
        Stage::FirewallStopResolver => (
            at(s, Stage::FirewallKillPort),
            step_of(seq![], OpView::RunSilent { command: KILL_PORT_COMMAND@ }),
        ),
        Stage::FirewallKillPort => services_begin(
            s,
            seq![success("DNS services stopped"@), success("Firewall and network configured"@), step_end()],
        ),
        Stage::SvcReload => match exited_of(e) {
            Ok(_) => (
                at(s, Stage::SvcEnableSlowdns),
                step_of(
                    seq![progress("Starting SlowDNS service..."@, 1000)],
                    OpView::RunSilent { command: ENABLE_SLOWDNS_COMMAND@ },
                ),
            ),
            Err(m) => fail(s, seq![], m),
        },
        Stage::SvcEnableSlowdns => (
            at(s, Stage::SvcStartSlowdns),
            step_of(seq![], OpView::Run { command: START_SLOWDNS_COMMAND@ }),
        ),
        Stage::SvcStartSlowdns => match exited_of(e) {
            Ok(_) => (
                at(s, Stage::SvcCheckSlowdns),
                step_of(seq![NoteView::Pause { seconds: 2 }], OpView::Run { command: CHECK_SLOWDNS_COMMAND@ }),
            ),
            Err(m) => fail(s, seq![], m),
        },
        Stage::SvcCheckSlowdns => match exited_of(e) {
            Ok(_) => edns_start(s, seq![success("SlowDNS service started"@)]),
            Err(_) => (
                at(s, Stage::SvcBackgroundSlowdns),
                step_of(
                    seq![warning("Starting SlowDNS in background"@)],
                    OpView::RunSilent { command: background_command(s.nameserver) },
                ),
            ),
        },
        Stage::SvcBackgroundSlowdns => match done_of(e) {
            Ok(_) => edns_start(s, seq![]),
            Err(m) => fail(s, seq![], m),
        },
        Stage::SvcEnableEdns => (
            at(s, Stage::SvcStartEdns),
            step_of(seq![], OpView::Run { command: START_EDNS_COMMAND@ }),
        ),
        Stage::SvcStartEdns => match exited_of(e) {
            Ok(_) => (
                at(s, Stage::SvcCheckEdns),
                step_of(seq![NoteView::Pause { seconds: 2 }], OpView::Run { command: CHECK_EDNS_COMMAND@ }),
            ),
            Err(m) => fail(s, seq![], m),
        },
        Stage::SvcCheckEdns => match exited_of(e) {
            Ok(_) => crate::report::summary_begin(s, seq![success("EDNS Proxy service started"@)] + services_outro()),
            Err(_) => (
                at(s, Stage::SvcManualEdns),
                step_of(
                    seq![warning("Starting EDNS Proxy manually"@)],
                    OpView::RunSilent { command: MANUAL_EDNS_COMMAND@ },
                ),
            ),
        },
        _ => match done_of(e) {
            Ok(_) => crate::report::summary_begin(s, services_outro()),
            Err(m) => fail(s, seq![], m),
        },
    }
}

fn mk_services_outro() -> (notes: Vec<Note>)
    ensures
        notes_view(notes@) == services_outro(),
{
    let mut notes = new_notes();
    push_note(&mut notes, mk_progress("Verifying service status...", 1500));
    push_note(&mut notes, mk_success("Service verification complete"));
    push_note(&mut notes, mk_success("All services started successfully"));
    push_note(&mut notes, mk_step_end());
    proof {
        assert(notes_view(notes@) =~= services_outro());
    }
    notes
}

impl Installer {
    pub fn firewall_begin(&mut self, notes: Vec<Note>) -> (s: Step)
        ensures
            final(self)@ =~= firewall_begin(old(self)@, notes_view(notes@)).0,
            s@ =~= firewall_begin(old(self)@, notes_view(notes@)).1,
    {
        let mut notes = notes;
        append_notes(&mut notes, mk_step_start(5, "CONFIGURE FIREWALL"));
        push_note(&mut notes, mk_info("Configuring system firewall"));
        push_note(&mut notes, mk_progress("Setting up firewall rules...", 800));
        let mut rules = make_firewall_rules();
        proof {
            assert(firewall_rules().len() == FIREWALL_RULE_COUNT);
            assert(crate::text::strings_view(rules@).len() == rules@.len());
            assert(crate::text::strings_view(rules@)[0] == rules@[0]@);
        }
        let first = rules.remove(0);
        self.stage = Stage::FirewallRule(0);
        Step { notes, op: Op::RunSilent { command: first } }
    }

    fn services_begin(&mut self, notes: Vec<Note>) -> (s: Step)
        ensures
            final(self)@ =~= services_begin(old(self)@, notes_view(notes@)).0,
            s@ =~= services_begin(old(self)@, notes_view(notes@)).1,
    {
        let mut notes = notes;
        append_notes(&mut notes, mk_step_start(6, "START SERVICES"));
        push_note(&mut notes, mk_info("Starting all services"));
        self.stage = Stage::SvcReload;
        Step { notes, op: Op::Run { command: owned(RELOAD_COMMAND) } }
    }

    fn edns_start(&mut self, notes: Vec<Note>) -> (s: Step)
        ensures
            final(self)@ =~= edns_start(old(self)@, notes_view(notes@)).0,
            s@ =~= edns_start(old(self)@, notes_view(notes@)).1,
    {
        let mut notes = notes;
        push_note(&mut notes, mk_progress("Starting EDNS Proxy service...", 1000));
        self.stage = Stage::SvcEnableEdns;
        Step { notes, op: Op::RunSilent { command: owned(ENABLE_EDNS_COMMAND) } }
    }

    fn run_silent_next(&mut self, next: Stage, notes: Vec<Note>, command: &str) -> (s: Step)
        ensures
            final(self)@ == at(old(self)@, next),
            s@ == step_of(notes_view(notes@), OpView::RunSilent { command: command@ }),
    {
        self.stage = next;
        Step { notes, op: Op::RunSilent { command: owned(command) } }
    }

    fn run_next(&mut self, next: Stage, notes: Vec<Note>, command: &str) -> (s: Step)
        ensures
            final(self)@ == at(old(self)@, next),
            s@ == step_of(notes_view(notes@), OpView::Run { command: command@ }),
    {
        self.stage = next;
        Step { notes, op: Op::Run { command: owned(command) } }
    }

    pub fn network_step(&mut self, e: Event) -> (s: Step)
        requires
            accepts(old(self).stage, e@),
            is_network(old(self).stage),
        ensures
            final(self)@ =~= network_transition(old(self)@, e@).0,
            s@ =~= network_transition(old(self)@, e@).1,
    {
        match self.stage {
            Stage::FirewallRule(i) => if i < FIREWALL_RULE_COUNT - 1 {
                let mut rules = make_firewall_rules();
                proof {
                    assert(firewall_rules().len() == FIREWALL_RULE_COUNT);
                    assert(crate::text::strings_view(rules@).len() == rules@.len());
                    assert(crate::text::strings_view(rules@)[i + 1] == rules@[i + 1]@);
                }
                let command = rules.remove((i + 1) as usize);
                self.stage = Stage::FirewallRule(i + 1);
                Step { notes: new_notes(), op: Op::RunSilent { command } }
            } else {
                let mut notes = new_notes();
                push_note(&mut notes, mk_info("Disabling IPv6..."));
                self.run_silent_next(Stage::FirewallIpv6, notes, DISABLE_IPV6_COMMAND)
            },
            Stage::FirewallIpv6 => {
                let mut notes = new_notes();
                push_note(&mut notes, mk_success("Firewall rules configured"));
                push_note(&mut notes, mk_progress("Stopping conflicting DNS services...", 500));
                self.run_silent_next(Stage::FirewallStopResolver, notes, STOP_RESOLVER_COMMAND)
            },
            Stage::FirewallStopResolver => self.run_silent_next(Stage::FirewallKillPort, new_notes(), KILL_PORT_COMMAND),
            Stage::FirewallKillPort => {
                let mut notes = new_notes();
                push_note(&mut notes, mk_success("DNS services stopped"));
                push_note(&mut notes, mk_success("Firewall and network configured"));
                push_note(&mut notes, mk_step_end());
                self.services_begin(notes)
            },
            Stage::SvcReload => match take_exited(e) {
                Ok(_) => {
                    let mut notes = new_notes();
                    push_note(&mut notes, mk_progress("Starting SlowDNS service...", 1000));
                    self.run_silent_next(Stage::SvcEnableSlowdns, notes, ENABLE_SLOWDNS_COMMAND)
                },
                Err(m) => self.fail(new_notes(), m),
            },
            Stage::SvcEnableSlowdns => self.run_next(Stage::SvcStartSlowdns, new_notes(), START_SLOWDNS_COMMAND),
            Stage::SvcStartSlowdns => match take_exited(e) {
                Ok(_) => {
                    let mut notes = new_notes();
                    push_note(&mut notes, Note::Pause { seconds: 2 });
                    self.run_next(Stage::SvcCheckSlowdns, notes, CHECK_SLOWDNS_COMMAND)
                },
                Err(m) => self.fail(new_notes(), m),
            },
            Stage::SvcCheckSlowdns => match take_exited(e) {
                Ok(_) => {
                    let mut notes = new_notes();
                    push_note(&mut notes, mk_success("SlowDNS service started"));
                    self.edns_start(notes)
                },
                Err(_) => {
                    let mut notes = new_notes();
                    push_note(&mut notes, mk_warning("Starting SlowDNS in background"));
                    let command = make_background_command(self.nameserver.as_str());
                    self.run_silent_next(Stage::SvcBackgroundSlowdns, notes, command.as_str())
                },
            },
            Stage::SvcBackgroundSlowdns => match take_done(e) {
                Ok(()) => self.edns_start(new_notes()),
                Err(m) => self.fail(new_notes(), m),
            },
            Stage::SvcEnableEdns => self.run_next(Stage::SvcStartEdns, new_notes(), START_EDNS_COMMAND),
            Stage::SvcStartEdns => match take_exited(e) {
                Ok(_) => {
                    let mut notes = new_notes();
                    push_note(&mut notes, Note::Pause { seconds: 2 });
                    self.run_next(Stage::SvcCheckEdns, notes, CHECK_EDNS_COMMAND)
                },
                Err(m) => self.fail(new_notes(), m),
            },
            Stage::SvcCheckEdns => match take_exited(e) {
                Ok(_) => {
                    let mut notes = new_notes();
                    push_note(&mut notes, mk_success("EDNS Proxy service started"));
                    append_notes(&mut notes, mk_services_outro());
                    self.summary_begin(notes)
                },
                Err(_) => {
                    let mut notes = new_notes();
                    push_note(&mut notes, mk_warning("Starting EDNS Proxy manually"));
                    self.run_silent_next(Stage::SvcManualEdns, notes, MANUAL_EDNS_COMMAND)
                },
            },
            _ => match take_done(e) {
                Ok(()) => self.summary_begin(mk_services_outro()),
                Err(m) => self.fail(new_notes(), m),
            },
        }
    }
}

} // verus!
