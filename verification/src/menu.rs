use vstd::prelude::*;

use crate::content::{LOG_FILE};
use crate::display::{Note, NoteView, Style, line1, mk_line1, mk_rule, notes_view, push_note, rule, sp, span, spans_view};
use crate::machine::{Event, EventView, FileText, FileTextView, Installer, InstallerView, Op, OpView, Stage, Step, StepView, accepts, at, exited_of, fail, file_of, finish, new_notes, step_of, take_exited, take_file, take_text, text_of};
use crate::text::{lines, lines_of, owned, trim, trimmed};

verus! {

pub const STATUS_SLOWDNS_COMMAND: &'static str = "systemctl status server-sldns --no-pager -l";

pub const STATUS_EDNS_COMMAND: &'static str = "systemctl status edns-proxy --no-pager -l";

pub const UDP_PORTS_COMMAND: &'static str = "ss -ulpn | grep -E ':53|:5300'";

pub const TCP_PORTS_COMMAND: &'static str = "ss -tlnp | grep -E ':22'";

pub const RESTART_COMMAND: &'static str = "systemctl restart server-sldns edns-proxy";

pub const FIND_DIG_COMMAND: &'static str = "which dig";

pub const FIND_NSLOOKUP_COMMAND: &'static str = "which nslookup";

/// How many lines of the installation log the menu shows at most.
pub const LOG_TAIL_LINES: usize = 20;

/// The options of the menu.
#[derive(Clone, Copy, Debug, PartialEq, Eq, Structural)]
pub enum MenuOption {
    ServiceStatus,
    ListeningPorts,
    RestartServices,
    InstallationLog,
    DnsTest,
    ExitToTerminal,
    Invalid,
}

/// The option that an answer (already trimmed) selects.
pub open spec fn menu_option(choice: Seq<char>) -> MenuOption {
    if choice == "1"@ {
        MenuOption::ServiceStatus
    } else if choice == "2"@ {
        MenuOption::ListeningPorts
    } else if choice == "3"@ {
        MenuOption::RestartServices
    } else if choice == "4"@ {
        MenuOption::InstallationLog
    } else if choice == "5"@ {
        MenuOption::DnsTest
    } else if choice == "6"@ {
        MenuOption::ExitToTerminal
    } else {
        MenuOption::Invalid
    }
}

/// The option that a line typed at the menu prompt selects: the line is trimmed first.
pub fn parse_menu_option(input: &str) -> (o: MenuOption)
    ensures
        o == menu_option(trimmed(input@)),
{
    let choice = owned(trim(input));
    if choice == owned("1") {
        MenuOption::ServiceStatus
    } else if choice == owned("2") {
        MenuOption::ListeningPorts
    } else if choice == owned("3") {
        MenuOption::RestartServices
    } else if choice == owned("4") {
        MenuOption::InstallationLog
    } else if choice == owned("5") {
        MenuOption::DnsTest
    } else if choice == owned("6") {
        MenuOption::ExitToTerminal
    } else {
        MenuOption::Invalid
    }
}

/// The last `LOG_TAIL_LINES` lines of `lines`, or all of them when there are fewer.
pub open spec fn log_tail(lines: Seq<Seq<char>>) -> Seq<Seq<char>> {
    if lines.len() > LOG_TAIL_LINES {
        lines.skip(lines.len() - LOG_TAIL_LINES)
    } else {
        lines
    }
}

/// Plain lines of text.
pub open spec fn plain_lines(lines: Seq<Seq<char>>) -> Seq<NoteView> {
    Seq::new(lines.len(), |i: int| line1(Style::Plain, lines[i]))
}

/// What the menu shows of the installation log for what reading it gave.
pub open spec fn log_notes(f: FileTextView) -> Seq<NoteView> {
    match f {
        FileTextView::Missing => seq![line1(Style::Yellow, "Log file not found"@)],
        FileTextView::Unreadable => seq![],
        FileTextView::Content(c) => plain_lines(log_tail(lines_of(c))),
    }
}

/// A title line of the menu's answers.
pub open spec fn menu_title(text: Seq<char>) -> NoteView {
    NoteView::Line(seq![sp(Style::Plain, "\n"@), sp(Style::Cyan, text)])
}

pub open spec fn dig_command(ip: Seq<char>, ns: Seq<char>) -> Seq<char> {
    "dig @"@ + ip + " "@ + ns + " +short"@
}

pub open spec fn nslookup_command(ip: Seq<char>, ns: Seq<char>) -> Seq<char> {
    "nslookup "@ + ns + " "@ + ip
}

/// What the installer does for the selected option.
pub open spec fn option_transition(s: InstallerView, o: MenuOption) -> (InstallerView, StepView) {
    match o {
        MenuOption::ServiceStatus => (
            at(s, Stage::MenuStatusSlowdns),
            step_of(
                seq![menu_title("════════════════ SERVICE STATUS ════════════════"@)],
                OpView::Run { command: STATUS_SLOWDNS_COMMAND@ },
            ),
        ),
        MenuOption::ListeningPorts => (
            at(s, Stage::MenuUdpPorts),
            step_of(
                seq![
                    menu_title("════════════════ LISTENING PORTS ════════════════"@),
                    line1(Style::White, "Checking UDP ports:"@),
                ],
                OpView::Run { command: UDP_PORTS_COMMAND@ },
            ),
        ),
        MenuOption::RestartServices => (
            at(s, Stage::MenuRestart),
            step_of(
                seq![menu_title("════════════════ RESTARTING SERVICES ════════════════"@)],
                OpView::Run { command: RESTART_COMMAND@ },
            ),
        ),
        MenuOption::InstallationLog => (
            at(s, Stage::MenuLog),
            step_of(
                seq![menu_title("════════════════ INSTALLATION LOG ════════════════"@)],
                OpView::ReadText { path: LOG_FILE@ },
            ),
        ),
        MenuOption::DnsTest => (
            at(s, Stage::MenuWhichDig),
            step_of(
                seq![
                    menu_title("════════════════ DNS TEST ════════════════"@),
                    line1(Style::White, "Testing DNS query to "@ + s.nameserver + "..."@),
                ],
                OpView::Run { command: FIND_DIG_COMMAND@ },
            ),
        ),
        MenuOption::ExitToTerminal => finish(
            s,
            seq![NoteView::Line(seq![sp(Style::Plain, "\n"@), sp(Style::Green, "Returning to terminal..."@)])],
        ),
        MenuOption::Invalid => finish(
            s,
            seq![NoteView::Line(seq![sp(Style::Plain, "\n"@), sp(Style::Yellow, "Invalid option, returning to terminal..."@)])],
        ),
    }
}

pub open spec fn is_menu(stage: Stage) -> bool {
    match stage {
        Stage::MenuFlush | Stage::MenuChoice | Stage::MenuStatusSlowdns | Stage::MenuStatusEdns
        | Stage::MenuUdpPorts | Stage::MenuTcpPorts | Stage::MenuRestart | Stage::MenuLog
        | Stage::MenuWhichDig | Stage::MenuDig | Stage::MenuWhichNslookup | Stage::MenuNslookup => true,
        _ => false,
    }
}

/// The menu: read a choice and carry it out; the outcome of its commands is not shown
/// and does not matter. Then the installation finishes.
pub open spec fn menu_transition(s: InstallerView, e: EventView) -> (InstallerView, StepView) {
    match s.stage {
        Stage::MenuFlush => crate::provision::on_done(s, e, Stage::MenuChoice, seq![], OpView::ReadLine),
        Stage::MenuChoice => match text_of(e) {
            Ok(input) => option_transition(s, menu_option(trimmed(input))),
            Err(m) => fail(s, seq![], m),
        },
        Stage::MenuStatusSlowdns => (
            at(s, Stage::MenuStatusEdns),
            step_of(
                seq![menu_title("═══════════════════════════════════════════════"@)],
                OpView::Run { command: STATUS_EDNS_COMMAND@ },
            ),
        ),
        Stage::MenuUdpPorts => (
            at(s, Stage::MenuTcpPorts),
            step_of(
                seq![NoteView::Line(seq![sp(Style::Plain, "\n"@), sp(Style::White, "Checking TCP ports:"@)])],
                OpView::Run { command: TCP_PORTS_COMMAND@ },
            ),
        ),
        Stage::MenuRestart => finish(
            s,
            seq![NoteView::Pause { seconds: 2 }, line1(Style::Green, "✓ Services restarted successfully"@)],
        ),
        Stage::MenuLog => finish(s, log_notes(file_of(e))),
        Stage::MenuWhichDig => match exited_of(e) {
            Ok(_) => (at(s, Stage::MenuDig), step_of(seq![], OpView::Run { command: dig_command(s.server_ip, s.nameserver) })),
            Err(_) => (at(s, Stage::MenuWhichNslookup), step_of(seq![], OpView::Run { command: FIND_NSLOOKUP_COMMAND@ })),
        },
        Stage::MenuWhichNslookup => match exited_of(e) {
            Ok(_) => (
                at(s, Stage::MenuNslookup),
                step_of(seq![], OpView::Run { command: nslookup_command(s.server_ip, s.nameserver) }),
            ),
            Err(_) => finish(s, seq![line1(Style::Yellow, "DNS tools not available"@)]),
        },
        _ => finish(s, seq![]),
    }
}

/// The menu offered after the summary, ending with the prompt for a choice.
pub open spec fn menu_intro() -> Seq<NoteView> {
    seq![
        NoteView::Line(seq![sp(Style::Plain, "\n"@), sp(Style::CyanBold, "POST-INSTALLATION OPTIONS"@)]),
        rule(),
        NoteView::Line(seq![sp(Style::Yellow, "1."@), sp(Style::Plain, " "@), sp(Style::White, "View service status"@)]),
        NoteView::Line(seq![sp(Style::Yellow, "2."@), sp(Style::Plain, " "@), sp(Style::White, "Check listening ports"@)]),
        NoteView::Line(seq![sp(Style::Yellow, "3."@), sp(Style::Plain, " "@), sp(Style::White, "Restart all services"@)]),
        NoteView::Line(seq![sp(Style::Yellow, "4."@), sp(Style::Plain, " "@), sp(Style::White, "View installation log"@)]),
        NoteView::Line(seq![sp(Style::Yellow, "5."@), sp(Style::Plain, " "@), sp(Style::White, "Test DNS functionality"@)]),
        NoteView::Line(seq![sp(Style::Yellow, "6."@), sp(Style::Plain, " "@), sp(Style::White, "Exit to terminal"@)]),
        rule(),
        NoteView::Partial(seq![sp(Style::WhiteBold, "Select option [1-6]: "@)])
    ]
}

pub fn mk_menu_intro() -> (notes: Vec<Note>)
    ensures
        notes_view(notes@) == menu_intro(),
{

    let mut notes = new_notes();
    let v1 = vec![span(Style::Plain, "\n"), span(Style::CyanBold, "POST-INSTALLATION OPTIONS")];
    proof {
        assert(spans_view(v1@) =~= seq![sp(Style::Plain, "\n"@), sp(Style::CyanBold, "POST-INSTALLATION OPTIONS"@)]);
    }
    push_note(&mut notes, Note::Line(v1));
    push_note(&mut notes, mk_rule());
    let v2 = vec![span(Style::Yellow, "1."), span(Style::Plain, " "), span(Style::White, "View service status")];
    proof {
        assert(spans_view(v2@) =~= seq![sp(Style::Yellow, "1."@), sp(Style::Plain, " "@), sp(Style::White, "View service status"@)]);
    }
    push_note(&mut notes, Note::Line(v2));
    let v3 = vec![span(Style::Yellow, "2."), span(Style::Plain, " "), span(Style::White, "Check listening ports")];
    proof {
        assert(spans_view(v3@) =~= seq![sp(Style::Yellow, "2."@), sp(Style::Plain, " "@), sp(Style::White, "Check listening ports"@)]);
    }
    push_note(&mut notes, Note::Line(v3));
    let v4 = vec![span(Style::Yellow, "3."), span(Style::Plain, " "), span(Style::White, "Restart all services")];
    proof {
        assert(spans_view(v4@) =~= seq![sp(Style::Yellow, "3."@), sp(Style::Plain, " "@), sp(Style::White, "Restart all services"@)]);
    }
    push_note(&mut notes, Note::Line(v4));
    let v5 = vec![span(Style::Yellow, "4."), span(Style::Plain, " "), span(Style::White, "View installation log")];
    proof {
        assert(spans_view(v5@) =~= seq![sp(Style::Yellow, "4."@), sp(Style::Plain, " "@), sp(Style::White, "View installation log"@)]);
    }
    push_note(&mut notes, Note::Line(v5));
    let v6 = vec![span(Style::Yellow, "5."), span(Style::Plain, " "), span(Style::White, "Test DNS functionality")];
    proof {
        assert(spans_view(v6@) =~= seq![sp(Style::Yellow, "5."@), sp(Style::Plain, " "@), sp(Style::White, "Test DNS functionality"@)]);
    }
    push_note(&mut notes, Note::Line(v6));
    let v7 = vec![span(Style::Yellow, "6."), span(Style::Plain, " "), span(Style::White, "Exit to terminal")];
    proof {
        assert(spans_view(v7@) =~= seq![sp(Style::Yellow, "6."@), sp(Style::Plain, " "@), sp(Style::White, "Exit to terminal"@)]);
    }
    push_note(&mut notes, Note::Line(v7));
    push_note(&mut notes, mk_rule());
    let v8 = vec![span(Style::WhiteBold, "Select option [1-6]: ")];
    proof {
        assert(spans_view(v8@) =~= seq![sp(Style::WhiteBold, "Select option [1-6]: "@)]);
    }
    push_note(&mut notes, Note::Partial(v8));
    proof {
        assert(notes_view(notes@) =~= menu_intro());
    }
    notes
}

fn mk_menu_title(text: &str) -> (n: Note)
    ensures
        n@ == menu_title(text@),
{
    let v = vec![span(Style::Plain, "\n"), span(Style::Cyan, text)];
    proof {
        assert(spans_view(v@) =~= seq![sp(Style::Plain, "\n"@), sp(Style::Cyan, text@)]);
    }
    Note::Line(v)
}

fn mk_newline_line(style: Style, text: &str) -> (n: Note)
    ensures
        n@ == NoteView::Line(seq![sp(Style::Plain, "\n"@), sp(style, text@)]),
{
    let v = vec![span(Style::Plain, "\n"), span(style, text)];
    proof {
        assert(spans_view(v@) =~= seq![sp(Style::Plain, "\n"@), sp(style, text@)]);
    }
    Note::Line(v)
}

/// The last lines of a log, each as a plain line.
pub fn mk_log_tail(lines: Vec<String>) -> (notes: Vec<Note>)
    ensures
        notes_view(notes@) == plain_lines(log_tail(crate::text::strings_view(lines@))),
{
    let ghost all = crate::text::strings_view(lines@);
    let n = lines.len();
    let start = if n > LOG_TAIL_LINES { n - LOG_TAIL_LINES } else { 0 };
    let ghost tail = log_tail(all);
    assert(tail =~= all.skip(start as int));
    let mut notes = new_notes();
    let mut i = start;
    while i < n
        invariant
            start <= i <= n,
            n == lines.len(),
            all == crate::text::strings_view(lines@),
            tail =~= all.skip(start as int),
            notes_view(notes@) =~= Seq::new((i - start) as nat, |j: int| line1(Style::Plain, tail[j])),
        decreases n - i,
    {
        assert(lines@[i as int]@ == all[i as int]);
        push_note(&mut notes, mk_line1(Style::Plain, lines[i].as_str()));
        i = i + 1;
    }
    proof {
        assert(notes_view(notes@) =~= plain_lines(tail));
    }
    notes
}

/// What the menu shows of the installation log.
pub fn mk_log_notes(f: FileText) -> (notes: Vec<Note>)
    ensures
        notes_view(notes@) == log_notes(f@),
{
    match f {
        FileText::Missing => {
            let mut notes = new_notes();
            push_note(&mut notes, mk_line1(Style::Yellow, "Log file not found"));
            proof {
                assert(notes_view(notes@) =~= log_notes(f@));
            }
            notes
        },
        FileText::Unreadable => new_notes(),
        FileText::Content(c) => mk_log_tail(lines(c.as_str())),
    }
}

impl Installer {
    fn option_step(&mut self, o: MenuOption) -> (s: Step)
        ensures
            final(self)@ =~= option_transition(old(self)@, o).0,
            s@ =~= option_transition(old(self)@, o).1,
    {
        let mut notes = new_notes();
        match o {
            MenuOption::ServiceStatus => {
                push_note(&mut notes, mk_menu_title("════════════════ SERVICE STATUS ════════════════"));
                self.stage = Stage::MenuStatusSlowdns;
                Step { notes, op: Op::Run { command: owned(STATUS_SLOWDNS_COMMAND) } }
            },
            MenuOption::ListeningPorts => {
                push_note(&mut notes, mk_menu_title("════════════════ LISTENING PORTS ════════════════"));
                push_note(&mut notes, mk_line1(Style::White, "Checking UDP ports:"));
                self.stage = Stage::MenuUdpPorts;
                Step { notes, op: Op::Run { command: owned(UDP_PORTS_COMMAND) } }
            },
            MenuOption::RestartServices => {
                push_note(&mut notes, mk_menu_title("════════════════ RESTARTING SERVICES ════════════════"));
                self.stage = Stage::MenuRestart;
                Step { notes, op: Op::Run { command: owned(RESTART_COMMAND) } }
            },
            MenuOption::InstallationLog => {
                push_note(&mut notes, mk_menu_title("════════════════ INSTALLATION LOG ════════════════"));
                self.stage = Stage::MenuLog;
                Step { notes, op: Op::ReadText { path: owned(LOG_FILE) } }
            },
            MenuOption::DnsTest => {
                push_note(&mut notes, mk_menu_title("════════════════ DNS TEST ════════════════"));
                let t = owned("Testing DNS query to ").concat(self.nameserver.as_str()).concat("...");
                push_note(&mut notes, mk_line1(Style::White, t.as_str()));
                self.stage = Stage::MenuWhichDig;
                Step { notes, op: Op::Run { command: owned(FIND_DIG_COMMAND) } }
            },
            MenuOption::ExitToTerminal => {
                push_note(&mut notes, mk_newline_line(Style::Green, "Returning to terminal..."));
                self.finish(notes)
            },
            MenuOption::Invalid => {
                push_note(&mut notes, mk_newline_line(Style::Yellow, "Invalid option, returning to terminal..."));
                self.finish(notes)
            },
        }
    }

    pub fn menu_step(&mut self, e: Event) -> (s: Step)
        requires
            accepts(old(self).stage, e@),
            is_menu(old(self).stage),
        ensures
            final(self)@ =~= menu_transition(old(self)@, e@).0,
            s@ =~= menu_transition(old(self)@, e@).1,
    {
        match self.stage {
            Stage::MenuFlush => self.on_done(e, Stage::MenuChoice, new_notes(), Op::ReadLine),
            Stage::MenuChoice => match take_text(e) {
                Ok(input) => {
                    let o = parse_menu_option(input.as_str());
                    self.option_step(o)
                },
                Err(m) => self.fail(new_notes(), m),
            },
            Stage::MenuStatusSlowdns => {
                let mut notes = new_notes();
                push_note(&mut notes, mk_menu_title("═══════════════════════════════════════════════"));
                self.stage = Stage::MenuStatusEdns;
                Step { notes, op: Op::Run { command: owned(STATUS_EDNS_COMMAND) } }
            },
            Stage::MenuUdpPorts => {
                let mut notes = new_notes();
                push_note(&mut notes, mk_newline_line(Style::White, "Checking TCP ports:"));
                self.stage = Stage::MenuTcpPorts;
                Step { notes, op: Op::Run { command: owned(TCP_PORTS_COMMAND) } }
            },
            Stage::MenuRestart => {
                let mut notes = new_notes();
                push_note(&mut notes, Note::Pause { seconds: 2 });
                push_note(&mut notes, mk_line1(Style::Green, "✓ Services restarted successfully"));
                self.finish(notes)
            },
            Stage::MenuLog => {
                let notes = mk_log_notes(take_file(e));
                self.finish(notes)
            },
            Stage::MenuWhichDig => match take_exited(e) {
                Ok(_) => {
                    let command = owned("dig @")
                        .concat(self.server_ip.as_str())
                        .concat(" ")
                        .concat(self.nameserver.as_str())
                        .concat(" +short");
                    self.stage = Stage::MenuDig;
                    Step { notes: new_notes(), op: Op::Run { command } }
                },
                Err(_) => {
                    self.stage = Stage::MenuWhichNslookup;
                    Step { notes: new_notes(), op: Op::Run { command: owned(FIND_NSLOOKUP_COMMAND) } }
                },
            },
            Stage::MenuWhichNslookup => match take_exited(e) {
                Ok(_) => {
                    let command = owned("nslookup ")
                        .concat(self.nameserver.as_str())
                        .concat(" ")
                        .concat(self.server_ip.as_str());
                    self.stage = Stage::MenuNslookup;
                    Step { notes: new_notes(), op: Op::Run { command } }
                },
                Err(_) => {
                    let mut notes = new_notes();
                    push_note(&mut notes, mk_line1(Style::Yellow, "DNS tools not available"));
                    self.finish(notes)
                },
            },
            _ => self.finish(new_notes()),
        }
    }
}

} // verus!
