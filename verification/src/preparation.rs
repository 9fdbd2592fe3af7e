use vstd::prelude::*;

use crate::content::{DEFAULT_NAMESERVER};
use crate::display::{Note, NoteView, Style, blank, header, info, line1, mk_blank, mk_header, mk_info, mk_line1, mk_success, mk_warning, push_note, success, warning};
use crate::machine::{Event, EventView, Installer, InstallerView, Op, OpView, Stage, Step, StepView, accepts, at, done_of, exited_of, fail, fetched_of, new_notes, step_of, take_done, take_exited, take_fetched, take_text, text_of};
use crate::text::{owned, trim, trimmed};

verus! {

/// The raw effective user id of this process (`nix::unistd::Uid::effective`).
/// Nothing is stated of it: it depends on how the process was started.
#[verifier::external_body]
fn effective_uid() -> (uid: u32) {
    nix::unistd::Uid::effective().as_raw()
}

/// `nix::unistd::Uid::is_root`: true exactly for user id 0.
#[verifier::external_body]
fn uid_is_root(uid: u32) -> (b: bool)
    ensures
        b == (uid == 0),
{
    nix::unistd::Uid::from_raw(uid).is_root()
}

pub const NOT_ROOT_MESSAGE: &'static str = "Please run this script as root";

/// What the root check answers for the user id `uid`: success exactly for root.
pub fn check_root_of(uid: u32) -> (r: Result<(), String>)
    ensures
        r is Ok <==> uid == 0,
        r matches Err(m) ==> m@ == NOT_ROOT_MESSAGE@,
{
    if !uid_is_root(uid) {
        return Err(owned(NOT_ROOT_MESSAGE));
    }
    Ok(())
}

/// Checks that the process runs as root; otherwise it reports `NOT_ROOT_MESSAGE`.
pub fn check_root() -> (r: Result<(), String>)
    ensures
        r matches Err(m) ==> m@ == NOT_ROOT_MESSAGE@,
{
    check_root_of(effective_uid())
}

pub const BANNER: &'static str = "
╔══════════════════════════════════════════════════════════╗
║          🚀 MODERN SLOWDNS INSTALLATION SCRIPT           ║
║            Fast & Professional Configuration             ║
║                Optimized for Performance                 ║
╚══════════════════════════════════════════════════════════╝
        ";

pub const IP_SOURCE_COUNT: u8 = 3;

pub const HOSTNAME_COMMAND: &'static str = "hostname -I | awk '{print $1}'";

pub const FALLBACK_IP: &'static str = "127.0.0.1";

/// The name of the `i`-th public service that tells the server its address.
pub open spec fn ip_source_name(i: u8) -> Seq<char> {
    if i == 0 {
        "ifconfig.me"@
    } else if i == 1 {
        "ipinfo.io"@
    } else {
        "icanhazip.com"@
    }
}

/// The address of the `i`-th public service that tells the server its address.
pub open spec fn ip_source_url(i: u8) -> Seq<char> {
    if i == 0 {
        "https://ifconfig.me"@
    } else if i == 1 {
        "https://ipinfo.io/ip"@
    } else {
        "https://icanhazip.com"@
    }
}

fn source_name(i: u8) -> (s: &'static str)
    ensures
        s@ == ip_source_name(i),
{
    if i == 0 {
        "ifconfig.me"
    } else if i == 1 {
        "ipinfo.io"
    } else {
        "icanhazip.com"
    }
}

fn source_url(i: u8) -> (s: &'static str)
    ensures
        s@ == ip_source_url(i),
{
    if i == 0 {
        "https://ifconfig.me"
    } else if i == 1 {
        "https://ipinfo.io/ip"
    } else {
        "https://icanhazip.com"
    }
}

/// The banner and the explanation shown before the nameserver is asked for.
pub open spec fn nameserver_prompt_notes() -> Seq<NoteView> {
    seq![
        NoteView::ClearScreen,
        line1(Style::CyanBold, BANNER@),
        info("Enter nameserver configuration:"@),
        line1(Style::Yellow, "Default: dns.example.com"@),
        line1(Style::Yellow, "Example: tunnel.yourdomain.com"@),
        blank(),
    ]
}

/// The header shown once the nameserver is known, before the address is looked up.
pub open spec fn gathering_notes() -> Seq<NoteView> {
    header("📦 GATHERING SYSTEM INFORMATION"@).push(info("Detecting server IP address..."@))
}

/// After source `i` gave nothing usable: the next source, or the local address.
pub open spec fn next_ip_source(s: InstallerView, i: u8) -> (InstallerView, StepView) {
    if i + 1 < IP_SOURCE_COUNT {
        (at(s, Stage::FetchIp((i + 1) as u8)), step_of(seq![], OpView::Fetch { url: ip_source_url((i + 1) as u8) }))
    } else {
        (at(s, Stage::HostnameIp), step_of(seq![], OpView::Run { command: HOSTNAME_COMMAND@ }))
    }
}

/// What the body fetched from source `i` decides: a body that is not blank once trimmed
/// is the server's address.
pub open spec fn ip_fetch_transition(s: InstallerView, i: u8, body: Option<Seq<char>>) -> (InstallerView, StepView) {
    match body {
        Some(t) => if trimmed(t).len() > 0 {
            crate::provision::ssh_begin(
                InstallerView { server_ip: trimmed(t), ..s },
                seq![success("Server IP detected via "@ + ip_source_name(i) + ": "@ + trimmed(t))],
            )
        } else {
            next_ip_source(s, i)
        },
        None => next_ip_source(s, i),
    }
}

/// What the local address command decides: its trimmed output, or `127.0.0.1` when it failed.
pub open spec fn hostname_transition(s: InstallerView, r: Result<Seq<char>, Seq<char>>) -> (InstallerView, StepView) {
    match r {
        Ok(out) => crate::provision::ssh_begin(
            InstallerView { server_ip: trimmed(out), ..s },
            seq![success("Local IP: "@ + trimmed(out))],
        ),
        Err(_) => crate::provision::ssh_begin(
            InstallerView { server_ip: FALLBACK_IP@, ..s },
            seq![warning("Could not detect IP, using 127.0.0.1"@)],
        ),
    }
}

pub open spec fn is_preparation(stage: Stage) -> bool {
    match stage {
        Stage::Fresh | Stage::RootCheck | Stage::AskNameserver | Stage::FetchIp(_) | Stage::HostnameIp => true,
        _ => false,
    }
}

/// Root check, nameserver, and the server's address.
pub open spec fn preparation_transition(s: InstallerView, e: EventView) -> (InstallerView, StepView) {
    match s.stage {
        Stage::Fresh => (at(s, Stage::RootCheck), step_of(seq![], OpView::CheckRoot)),
        Stage::RootCheck => match done_of(e) {
            Ok(_) => (
                at(s, Stage::AskNameserver),
                step_of(
                    nameserver_prompt_notes(),
                    OpView::AskNameserver { prompt: "Enter nameserver"@, default: DEFAULT_NAMESERVER@ },
                ),
            ),
            Err(m) => fail(s, seq![], m),
        },
        Stage::AskNameserver => match text_of(e) {
            Ok(ns) => (
                InstallerView { stage: Stage::FetchIp(0), nameserver: ns, ..s },
                step_of(gathering_notes(), OpView::Fetch { url: ip_source_url(0) }),
            ),
            Err(m) => fail(s, seq![], m),
        },
        Stage::FetchIp(i) => ip_fetch_transition(s, i, fetched_of(e)),
        _ => hostname_transition(s, exited_of(e)),
    }
}

impl Installer {
    fn next_ip_source(&mut self, i: u8) -> (s: Step)
        ensures
            final(self)@ =~= next_ip_source(old(self)@, i).0,
            s@ =~= next_ip_source(old(self)@, i).1,
    {
        if i < IP_SOURCE_COUNT - 1 {
            self.stage = Stage::FetchIp(i + 1);
            Step { notes: new_notes(), op: Op::Fetch { url: owned(source_url(i + 1)) } }
        } else {
            self.stage = Stage::HostnameIp;
            Step { notes: new_notes(), op: Op::Run { command: owned(HOSTNAME_COMMAND) } }
        }
    }

    pub fn preparation_step(&mut self, e: Event) -> (s: Step)
        requires
            accepts(old(self).stage, e@),
            is_preparation(old(self).stage),
        ensures
            final(self)@ =~= preparation_transition(old(self)@, e@).0,
            s@ =~= preparation_transition(old(self)@, e@).1,
    {
        match self.stage {
            Stage::Fresh => {
                self.stage = Stage::RootCheck;
                Step { notes: new_notes(), op: Op::CheckRoot }
            },
            Stage::RootCheck => match take_done(e) {
                Ok(()) => {
                    let mut notes = new_notes();
                    push_note(&mut notes, Note::ClearScreen);
                    push_note(&mut notes, mk_line1(Style::CyanBold, BANNER));
                    push_note(&mut notes, mk_info("Enter nameserver configuration:"));
                    push_note(&mut notes, mk_line1(Style::Yellow, "Default: dns.example.com"));
                    push_note(&mut notes, mk_line1(Style::Yellow, "Example: tunnel.yourdomain.com"));
                    push_note(&mut notes, mk_blank());
                    self.stage = Stage::AskNameserver;
                    Step {
                        notes,
                        op: Op::AskNameserver { prompt: owned("Enter nameserver"), default: owned(DEFAULT_NAMESERVER) },
                    }
                },
                Err(m) => self.fail(new_notes(), m),
            },
            Stage::AskNameserver => match take_text(e) {
                Ok(ns) => {
                    let mut notes = mk_header("📦 GATHERING SYSTEM INFORMATION");
                    push_note(&mut notes, mk_info("Detecting server IP address..."));
                    self.nameserver = ns;
                    self.stage = Stage::FetchIp(0);
                    Step { notes, op: Op::Fetch { url: owned(source_url(0)) } }
                },
                Err(m) => self.fail(new_notes(), m),
            },
            Stage::FetchIp(i) => match take_fetched(e) {
                Some(body) => {
                    let ip = trim(body.as_str());
                    if ip.is_empty() {
                        self.next_ip_source(i)
                    } else {
                        let mut notes = new_notes();
                        let text = owned("Server IP detected via ").concat(source_name(i)).concat(": ").concat(ip);
                        push_note(&mut notes, mk_success(text.as_str()));
                        self.server_ip = owned(ip);
                        self.ssh_begin(notes)
                    }
                },
                None => self.next_ip_source(i),
            },
            _ => match take_exited(e) {
                Ok(out) => {
                    let ip = trim(out.as_str());
                    let mut notes = new_notes();
                    let text = owned("Local IP: ").concat(ip);
                    push_note(&mut notes, mk_success(text.as_str()));
                    self.server_ip = owned(ip);
                    self.ssh_begin(notes)
                },
                Err(_) => {
                    let mut notes = new_notes();
                    push_note(&mut notes, mk_warning("Could not detect IP, using 127.0.0.1"));
                    self.server_ip = owned(FALLBACK_IP);
                    self.ssh_begin(notes)
                },
            },
        }
    }
}

} // verus!
