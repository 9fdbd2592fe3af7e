use vstd::prelude::*;

use crate::content::{DEFAULT_NAMESERVER, SLOWDNS_PORT, make_temporary_files, temporary_files};
use crate::display::{BAR, Note, NoteView, Style, blank, failure, line1, mk_blank, mk_line, mk_line1, notes_view, push_note, sp, span, span_owned, spans_view, success};
use crate::text::{owned, strings_view, utf8_lossy, decode_lossy};

verus! {

/// How the caller writes the local time that answers `Op::ReadClock` (a `strftime` format).
pub const CLOCK_FORMAT: &'static str = "%Y-%m-%d %H:%M:%S";

/// Where the installation stands: each stage waits for the outcome of one operation.
#[derive(Clone, Copy, Debug, PartialEq, Eq, Structural)]
pub enum Stage {
    Fresh,
    RootCheck,
    AskNameserver,
    FetchIp(u8),
    HostnameIp,
    SshRemoveBackup,
    SshBackup,
    SshWriteConfig,
    SshRestart,
    DnsRemoveDir,
    DnsCreateDir,
    DnsChangeDir,
    DnsDownloadBinary,
    DnsChmodBinary,
    DnsDownloadKey,
    DnsDownloadPublicKey,
    DnsValidate,
    UnitWrite,
    EdnsFindCompiler,
    EdnsAptUpdate,
    EdnsAptInstall,
    EdnsWriteSource,
    EdnsCompile,
    EdnsChmod,
    EdnsWriteUnit,
    FirewallRule(u8),
    FirewallIpv6,
    FirewallStopResolver,
    FirewallKillPort,
    SvcReload,
    SvcEnableSlowdns,
    SvcStartSlowdns,
    SvcCheckSlowdns,
    SvcBackgroundSlowdns,
    SvcEnableEdns,
    SvcStartEdns,
    SvcCheckEdns,
    SvcManualEdns,
    SumFlushPort53,
    SumPort53,
    SumFlushPort5300,
    SumPort5300,
    SumFlushStatus,
    SumSlowdnsActive,
    SumEdnsActive,
    SumPublicKey,
    MenuFlush,
    MenuChoice,
    MenuStatusSlowdns,
    MenuStatusEdns,
    MenuUdpPorts,
    MenuTcpPorts,
    MenuRestart,
    MenuLog,
    MenuWhichDig,
    MenuDig,
    MenuWhichNslookup,
    MenuNslookup,
    Cleanup,
    Clock,
    FailedCleanup,
    Finished,
}

/// An operation on the system that the caller performs and reports back as an `Event`.
#[derive(Debug)]
pub enum Op {
    /// Check that the process runs as root (`check_root`); answered by `Event::Done`.
    CheckRoot,
    /// Ask the user for the nameserver, offering `default`; answered by `Event::Text`.
    AskNameserver { prompt: String, default: String },
    /// HTTP GET of `url`, taking the body as text; answered by `Event::Fetched`.
    Fetch { url: String },
    /// Run `command` with `sh -c` and capture its output; answered by `Event::Exited`.
    Run { command: String },
    /// Run `command` with `sh -c`, output discarded; answered by `Event::Done`
    /// (an error only when the shell could not be started).
    RunSilent { command: String },
    /// Remove the file at `path` if it exists; answered by `Event::Done`.
    RemoveFileIfExists { path: String },
    /// Copy a file; answered by `Event::Done`.
    CopyFile { from: String, to: String },
    /// Write `content` to the file at `path`; answered by `Event::Done`.
    WriteFile { path: String, content: String },
    /// Remove the directory tree at `path` if it exists; answered by `Event::Done`.
    RemoveDirIfExists { path: String },
    /// Create the directory `path` with its parents; answered by `Event::Done`.
    CreateDirAll { path: String },
    /// Make `path` the working directory; answered by `Event::Done`.
    ChangeDir { path: String },
    /// Download `url` into the file at `path`; answered by `Event::Done`.
    Download { url: String, path: String },
    /// Set the permission bits of `path` to `mode`; answered by `Event::Done`.
    SetMode { path: String, mode: u32 },
    /// Read the file at `path` as text; answered by `Event::File`.
    ReadText { path: String },
    /// Flush standard output; answered by `Event::Done`.
    Flush,
    /// Read a line from standard input; answered by `Event::Text`.
    ReadLine,
    /// Read the local time, written as `CLOCK_FORMAT` gives it; answered by `Event::Text`.
    ReadClock,
    /// Remove each of these files that exists, ignoring errors; answered by `Event::Done`.
    RemoveFiles { paths: Vec<String> },
    /// Exit the process with `code`. Nothing follows.
    Exit { code: i32 },
}

pub enum OpView {
    CheckRoot,
    AskNameserver { prompt: Seq<char>, default: Seq<char> },
    Fetch { url: Seq<char> },
    Run { command: Seq<char> },
    RunSilent { command: Seq<char> },
    RemoveFileIfExists { path: Seq<char> },
    CopyFile { from: Seq<char>, to: Seq<char> },
    WriteFile { path: Seq<char>, content: Seq<char> },
    RemoveDirIfExists { path: Seq<char> },
    CreateDirAll { path: Seq<char> },
    ChangeDir { path: Seq<char> },
    Download { url: Seq<char>, path: Seq<char> },
    SetMode { path: Seq<char>, mode: u32 },
    ReadText { path: Seq<char> },
    Flush,
    ReadLine,
    ReadClock,
    RemoveFiles { paths: Seq<Seq<char>> },
    Exit { code: i32 },
}

impl View for Op {
    type V = OpView;

    open spec fn view(&self) -> OpView {
        match self {
            Op::CheckRoot => OpView::CheckRoot,
            Op::AskNameserver { prompt, default } => OpView::AskNameserver { prompt: prompt@, default: default@ },
            Op::Fetch { url } => OpView::Fetch { url: url@ },
            Op::Run { command } => OpView::Run { command: command@ },
            Op::RunSilent { command } => OpView::RunSilent { command: command@ },
            Op::RemoveFileIfExists { path } => OpView::RemoveFileIfExists { path: path@ },
            Op::CopyFile { from, to } => OpView::CopyFile { from: from@, to: to@ },
            Op::WriteFile { path, content } => OpView::WriteFile { path: path@, content: content@ },
            Op::RemoveDirIfExists { path } => OpView::RemoveDirIfExists { path: path@ },
            Op::CreateDirAll { path } => OpView::CreateDirAll { path: path@ },
            Op::ChangeDir { path } => OpView::ChangeDir { path: path@ },
            Op::Download { url, path } => OpView::Download { url: url@, path: path@ },
            Op::SetMode { path, mode } => OpView::SetMode { path: path@, mode: *mode },
            Op::ReadText { path } => OpView::ReadText { path: path@ },
            Op::Flush => OpView::Flush,
            Op::ReadLine => OpView::ReadLine,
            Op::ReadClock => OpView::ReadClock,
            Op::RemoveFiles { paths } => OpView::RemoveFiles { paths: strings_view(paths@) },
            Op::Exit { code } => OpView::Exit { code: *code },
        }
    }
}

impl Op {
    /// The kind of event with which the caller answers this operation.
    pub fn answered_by(&self) -> (k: EventKind)
        ensures
            k == answer_kind(self@),
    {
        match self {
            Op::CheckRoot => EventKind::Done,
            Op::AskNameserver { .. } | Op::ReadLine | Op::ReadClock => EventKind::Text,
            Op::Fetch { .. } => EventKind::Fetched,
            Op::Run { .. } => EventKind::Exited,
            Op::ReadText { .. } => EventKind::File,
            Op::Exit { .. } => EventKind::Nothing,
            _ => EventKind::Done,
        }
    }
}

/// How a command that was started ended.
#[derive(Debug)]
pub struct ExitReport {
    pub success: bool,
    pub stdout: Vec<u8>,
    pub stderr: Vec<u8>,
}

pub struct ExitReportView {
    pub success: bool,
    pub stdout: Seq<u8>,
    pub stderr: Seq<u8>,
}

impl View for ExitReport {
    type V = ExitReportView;

    open spec fn view(&self) -> ExitReportView {
        ExitReportView { success: self.success, stdout: self.stdout@, stderr: self.stderr@ }
    }
}

/// What reading a text file gave.
#[derive(Debug)]
pub enum FileText {
    Missing,
    Unreadable,
    Content(String),
}

pub enum FileTextView {
    Missing,
    Unreadable,
    Content(Seq<char>),
}

impl View for FileText {
    type V = FileTextView;

    open spec fn view(&self) -> FileTextView {
        match self {
            FileText::Missing => FileTextView::Missing,
            FileText::Unreadable => FileTextView::Unreadable,
            FileText::Content(c) => FileTextView::Content(c@),
        }
    }
}

/// The outcome of an operation, handed back to the installer.
#[derive(Debug)]
pub enum Event {
    /// The first event, before any operation.
    Start,
    Done(Result<(), String>),
    /// The report of a started command, or why it could not be started.
    Exited(Result<ExitReport, String>),
    Text(Result<String, String>),
    /// The body of a fetched page, or nothing when the request or its body failed.
    Fetched(Option<String>),
    File(FileText),
}

pub enum EventView {
    Start,
    Done(Result<(), Seq<char>>),
    Exited(Result<ExitReportView, Seq<char>>),
    Text(Result<Seq<char>, Seq<char>>),
    Fetched(Option<Seq<char>>),
    File(FileTextView),
}

pub open spec fn unit_result_view(r: Result<(), String>) -> Result<(), Seq<char>> {
    match r {
        Ok(()) => Ok(()),
        Err(e) => Err(e@),
    }
}

pub open spec fn text_result_view(r: Result<String, String>) -> Result<Seq<char>, Seq<char>> {
    match r {
        Ok(t) => Ok(t@),
        Err(e) => Err(e@),
    }
}

impl View for Event {
    type V = EventView;

    open spec fn view(&self) -> EventView {
        match self {
            Event::Start => EventView::Start,
            Event::Done(r) => EventView::Done(unit_result_view(*r)),
            Event::Exited(r) => EventView::Exited(
                match r {
                    Ok(x) => Ok(x@),
                    Err(e) => Err(e@),
                },
            ),
            Event::Text(r) => EventView::Text(text_result_view(*r)),
            Event::Fetched(r) => EventView::Fetched(
                match r {
                    Some(t) => Some(t@),
                    None => None,
                },
            ),
            Event::File(f) => EventView::File(f@),
        }
    }
}

/// The kinds of event.
#[derive(Clone, Copy, Debug, PartialEq, Eq, Structural)]
pub enum EventKind {
    Start,
    Done,
    Exited,
    Text,
    Fetched,
    File,
    Nothing,
}

pub open spec fn kind_of(e: EventView) -> EventKind {
    match e {
        EventView::Start => EventKind::Start,
        EventView::Done(_) => EventKind::Done,
        EventView::Exited(_) => EventKind::Exited,
        EventView::Text(_) => EventKind::Text,
        EventView::Fetched(_) => EventKind::Fetched,
        EventView::File(_) => EventKind::File,
    }
}

/// The kind of event that a stage waits for (`Nothing` once the installer has finished).
pub open spec fn expected(stage: Stage) -> EventKind {
    match stage {
        Stage::Fresh => EventKind::Start,
        Stage::AskNameserver | Stage::MenuChoice | Stage::Clock => EventKind::Text,
        Stage::FetchIp(_) => EventKind::Fetched,
        Stage::HostnameIp | Stage::SshRestart | Stage::DnsValidate | Stage::EdnsFindCompiler
        | Stage::EdnsAptUpdate | Stage::EdnsAptInstall | Stage::EdnsCompile | Stage::SvcReload
        | Stage::SvcStartSlowdns | Stage::SvcCheckSlowdns | Stage::SvcStartEdns
        | Stage::SvcCheckEdns | Stage::SumPort53 | Stage::SumPort5300 | Stage::SumSlowdnsActive
        | Stage::SumEdnsActive | Stage::MenuStatusSlowdns | Stage::MenuStatusEdns
        | Stage::MenuUdpPorts | Stage::MenuTcpPorts | Stage::MenuRestart | Stage::MenuWhichDig
        | Stage::MenuDig | Stage::MenuWhichNslookup | Stage::MenuNslookup => EventKind::Exited,
        Stage::SumPublicKey | Stage::MenuLog => EventKind::File,
        Stage::Finished => EventKind::Nothing,
        _ => EventKind::Done,
    }
}

/// The kind of event with which the caller answers an operation (`Nothing` after `Exit`).
pub open spec fn answer_kind(op: OpView) -> EventKind {
    match op {
        OpView::CheckRoot => EventKind::Done,
        OpView::AskNameserver { .. } | OpView::ReadLine | OpView::ReadClock => EventKind::Text,
        OpView::Fetch { .. } => EventKind::Fetched,
        OpView::Run { .. } => EventKind::Exited,
        OpView::ReadText { .. } => EventKind::File,
        OpView::Exit { .. } => EventKind::Nothing,
        _ => EventKind::Done,
    }
}

/// Whether the installer, at `stage`, can take the event `e`.
pub open spec fn accepts(stage: Stage, e: EventView) -> bool {
    kind_of(e) == expected(stage)
}

/// What `run_command` makes of a command's end: its standard output when it succeeded,
/// else an error that quotes its standard error; or the reason it could not start.
pub open spec fn command_result(r: Result<ExitReportView, Seq<char>>) -> Result<Seq<char>, Seq<char>> {
    match r {
        Ok(x) => if x.success {
            Ok(utf8_lossy(x.stdout))
        } else {
            Err("Command failed: "@ + utf8_lossy(x.stderr))
        },
        Err(e) => Err(e),
    }
}

pub fn classify_command(r: Result<ExitReport, String>) -> (o: Result<String, String>)
    ensures
        text_result_view(o) == command_result(
            match r {
                Ok(x) => Ok(x@),
                Err(e) => Err(e@),
            },
        ),
{
    match r {
        Ok(x) => if x.success {
            Ok(decode_lossy(x.stdout.as_slice()))
        } else {
            Err(owned("Command failed: ").concat(decode_lossy(x.stderr.as_slice()).as_str()))
        },
        Err(e) => Err(e),
    }
}

pub open spec fn done_of(e: EventView) -> Result<(), Seq<char>> {
    match e {
        EventView::Done(r) => r,
        _ => Ok(()),
    }
}

pub open spec fn exited_of(e: EventView) -> Result<Seq<char>, Seq<char>> {
    match e {
        EventView::Exited(r) => command_result(r),
        _ => Err(Seq::empty()),
    }
}

pub open spec fn text_of(e: EventView) -> Result<Seq<char>, Seq<char>> {
    match e {
        EventView::Text(r) => r,
        _ => Err(Seq::empty()),
    }
}

pub open spec fn fetched_of(e: EventView) -> Option<Seq<char>> {
    match e {
        EventView::Fetched(r) => r,
        _ => None,
    }
}

pub open spec fn file_of(e: EventView) -> FileTextView {
    match e {
        EventView::File(f) => f,
        _ => FileTextView::Missing,
    }
}

pub fn take_done(e: Event) -> (r: Result<(), String>)
    requires
        kind_of(e@) == EventKind::Done,
    ensures
        unit_result_view(r) == done_of(e@),
{
    match e {
        Event::Done(r) => r,
        _ => Ok(()),
    }
}

/// The outcome of a command event in the way `run_command` reports it.
pub fn take_exited(e: Event) -> (r: Result<String, String>)
    requires
        kind_of(e@) == EventKind::Exited,
    ensures
        text_result_view(r) == exited_of(e@),
{
    match e {
        Event::Exited(r) => classify_command(r),
        _ => Err(String::new()),
    }
}

pub fn take_text(e: Event) -> (r: Result<String, String>)
    requires
        kind_of(e@) == EventKind::Text,
    ensures
        text_result_view(r) == text_of(e@),
{
    match e {
        Event::Text(r) => r,
        _ => Err(String::new()),
    }
}

pub fn take_fetched(e: Event) -> (r: Option<String>)
    requires
        kind_of(e@) == EventKind::Fetched,
    ensures
        match r {
            Some(t) => fetched_of(e@) == Some(t@),
            None => fetched_of(e@) is None,
        },
{
    match e {
        Event::Fetched(r) => r,
        _ => None,
    }
}

pub fn take_file(e: Event) -> (r: FileText)
    requires
        kind_of(e@) == EventKind::File,
    ensures
        r@ == file_of(e@),
{
    match e {
        Event::File(f) => f,
        _ => FileText::Missing,
    }
}

/// What the installer shows, then the operation it asks for.
#[derive(Debug)]
pub struct Step {
    pub notes: Vec<Note>,
    pub op: Op,
}

#[verifier::ext_equal]
pub struct StepView {
    pub notes: Seq<NoteView>,
    pub op: OpView,
}

impl View for Step {
    type V = StepView;

    open spec fn view(&self) -> StepView {
        StepView { notes: notes_view(self.notes@), op: self.op@ }
    }
}

/// The installer: the answers it has collected and the stage it is at.
pub struct Installer {
    pub stage: Stage,
    pub nameserver: String,
    pub server_ip: String,
    pub slowdns_active: bool,
}

#[verifier::ext_equal]
pub struct InstallerView {
    pub stage: Stage,
    pub nameserver: Seq<char>,
    pub server_ip: Seq<char>,
    pub slowdns_active: bool,
}

impl View for Installer {
    type V = InstallerView;

    open spec fn view(&self) -> InstallerView {
        InstallerView {
            stage: self.stage,
            nameserver: self.nameserver@,
            server_ip: self.server_ip@,
            slowdns_active: self.slowdns_active,
        }
    }
}

/// The installer before it has done anything.
pub open spec fn initial() -> InstallerView {
    InstallerView {
        stage: Stage::Fresh,
        nameserver: DEFAULT_NAMESERVER@,
        server_ip: Seq::empty(),
        slowdns_active: false,
    }
}

pub open spec fn at(s: InstallerView, stage: Stage) -> InstallerView {
    InstallerView { stage, ..s }
}

pub open spec fn step_of(notes: Seq<NoteView>, op: OpView) -> StepView {
    StepView { notes, op }
}

/// The line that reports a failed installation on standard error.
pub open spec fn failure_report(message: Seq<char>) -> NoteView {
    NoteView::ErrorLine(seq![
        sp(Style::RedBold, "✗"@),
        sp(Style::Plain, " "@),
        sp(Style::Red, "Installation failed: "@ + message),
    ])
}

/// An installation that fails with `message`: after `notes`, it reports the failure and
/// removes the temporary files; then it exits with status 1.
pub open spec fn fail(s: InstallerView, notes: Seq<NoteView>, message: Seq<char>) -> (InstallerView, StepView) {
    (
        at(s, Stage::FailedCleanup),
        step_of(notes.push(failure_report(message)), OpView::RemoveFiles { paths: temporary_files() }),
    )
}

/// The end of a completed installation: remove the temporary files.
pub open spec fn finish(s: InstallerView, notes: Seq<NoteView>) -> (InstallerView, StepView) {
    (at(s, Stage::Cleanup), step_of(notes, OpView::RemoveFiles { paths: temporary_files() }))
}

/// The lines shown once a completed installation has cleaned up, at local time `time`.
pub open spec fn completion_notes(server_ip: Seq<char>, time: Seq<char>) -> Seq<NoteView> {
    seq![
        NoteView::Line(seq![sp(Style::Plain, "\n"@), sp(Style::GreenBold, BAR@)]),
        line1(Style::GreenBold, "   Installation completed at: "@ + time),
        line1(
            Style::GreenBold,
            "   Server: "@ + server_ip + " | SlowDNS: "@ + crate::text::decimal(SLOWDNS_PORT as nat) + " | EDNS: 53"@,
        ),
        line1(Style::GreenBold, BAR@),
        blank(),
        line1(Style::GreenBold, "Installation completed successfully!"@),
    ]
}

/// The transitions of the closing stages.
pub open spec fn closing_transition(s: InstallerView, e: EventView) -> (InstallerView, StepView) {
    match s.stage {
        Stage::Cleanup => (at(s, Stage::Clock), step_of(seq![], OpView::ReadClock)),
        Stage::Clock => match text_of(e) {
            Ok(time) => (
                at(s, Stage::Finished),
                step_of(completion_notes(s.server_ip, time), OpView::Exit { code: 0 }),
            ),
            Err(m) => fail(s, seq![], m),
        },
        _ => (at(s, Stage::Finished), step_of(seq![], OpView::Exit { code: 1 })),
    }
}

/// What the installer does at each stage with the event that answers it.
pub open spec fn transition(s: InstallerView, e: EventView) -> (InstallerView, StepView) {
    match s.stage {
        Stage::Fresh | Stage::RootCheck | Stage::AskNameserver | Stage::FetchIp(_)
        | Stage::HostnameIp => crate::preparation::preparation_transition(s, e),
        Stage::SshRemoveBackup | Stage::SshBackup | Stage::SshWriteConfig | Stage::SshRestart
        | Stage::DnsRemoveDir | Stage::DnsCreateDir | Stage::DnsChangeDir
        | Stage::DnsDownloadBinary | Stage::DnsChmodBinary | Stage::DnsDownloadKey
        | Stage::DnsDownloadPublicKey | Stage::DnsValidate | Stage::UnitWrite => {
            crate::provision::provision_transition(s, e)
        },
        Stage::EdnsFindCompiler | Stage::EdnsAptUpdate | Stage::EdnsAptInstall
        | Stage::EdnsWriteSource | Stage::EdnsCompile | Stage::EdnsChmod
        | Stage::EdnsWriteUnit => crate::proxy::proxy_transition(s, e),
        Stage::FirewallRule(_) | Stage::FirewallIpv6 | Stage::FirewallStopResolver
        | Stage::FirewallKillPort | Stage::SvcReload | Stage::SvcEnableSlowdns
        | Stage::SvcStartSlowdns | Stage::SvcCheckSlowdns | Stage::SvcBackgroundSlowdns
        | Stage::SvcEnableEdns | Stage::SvcStartEdns | Stage::SvcCheckEdns
        | Stage::SvcManualEdns => crate::network::network_transition(s, e),
        Stage::SumFlushPort53 | Stage::SumPort53 | Stage::SumFlushPort5300 | Stage::SumPort5300
        | Stage::SumFlushStatus | Stage::SumSlowdnsActive | Stage::SumEdnsActive
        | Stage::SumPublicKey => crate::report::report_transition(s, e),
        Stage::MenuFlush | Stage::MenuChoice | Stage::MenuStatusSlowdns | Stage::MenuStatusEdns
        | Stage::MenuUdpPorts | Stage::MenuTcpPorts | Stage::MenuRestart | Stage::MenuLog
        | Stage::MenuWhichDig | Stage::MenuDig | Stage::MenuWhichNslookup
        | Stage::MenuNslookup => crate::menu::menu_transition(s, e),
        _ => closing_transition(s, e),
    }
}

pub fn new_notes() -> (v: Vec<Note>)
    ensures
        notes_view(v@) == Seq::<NoteView>::empty(),
{
    let v: Vec<Note> = Vec::new();
    proof {
        assert(notes_view(v@) =~= Seq::<NoteView>::empty());
    }
    v
}

impl Installer {
    /// A new installer; the nameserver is preset to its default.
    pub fn new() -> (r: Installer)
        ensures
            r@ == initial(),
    {
        Installer {
            stage: Stage::Fresh,
            nameserver: owned(DEFAULT_NAMESERVER),
            server_ip: String::new(),
            slowdns_active: false,
        }
    }

    /// The kind of event that the installer waits for.
    pub fn expects(&self) -> (k: EventKind)
        ensures
            k == expected(self.stage),
    {
        match self.stage {
            Stage::Fresh => EventKind::Start,
            Stage::AskNameserver | Stage::MenuChoice | Stage::Clock => EventKind::Text,
            Stage::FetchIp(_) => EventKind::Fetched,
            Stage::HostnameIp | Stage::SshRestart | Stage::DnsValidate | Stage::EdnsFindCompiler
            | Stage::EdnsAptUpdate | Stage::EdnsAptInstall | Stage::EdnsCompile | Stage::SvcReload
            | Stage::SvcStartSlowdns | Stage::SvcCheckSlowdns | Stage::SvcStartEdns
            | Stage::SvcCheckEdns | Stage::SumPort53 | Stage::SumPort5300 | Stage::SumSlowdnsActive
            | Stage::SumEdnsActive | Stage::MenuStatusSlowdns | Stage::MenuStatusEdns
            | Stage::MenuUdpPorts | Stage::MenuTcpPorts | Stage::MenuRestart | Stage::MenuWhichDig
            | Stage::MenuDig | Stage::MenuWhichNslookup | Stage::MenuNslookup => EventKind::Exited,
            Stage::SumPublicKey | Stage::MenuLog => EventKind::File,
            Stage::Finished => EventKind::Nothing,
            _ => EventKind::Done,
        }
    }

    /// Whether the installer can take `e` now.
    pub fn accepts(&self, e: &Event) -> (b: bool)
        ensures
            b == accepts(self.stage, e@),
    {
        let k = match e {
            Event::Start => EventKind::Start,
            Event::Done(_) => EventKind::Done,
            Event::Exited(_) => EventKind::Exited,
            Event::Text(_) => EventKind::Text,
            Event::Fetched(_) => EventKind::Fetched,
            Event::File(_) => EventKind::File,
        };
        k == self.expects()
    }

    pub fn fail(&mut self, notes: Vec<Note>, message: String) -> (s: Step)
        ensures
            final(self)@ =~= fail(old(self)@, notes_view(notes@), message@).0,
            s@ =~= fail(old(self)@, notes_view(notes@), message@).1,
    {
        let mut notes = notes;
        let v = vec![
            span(Style::RedBold, "✗"),
            span(Style::Plain, " "),
            span_owned(Style::Red, owned("Installation failed: ").concat(message.as_str())),
        ];
        proof {
            assert(spans_view(v@) =~= seq![
                sp(Style::RedBold, "✗"@),
                sp(Style::Plain, " "@),
                sp(Style::Red, "Installation failed: "@ + message@),
            ]);
        }
        push_note(&mut notes, Note::ErrorLine(v));
        self.stage = Stage::FailedCleanup;
        Step { notes, op: Op::RemoveFiles { paths: make_temporary_files() } }
    }

    pub fn finish(&mut self, notes: Vec<Note>) -> (s: Step)
        ensures
            final(self)@ =~= finish(old(self)@, notes_view(notes@)).0,
            s@ =~= finish(old(self)@, notes_view(notes@)).1,
    {
        self.stage = Stage::Cleanup;
        Step { notes, op: Op::RemoveFiles { paths: make_temporary_files() } }
    }

    fn closing_step(&mut self, e: Event) -> (s: Step)
        requires
            accepts(old(self).stage, e@),
            old(self).stage == Stage::Cleanup || old(self).stage == Stage::Clock
                || old(self).stage == Stage::FailedCleanup,
        ensures
            final(self)@ =~= closing_transition(old(self)@, e@).0,
            s@ =~= closing_transition(old(self)@, e@).1,
    {
        match self.stage {
            Stage::Cleanup => {
                self.stage = Stage::Clock;
                Step { notes: new_notes(), op: Op::ReadClock }
            },
            Stage::Clock => match take_text(e) {
                Ok(time) => {
                    let mut notes = new_notes();
                    let v = vec![span(Style::Plain, "\n"), span(Style::GreenBold, BAR)];
                    proof {
                        assert(spans_view(v@) =~= seq![sp(Style::Plain, "\n"@), sp(Style::GreenBold, BAR@)]);
                    }
                    push_note(&mut notes, mk_line(v));
                    let t = owned("   Installation completed at: ").concat(time.as_str());
                    push_note(&mut notes, mk_line1(Style::GreenBold, t.as_str()));
                    let t = owned("   Server: ")
                        .concat(self.server_ip.as_str())
                        .concat(" | SlowDNS: ")
                        .concat(crate::text::decimal_string(SLOWDNS_PORT as u64).as_str())
                        .concat(" | EDNS: 53");
                    push_note(&mut notes, mk_line1(Style::GreenBold, t.as_str()));
                    push_note(&mut notes, mk_line1(Style::GreenBold, BAR));
                    push_note(&mut notes, mk_blank());
                    push_note(&mut notes, mk_line1(Style::GreenBold, "Installation completed successfully!"));
                    self.stage = Stage::Finished;
                    Step { notes, op: Op::Exit { code: 0 } }
                },
                Err(m) => self.fail(new_notes(), m),
            },
            _ => {
                self.stage = Stage::Finished;
                Step { notes: new_notes(), op: Op::Exit { code: 1 } }
            },
        }
    }

    /// Takes the outcome of the last operation and answers what to show and do next.
    pub fn step(&mut self, e: Event) -> (s: Step)
        requires
            accepts(old(self).stage, e@),
        ensures
            final(self)@ =~= transition(old(self)@, e@).0,
            s@ =~= transition(old(self)@, e@).1,
    {
        match self.stage {
            Stage::Fresh | Stage::RootCheck | Stage::AskNameserver | Stage::FetchIp(_)
            | Stage::HostnameIp => self.preparation_step(e),
            Stage::SshRemoveBackup | Stage::SshBackup | Stage::SshWriteConfig | Stage::SshRestart
            | Stage::DnsRemoveDir | Stage::DnsCreateDir | Stage::DnsChangeDir
            | Stage::DnsDownloadBinary | Stage::DnsChmodBinary | Stage::DnsDownloadKey
            | Stage::DnsDownloadPublicKey | Stage::DnsValidate | Stage::UnitWrite => {
                self.provision_step(e)
            },
            Stage::EdnsFindCompiler | Stage::EdnsAptUpdate | Stage::EdnsAptInstall
            | Stage::EdnsWriteSource | Stage::EdnsCompile | Stage::EdnsChmod
            | Stage::EdnsWriteUnit => self.proxy_step(e),
            Stage::FirewallRule(_) | Stage::FirewallIpv6 | Stage::FirewallStopResolver
            | Stage::FirewallKillPort | Stage::SvcReload | Stage::SvcEnableSlowdns
            | Stage::SvcStartSlowdns | Stage::SvcCheckSlowdns | Stage::SvcBackgroundSlowdns
            | Stage::SvcEnableEdns | Stage::SvcStartEdns | Stage::SvcCheckEdns
            | Stage::SvcManualEdns => self.network_step(e),
            Stage::SumFlushPort53 | Stage::SumPort53 | Stage::SumFlushPort5300 | Stage::SumPort5300
            | Stage::SumFlushStatus | Stage::SumSlowdnsActive | Stage::SumEdnsActive
            | Stage::SumPublicKey => self.report_step(e),
            Stage::MenuFlush | Stage::MenuChoice | Stage::MenuStatusSlowdns | Stage::MenuStatusEdns
            | Stage::MenuUdpPorts | Stage::MenuTcpPorts | Stage::MenuRestart | Stage::MenuLog
            | Stage::MenuWhichDig | Stage::MenuDig | Stage::MenuWhichNslookup
            | Stage::MenuNslookup => self.menu_step(e),
            _ => self.closing_step(e),
        }
    }
}

} // verus!
