use vstd::prelude::*;

use crate::content::{INSTALL_DIR, SERVER_BINARY, SERVER_KEY, SERVER_PUBLIC_KEY, SLOWDNS_UNIT_FILE, SSH_CONFIG_BACKUP, SSH_CONFIG_FILE, SSH_PORT, download_url, make_download_url, make_slowdns_unit, make_ssh_config, slowdns_unit, ssh_config};
use crate::display::{Note, NoteView, append_notes, info, mk_info, mk_progress, mk_step_end, mk_step_start, mk_success, mk_warning, notes_view, progress, push_note, step_end, step_start, success, warning};
use crate::machine::{Event, EventKind, EventView, Installer, InstallerView, Op, OpView, Stage, Step, StepView, accepts, at, done_of, exited_of, fail, kind_of, new_notes, step_of, take_done, take_exited, text_result_view};
use crate::text::{contains, decimal, decimal_string, has_substring, lowercase, owned, to_lowercase};

verus! {

pub const SSH_RESTART_COMMAND: &'static str = "systemctl restart sshd";

pub const VALIDATE_COMMAND: &'static str = "./dnstt-server --help";

/// Permission bits of the installed programs: `rwxr-xr-x`.
pub const EXECUTABLE_MODE: u32 = 0o755;

/// The opening of the OpenSSH step.
pub open spec fn ssh_intro() -> Seq<NoteView> {
    step_start(1, "CONFIGURE OPENSSH"@) + seq![
        info("Configuring OpenSSH on port "@ + decimal(SSH_PORT as nat)),
        progress("Backing up SSH configuration..."@, 500),
    ]
}

/// After `notes`, the OpenSSH step begins by removing an earlier backup of its configuration.
pub open spec fn ssh_begin(s: InstallerView, notes: Seq<NoteView>) -> (InstallerView, StepView) {
    (
        at(s, Stage::SshRemoveBackup),
        step_of(notes + ssh_intro(), OpView::RemoveFileIfExists { path: SSH_CONFIG_BACKUP@ }),
    )
}

/// The close of the OpenSSH step.
pub open spec fn ssh_outro() -> Seq<NoteView> {
    seq![
        NoteView::Pause { seconds: 2 },
        success("SSH service restarted"@),
        success("OpenSSH configured on port "@ + decimal(SSH_PORT as nat)),
        step_end(),
    ]
}

/// The opening of the tunnel server step.
pub open spec fn slowdns_intro() -> Seq<NoteView> {
    step_start(2, "SETUP SLOWDNS"@) + seq![
        info("Setting up SlowDNS environment"@),
        progress("Creating SlowDNS directory..."@, 500),
    ]
}

pub open spec fn downloading(url: Seq<char>) -> NoteView {
    info("Downloading: "@ + url)
}

/// The report of a finished download: the path as `{:?}` writes it.
pub open spec fn downloaded(path: Seq<char>) -> NoteView {
    success("Downloaded to: \""@ + path + "\""@)
}

/// What the output of `dnstt-server --help` says of the downloaded binary: it is taken as
/// valid when the lowercased output mentions `usage`.
pub open spec fn validation_note(r: Result<Seq<char>, Seq<char>>) -> NoteView {
    match r {
        Ok(out) => if has_substring(lowercase(out), "usage"@) {
            success("Binary validated successfully"@)
        } else {
            warning("Binary test inconclusive"@)
        },
        Err(_) => warning("Binary test failed, continuing anyway"@),
    }
}

/// The opening of the service step.
pub open spec fn unit_intro() -> Seq<NoteView> {
    step_start(3, "CREATE SLOWDNS SERVICE"@).push(info("Creating SlowDNS system service"@))
}

pub open spec fn is_provision(stage: Stage) -> bool {
    match stage {
        Stage::SshRemoveBackup | Stage::SshBackup | Stage::SshWriteConfig | Stage::SshRestart
        | Stage::DnsRemoveDir | Stage::DnsCreateDir | Stage::DnsChangeDir
        | Stage::DnsDownloadBinary | Stage::DnsChmodBinary | Stage::DnsDownloadKey
        | Stage::DnsDownloadPublicKey | Stage::DnsValidate | Stage::UnitWrite => true,
        _ => false,
    }
}

/// Continues when a file operation succeeded; any error fails the installation.
pub open spec fn on_done(
    s: InstallerView,
    e: EventView,
    next: Stage,
    notes: Seq<NoteView>,
    op: OpView,
) -> (InstallerView, StepView) {
    match done_of(e) {
        Ok(_) => (at(s, next), step_of(notes, op)),
        Err(m) => fail(s, seq![], m),
    }
}

/// OpenSSH, the tunnel server's files, and its service unit.
pub open spec fn provision_transition(s: InstallerView, e: EventView) -> (InstallerView, StepView) {
    match s.stage {
        Stage::SshRemoveBackup => on_done(
            s,
            e,
            Stage::SshBackup,
            seq![],
            OpView::CopyFile { from: SSH_CONFIG_FILE@, to: SSH_CONFIG_BACKUP@ },
        ),
        Stage::SshBackup => on_done(
            s,
            e,
            Stage::SshWriteConfig,
            seq![success("SSH configuration backed up"@)],
            OpView::WriteFile { path: SSH_CONFIG_FILE@, content: ssh_config() },
        ),
        Stage::SshWriteConfig => on_done(
            s,
            e,
            Stage::SshRestart,
            seq![progress("Restarting SSH service..."@, 1000)],
            OpView::Run { command: SSH_RESTART_COMMAND@ },
        ),
        Stage::SshRestart => match exited_of(e) {
            Ok(_) => (
                at(s, Stage::DnsRemoveDir),
                step_of(ssh_outro() + slowdns_intro(), OpView::RemoveDirIfExists { path: INSTALL_DIR@ }),
            ),
            Err(m) => fail(s, seq![], m),
        },
        Stage::DnsRemoveDir => on_done(s, e, Stage::DnsCreateDir, seq![], OpView::CreateDirAll { path: INSTALL_DIR@ }),
        Stage::DnsCreateDir => on_done(
            s,
            e,
            Stage::DnsChangeDir,
            seq![success("SlowDNS directory created"@)],
            OpView::ChangeDir { path: INSTALL_DIR@ },
        ),
        Stage::DnsChangeDir => on_done(
            s,
            e,
            Stage::DnsDownloadBinary,
            seq![info("Downloading SlowDNS binary"@), downloading(download_url("dnstt-server"@))],
            OpView::Download { url: download_url("dnstt-server"@), path: SERVER_BINARY@ },
        ),
        Stage::DnsDownloadBinary => on_done(
            s,
            e,
            Stage::DnsChmodBinary,
            seq![downloaded(SERVER_BINARY@)],
            OpView::SetMode { path: SERVER_BINARY@, mode: EXECUTABLE_MODE },
        ),
        Stage::DnsChmodBinary => on_done(
            s,
            e,
            Stage::DnsDownloadKey,
            seq![info("Downloading encryption keys"@), downloading(download_url("server.key"@))],
            OpView::Download { url: download_url("server.key"@), path: SERVER_KEY@ },
        ),
        Stage::DnsDownloadKey => on_done(
            s,
            e,
            Stage::DnsDownloadPublicKey,
            seq![downloaded(SERVER_KEY@), downloading(download_url("server.pub"@))],
            OpView::Download { url: download_url("server.pub"@), path: SERVER_PUBLIC_KEY@ },
        ),
        Stage::DnsDownloadPublicKey => on_done(
            s,
            e,
            Stage::DnsValidate,
            seq![downloaded(SERVER_PUBLIC_KEY@), progress("Validating binary..."@, 500)],
            OpView::Run { command: VALIDATE_COMMAND@ },
        ),
        Stage::DnsValidate => (
            at(s, Stage::UnitWrite),
            step_of(
                seq![validation_note(exited_of(e)), success("SlowDNS components installed"@), step_end()]
                    + unit_intro(),
                OpView::WriteFile { path: SLOWDNS_UNIT_FILE@, content: slowdns_unit(s.nameserver) },
            ),
        ),
        _ => match done_of(e) {
            Ok(_) => crate::proxy::proxy_begin(
                s,
                seq![success("Service configuration created"@), step_end()],
            ),
            Err(m) => fail(s, seq![], m),
        },
    }
}

fn mk_downloading(url: &str) -> (n: Note)
    ensures
        n@ == downloading(url@),
{
    mk_info(owned("Downloading: ").concat(url).as_str())
}

fn mk_downloaded(path: &str) -> (n: Note)
    ensures
        n@ == downloaded(path@),
{
    mk_success(owned("Downloaded to: \"").concat(path).concat("\"").as_str())
}

/// The note on the outcome of `dnstt-server --help`.
pub fn make_validation_note(r: &Result<String, String>) -> (n: Note)
    ensures
        n@ == validation_note(text_result_view(*r)),
{
    match r {
        Ok(out) => {
            let lower = to_lowercase(out.as_str());
            if contains(lower.as_str(), "usage") {
                mk_success("Binary validated successfully")
            } else {
                mk_warning("Binary test inconclusive")
            }
        },
        Err(_) => mk_warning("Binary test failed, continuing anyway"),
    }
}

impl Installer {
    pub fn ssh_begin(&mut self, notes: Vec<Note>) -> (s: Step)
        ensures
            final(self)@ =~= ssh_begin(old(self)@, notes_view(notes@)).0,
            s@ =~= ssh_begin(old(self)@, notes_view(notes@)).1,
    {
        let mut notes = notes;
        append_notes(&mut notes, mk_step_start(1, "CONFIGURE OPENSSH"));
        let t = owned("Configuring OpenSSH on port ").concat(decimal_string(SSH_PORT as u64).as_str());
        push_note(&mut notes, mk_info(t.as_str()));
        push_note(&mut notes, mk_progress("Backing up SSH configuration...", 500));
        self.stage = Stage::SshRemoveBackup;
        Step { notes, op: Op::RemoveFileIfExists { path: owned(SSH_CONFIG_BACKUP) } }
    }

    /// Moves to `next` when the operation succeeded, else fails with its error.
    pub fn on_done(&mut self, e: Event, next: Stage, notes: Vec<Note>, op: Op) -> (s: Step)
        requires
            kind_of(e@) == EventKind::Done,
        ensures
            final(self)@ =~= on_done(old(self)@, e@, next, notes_view(notes@), op@).0,
            s@ =~= on_done(old(self)@, e@, next, notes_view(notes@), op@).1,
    {
        match take_done(e) {
            Ok(()) => {
                self.stage = next;
                Step { notes, op }
            },
            Err(m) => self.fail(new_notes(), m),
        }
    }

    pub fn provision_step(&mut self, e: Event) -> (s: Step)
        requires
            accepts(old(self).stage, e@),
            is_provision(old(self).stage),
        ensures
            final(self)@ =~= provision_transition(old(self)@, e@).0,
            s@ =~= provision_transition(old(self)@, e@).1,
    {
        match self.stage {
            Stage::SshRemoveBackup => self.on_done(
                e,
                Stage::SshBackup,
                new_notes(),
                Op::CopyFile { from: owned(SSH_CONFIG_FILE), to: owned(SSH_CONFIG_BACKUP) },
            ),
            Stage::SshBackup => {
                let mut notes = new_notes();
                push_note(&mut notes, mk_success("SSH configuration backed up"));
                self.on_done(
                    e,
                    Stage::SshWriteConfig,
                    notes,
                    Op::WriteFile { path: owned(SSH_CONFIG_FILE), content: make_ssh_config() },
                )
            },
            Stage::SshWriteConfig => {
                let mut notes = new_notes();
                push_note(&mut notes, mk_progress("Restarting SSH service...", 1000));
                self.on_done(e, Stage::SshRestart, notes, Op::Run { command: owned(SSH_RESTART_COMMAND) })
            },
            Stage::SshRestart => match take_exited(e) {
                Ok(_) => {
                    let mut notes = new_notes();
                    push_note(&mut notes, Note::Pause { seconds: 2 });
                    push_note(&mut notes, mk_success("SSH service restarted"));
                    let t = owned("OpenSSH configured on port ").concat(decimal_string(SSH_PORT as u64).as_str());
                    push_note(&mut notes, mk_success(t.as_str()));
                    push_note(&mut notes, mk_step_end());
                    append_notes(&mut notes, mk_step_start(2, "SETUP SLOWDNS"));
                    push_note(&mut notes, mk_info("Setting up SlowDNS environment"));
                    push_note(&mut notes, mk_progress("Creating SlowDNS directory...", 500));
                    self.stage = Stage::DnsRemoveDir;
                    Step { notes, op: Op::RemoveDirIfExists { path: owned(INSTALL_DIR) } }
                },
                Err(m) => self.fail(new_notes(), m),
            },
            Stage::DnsRemoveDir => self.on_done(
                e,
                Stage::DnsCreateDir,
                new_notes(),
                Op::CreateDirAll { path: owned(INSTALL_DIR) },
            ),
            Stage::DnsCreateDir => {
                let mut notes = new_notes();
                push_note(&mut notes, mk_success("SlowDNS directory created"));
                self.on_done(e, Stage::DnsChangeDir, notes, Op::ChangeDir { path: owned(INSTALL_DIR) })
            },
            Stage::DnsChangeDir => {
                let url = make_download_url("dnstt-server");
                let mut notes = new_notes();
                push_note(&mut notes, mk_info("Downloading SlowDNS binary"));
                push_note(&mut notes, mk_downloading(url.as_str()));
                self.on_done(
                    e,
                    Stage::DnsDownloadBinary,
                    notes,
                    Op::Download { url, path: owned(SERVER_BINARY) },
                )
            },
            Stage::DnsDownloadBinary => {
                let mut notes = new_notes();
                push_note(&mut notes, mk_downloaded(SERVER_BINARY));
                self.on_done(
                    e,
                    Stage::DnsChmodBinary,
                    notes,
                    Op::SetMode { path: owned(SERVER_BINARY), mode: EXECUTABLE_MODE },
                )
            },
            Stage::DnsChmodBinary => {
                let url = make_download_url("server.key");
                let mut notes = new_notes();
                push_note(&mut notes, mk_info("Downloading encryption keys"));
                push_note(&mut notes, mk_downloading(url.as_str()));
                self.on_done(e, Stage::DnsDownloadKey, notes, Op::Download { url, path: owned(SERVER_KEY) })
            },
            Stage::DnsDownloadKey => {
                let url = make_download_url("server.pub");
                let mut notes = new_notes();
                push_note(&mut notes, mk_downloaded(SERVER_KEY));
                push_note(&mut notes, mk_downloading(url.as_str()));
                self.on_done(
                    e,
                    Stage::DnsDownloadPublicKey,
                    notes,
                    Op::Download { url, path: owned(SERVER_PUBLIC_KEY) },
                )
            },
            Stage::DnsDownloadPublicKey => {
                let mut notes = new_notes();
                push_note(&mut notes, mk_downloaded(SERVER_PUBLIC_KEY));
                push_note(&mut notes, mk_progress("Validating binary...", 500));
                self.on_done(e, Stage::DnsValidate, notes, Op::Run { command: owned(VALIDATE_COMMAND) })
            },
            Stage::DnsValidate => {
                let r = take_exited(e);
                let mut notes = new_notes();
                push_note(&mut notes, make_validation_note(&r));
                push_note(&mut notes, mk_success("SlowDNS components installed"));
                push_note(&mut notes, mk_step_end());
                append_notes(&mut notes, mk_step_start(3, "CREATE SLOWDNS SERVICE"));
                push_note(&mut notes, mk_info("Creating SlowDNS system service"));
                let unit = make_slowdns_unit(self.nameserver.as_str());
                self.stage = Stage::UnitWrite;
                Step { notes, op: Op::WriteFile { path: owned(SLOWDNS_UNIT_FILE), content: unit } }
            },
            _ => match take_done(e) {
                Ok(()) => {
                    let mut notes = new_notes();
                    push_note(&mut notes, mk_success("Service configuration created"));
                    push_note(&mut notes, mk_step_end());
                    self.proxy_begin(notes)
                },
                Err(m) => self.fail(new_notes(), m),
            },
        }
    }
}

} // verus!
