use vstd::prelude::*;

use crate::content::{EDNS_BINARY, EDNS_COMPILE_COMMAND, EDNS_PROXY_SOURCE, EDNS_PROXY_UNIT, EDNS_SOURCE_FILE, EDNS_UNIT_FILE};
use crate::display::{Note, NoteView, append_notes, failure, info, mk_failure, mk_info, mk_progress, mk_step_end, mk_step_start, mk_success, notes_view, progress, push_note, step_end, step_start, success};
use crate::machine::{Event, EventView, Installer, InstallerView, Op, OpView, Stage, Step, StepView, accepts, at, done_of, exited_of, fail, new_notes, step_of, take_done, take_exited};
use crate::provision::{on_done, EXECUTABLE_MODE};
use crate::text::owned;

verus! {

pub const FIND_COMPILER_COMMAND: &'static str = "which gcc";

pub const APT_UPDATE_COMMAND: &'static str = "apt-get update > /dev/null 2>&1";

pub const APT_INSTALL_COMMAND: &'static str = "apt-get install -y gcc > /dev/null 2>&1";

/// The opening of the proxy step.
pub open spec fn proxy_intro() -> Seq<NoteView> {
    step_start(4, "COMPILE EDNS PROXY"@) + seq![
        info("Compiling high-performance EDNS Proxy"@),
        progress("Checking for compiler tools..."@, 300),
    ]
}

/// After `notes`, the proxy step begins by looking for a C compiler.
pub open spec fn proxy_begin(s: InstallerView, notes: Seq<NoteView>) -> (InstallerView, StepView) {
    (at(s, Stage::EdnsFindCompiler), step_of(notes + proxy_intro(), OpView::Run { command: FIND_COMPILER_COMMAND@ }))
}

pub open spec fn write_source_op() -> OpView {
    OpView::WriteFile { path: EDNS_SOURCE_FILE@, content: EDNS_PROXY_SOURCE@ }
}

pub open spec fn is_proxy(stage: Stage) -> bool {
    match stage {
        Stage::EdnsFindCompiler | Stage::EdnsAptUpdate | Stage::EdnsAptInstall
        | Stage::EdnsWriteSource | Stage::EdnsCompile | Stage::EdnsChmod | Stage::EdnsWriteUnit => true,
        _ => false,
    }
}

/// Compiler, proxy source, compilation and the proxy's service unit. A compiler is
/// installed only when `which gcc` fails; a failed compilation fails the installation.
pub open spec fn proxy_transition(s: InstallerView, e: EventView) -> (InstallerView, StepView) {
    match s.stage {
        Stage::EdnsFindCompiler => match exited_of(e) {
            Ok(_) => (at(s, Stage::EdnsWriteSource), step_of(seq![], write_source_op())),
            Err(_) => (
                at(s, Stage::EdnsAptUpdate),
                step_of(seq![info("Installing gcc..."@)], OpView::Run { command: APT_UPDATE_COMMAND@ }),
            ),
        },
        Stage::EdnsAptUpdate => match exited_of(e) {
            Ok(_) => (at(s, Stage::EdnsAptInstall), step_of(seq![], OpView::Run { command: APT_INSTALL_COMMAND@ })),
            Err(m) => fail(s, seq![], m),
        },
        Stage::EdnsAptInstall => match exited_of(e) {
            Ok(_) => (at(s, Stage::EdnsWriteSource), step_of(seq![success("Compiler installed"@)], write_source_op())),
            Err(m) => fail(s, seq![], m),
        },
        Stage::EdnsWriteSource => on_done(
            s,
            e,
            Stage::EdnsCompile,
            seq![progress("Compiling EDNS Proxy with O3 optimizations..."@, 1000)],
            OpView::Run { command: EDNS_COMPILE_COMMAND@ },
        ),
        Stage::EdnsCompile => match exited_of(e) {
            Ok(_) => (
                at(s, Stage::EdnsChmod),
                step_of(seq![], OpView::SetMode { path: EDNS_BINARY@, mode: EXECUTABLE_MODE }),
            ),
            Err(m) => fail(s, seq![failure("Compilation failed: "@ + m)], m),
        },
        Stage::EdnsChmod => on_done(
            s,
            e,
            Stage::EdnsWriteUnit,
            seq![success("EDNS Proxy compiled successfully"@)],
            OpView::WriteFile { path: EDNS_UNIT_FILE@, content: EDNS_PROXY_UNIT@ },
        ),
        _ => match done_of(e) {
            Ok(_) => crate::network::firewall_begin(
                s,
                seq![success("EDNS Proxy service configured"@), step_end()],
            ),
            Err(m) => fail(s, seq![], m),
        },
    }
}

fn write_source() -> (op: Op)
    ensures
        op@ == write_source_op(),
{
    Op::WriteFile { path: owned(EDNS_SOURCE_FILE), content: owned(EDNS_PROXY_SOURCE) }
}

impl Installer {
    pub fn proxy_begin(&mut self, notes: Vec<Note>) -> (s: Step)
        ensures
            final(self)@ =~= proxy_begin(old(self)@, notes_view(notes@)).0,
            s@ =~= proxy_begin(old(self)@, notes_view(notes@)).1,
    {
        let mut notes = notes;
        append_notes(&mut notes, mk_step_start(4, "COMPILE EDNS PROXY"));
        push_note(&mut notes, mk_info("Compiling high-performance EDNS Proxy"));
        push_note(&mut notes, mk_progress("Checking for compiler tools...", 300));
        self.stage = Stage::EdnsFindCompiler;
        Step { notes, op: Op::Run { command: owned(FIND_COMPILER_COMMAND) } }
    }

    pub fn proxy_step(&mut self, e: Event) -> (s: Step)
        requires
            accepts(old(self).stage, e@),
            is_proxy(old(self).stage),
        ensures
            final(self)@ =~= proxy_transition(old(self)@, e@).0,
            s@ =~= proxy_transition(old(self)@, e@).1,
    {
        match self.stage {
            Stage::EdnsFindCompiler => match take_exited(e) {
                Ok(_) => {
                    self.stage = Stage::EdnsWriteSource;
                    Step { notes: new_notes(), op: write_source() }
                },
                Err(_) => {
                    let mut notes = new_notes();
                    push_note(&mut notes, mk_info("Installing gcc..."));
                    self.stage = Stage::EdnsAptUpdate;
                    Step { notes, op: Op::Run { command: owned(APT_UPDATE_COMMAND) } }
                },
            },
            Stage::EdnsAptUpdate => match take_exited(e) {
                Ok(_) => {
                    self.stage = Stage::EdnsAptInstall;
                    Step { notes: new_notes(), op: Op::Run { command: owned(APT_INSTALL_COMMAND) } }
                },
                Err(m) => self.fail(new_notes(), m),
            },
            Stage::EdnsAptInstall => match take_exited(e) {
                Ok(_) => {
                    let mut notes = new_notes();
                    push_note(&mut notes, mk_success("Compiler installed"));
                    self.stage = Stage::EdnsWriteSource;
                    Step { notes, op: write_source() }
                },
                Err(m) => self.fail(new_notes(), m),
            },
            Stage::EdnsWriteSource => {
                let mut notes = new_notes();
                push_note(&mut notes, mk_progress("Compiling EDNS Proxy with O3 optimizations...", 1000));
                self.on_done(e, Stage::EdnsCompile, notes, Op::Run { command: owned(EDNS_COMPILE_COMMAND) })
            },
            Stage::EdnsCompile => match take_exited(e) {
                Ok(_) => {
                    self.stage = Stage::EdnsChmod;
                    Step { notes: new_notes(), op: Op::SetMode { path: owned(EDNS_BINARY), mode: EXECUTABLE_MODE } }
                },
                Err(m) => {
                    let mut notes = new_notes();
                    let t = owned("Compilation failed: ").concat(m.as_str());
                    push_note(&mut notes, mk_failure(t.as_str()));
                    self.fail(notes, m)
                },
            },
            Stage::EdnsChmod => {
                let mut notes = new_notes();
                push_note(&mut notes, mk_success("EDNS Proxy compiled successfully"));
                self.on_done(
                    e,
                    Stage::EdnsWriteUnit,
                    notes,
                    Op::WriteFile { path: owned(EDNS_UNIT_FILE), content: owned(EDNS_PROXY_UNIT) },
                )
            },
            _ => match take_done(e) {
                Ok(()) => {
                    let mut notes = new_notes();
                    push_note(&mut notes, mk_success("EDNS Proxy service configured"));
                    push_note(&mut notes, mk_step_end());
                    self.firewall_begin(notes)
                },
                Err(m) => self.fail(new_notes(), m),
            },
        }
    }
}

} // verus!
