use vstd::prelude::*;

use crate::text::{decimal, decimal_string, owned};

verus! {

/// How a piece of terminal text is coloured.
#[derive(Clone, Copy, Debug, PartialEq, Eq, Structural)]
pub enum Style {
    Plain,
    Blue,
    Cyan,
    CyanBold,
    Green,
    GreenBold,
    Purple,
    Red,
    RedBold,
    White,
    WhiteBold,
    Yellow,
    YellowBold,
}

/// A run of text in one style.
#[derive(Debug)]
pub struct Span {
    pub style: Style,
    pub text: String,
}

pub struct SpanView {
    pub style: Style,
    pub text: Seq<char>,
}

impl View for Span {
    type V = SpanView;

    open spec fn view(&self) -> SpanView {
        SpanView { style: self.style, text: self.text@ }
    }
}

pub open spec fn spans_view(v: Seq<Span>) -> Seq<SpanView> {
    v.map_values(|s: Span| s@)
}

/// Something the installer shows the user before it performs an operation.
#[derive(Debug)]
pub enum Note {
    /// Clear the terminal.
    ClearScreen,
    /// A line on standard output.
    Line(Vec<Span>),
    /// Text on standard output without a line end.
    Partial(Vec<Span>),
    /// A line on standard error.
    ErrorLine(Vec<Span>),
    /// A spinner with `message`, shown for `millis` milliseconds, then finished.
    Progress { message: String, millis: u64 },
    /// A pause of `seconds` seconds.
    Pause { seconds: u64 },
}

pub enum NoteView {
    ClearScreen,
    Line(Seq<SpanView>),
    Partial(Seq<SpanView>),
    ErrorLine(Seq<SpanView>),
    Progress { message: Seq<char>, millis: u64 },
    Pause { seconds: u64 },
}

impl View for Note {
    type V = NoteView;

    open spec fn view(&self) -> NoteView {
        match self {
            Note::ClearScreen => NoteView::ClearScreen,
            Note::Line(v) => NoteView::Line(spans_view(v@)),
            Note::Partial(v) => NoteView::Partial(spans_view(v@)),
            Note::ErrorLine(v) => NoteView::ErrorLine(spans_view(v@)),
            Note::Progress { message, millis } => NoteView::Progress {
                message: message@,
                millis: *millis,
            },
            Note::Pause { seconds } => NoteView::Pause { seconds: *seconds },
        }
    }
}

pub open spec fn notes_view(v: Seq<Note>) -> Seq<NoteView> {
    v.map_values(|n: Note| n@)
}

pub const RULE: &'static str = "──────────────────────────────────────────────────";

pub const BAR: &'static str = "══════════════════════════════════════════════════════════";

pub open spec fn sp(style: Style, text: Seq<char>) -> SpanView {
    SpanView { style, text }
}

/// A line of one run of text.
pub open spec fn line1(style: Style, text: Seq<char>) -> NoteView {
    NoteView::Line(seq![sp(style, text)])
}

/// An empty line.
pub open spec fn blank() -> NoteView {
    NoteView::Line(seq![])
}

/// A line of fifty box-drawing dashes.
pub open spec fn rule() -> NoteView {
    line1(Style::Plain, RULE@)
}

/// A line with a coloured mark before the message: `"  <mark> <text>"`.
pub open spec fn marked(mark_style: Style, mark: Seq<char>, style: Style, text: Seq<char>) -> NoteView {
    NoteView::Line(seq![sp(Style::Plain, "  "@), sp(mark_style, mark), sp(Style::Plain, " "@), sp(style, text)])
}

pub open spec fn success(text: Seq<char>) -> NoteView {
    marked(Style::GreenBold, "✓"@, Style::Green, text)
}

pub open spec fn failure(text: Seq<char>) -> NoteView {
    marked(Style::RedBold, "✗"@, Style::Red, text)
}

pub open spec fn warning(text: Seq<char>) -> NoteView {
    marked(Style::YellowBold, "!"@, Style::Yellow, text)
}

pub open spec fn info(text: Seq<char>) -> NoteView {
    marked(Style::CyanBold, "ℹ"@, Style::Cyan, text)
}

pub open spec fn progress(message: Seq<char>, millis: u64) -> NoteView {
    NoteView::Progress { message, millis }
}

/// A section header: a blank line, a bar, the title, a bar.
pub open spec fn header(title: Seq<char>) -> Seq<NoteView> {
    seq![
        NoteView::Line(seq![sp(Style::Plain, "\n"@), sp(Style::Purple, BAR@)]),
        line1(Style::CyanBold, title),
        line1(Style::Purple, BAR@),
    ]
}

/// The text `STEP <n>: <title>`.
pub open spec fn step_title(n: u8, title: Seq<char>) -> Seq<char> {
    "STEP "@ + decimal(n as nat) + ": "@ + title
}

/// The opening of a numbered installation step.
pub open spec fn step_start(n: u8, title: Seq<char>) -> Seq<NoteView> {
    seq![
        NoteView::Line(seq![
            sp(Style::Plain, "\n"@),
            sp(Style::Blue, "┌─"@),
            sp(Style::Plain, " "@),
            sp(Style::CyanBold, step_title(n, title)),
        ]),
        line1(Style::Blue, "│"@),
    ]
}

/// The close of a numbered installation step.
pub open spec fn step_end() -> NoteView {
    NoteView::Line(seq![sp(Style::Blue, "└─"@), sp(Style::Plain, " "@), sp(Style::Green, "✓ Completed"@)])
}

pub fn span(style: Style, text: &str) -> (s: Span)
    ensures
        s@ == sp(style, text@),
{
    Span { style, text: owned(text) }
}

pub fn span_owned(style: Style, text: String) -> (s: Span)
    ensures
        s@ == sp(style, text@),
{
    Span { style, text }
}

pub fn mk_line(spans: Vec<Span>) -> (n: Note)
    ensures
        n@ == NoteView::Line(spans_view(spans@)),
{
    Note::Line(spans)
}

pub fn mk_line1(style: Style, text: &str) -> (n: Note)
    ensures
        n@ == line1(style, text@),
{
    let v = vec![span(style, text)];
    proof {
        assert(spans_view(v@) =~= seq![sp(style, text@)]);
    }
    Note::Line(v)
}

pub fn mk_blank() -> (n: Note)
    ensures
        n@ == blank(),
{
    let v: Vec<Span> = Vec::new();
    proof {
        assert(spans_view(v@) =~= seq![]);
    }
    Note::Line(v)
}

pub fn mk_rule() -> (n: Note)
    ensures
        n@ == rule(),
{
    mk_line1(Style::Plain, RULE)
}

fn mk_marked(mark_style: Style, mark: &str, style: Style, text: &str) -> (n: Note)
    ensures
        n@ == marked(mark_style, mark@, style, text@),
{
    let v = vec![span(Style::Plain, "  "), span(mark_style, mark), span(Style::Plain, " "), span(style, text)];
    proof {
        assert(spans_view(v@) =~= seq![sp(Style::Plain, "  "@), sp(mark_style, mark@), sp(Style::Plain, " "@), sp(style, text@)]);
    }
    Note::Line(v)
}

pub fn mk_success(text: &str) -> (n: Note)
    ensures
        n@ == success(text@),
{
    mk_marked(Style::GreenBold, "✓", Style::Green, text)
}

pub fn mk_failure(text: &str) -> (n: Note)
    ensures
        n@ == failure(text@),
{
    mk_marked(Style::RedBold, "✗", Style::Red, text)
}

pub fn mk_warning(text: &str) -> (n: Note)
    ensures
        n@ == warning(text@),
{
    mk_marked(Style::YellowBold, "!", Style::Yellow, text)
}

pub fn mk_info(text: &str) -> (n: Note)
    ensures
        n@ == info(text@),
{
    mk_marked(Style::CyanBold, "ℹ", Style::Cyan, text)
}

pub fn mk_progress(message: &str, millis: u64) -> (n: Note)
    ensures
        n@ == progress(message@, millis),
{
    Note::Progress { message: owned(message), millis }
}

/// Appends one note.
pub fn push_note(notes: &mut Vec<Note>, n: Note)
    ensures
        notes_view(final(notes)@) == notes_view(old(notes)@).push(n@),
{
    notes.push(n);
    proof {
        assert(notes_view(final(notes)@) =~= notes_view(old(notes)@).push(n@));
    }
}

/// Appends a list of notes.
pub fn append_notes(notes: &mut Vec<Note>, more: Vec<Note>)
    ensures
        notes_view(final(notes)@) == notes_view(old(notes)@) + notes_view(more@),
{
    let mut more = more;
    let ghost added = more@;
    notes.append(&mut more);
    proof {
        assert(notes_view(final(notes)@) =~= notes_view(old(notes)@) + notes_view(added));
    }
}

pub fn mk_header(title: &str) -> (notes: Vec<Note>)
    ensures
        notes_view(notes@) == header(title@),
{
    let mut notes: Vec<Note> = Vec::new();
    let v = vec![span(Style::Plain, "\n"), span(Style::Purple, BAR)];
    proof {
        assert(spans_view(v@) =~= seq![sp(Style::Plain, "\n"@), sp(Style::Purple, BAR@)]);
    }
    push_note(&mut notes, Note::Line(v));
    push_note(&mut notes, mk_line1(Style::CyanBold, title));
    push_note(&mut notes, mk_line1(Style::Purple, BAR));
    proof {
        assert(notes_view(notes@) =~= header(title@));
    }
    notes
}

pub fn mk_step_start(n: u8, title: &str) -> (notes: Vec<Note>)
    ensures
        notes_view(notes@) == step_start(n, title@),
{
    let t = owned("STEP ").concat(decimal_string(n as u64).as_str()).concat(": ").concat(title);
    let mut notes: Vec<Note> = Vec::new();
    let v = vec![span(Style::Plain, "\n"), span(Style::Blue, "┌─"), span(Style::Plain, " "), span_owned(Style::CyanBold, t)];
    proof {
        assert(spans_view(v@) =~= seq![
            sp(Style::Plain, "\n"@),
            sp(Style::Blue, "┌─"@),
            sp(Style::Plain, " "@),
            sp(Style::CyanBold, step_title(n, title@)),
        ]);
    }
    push_note(&mut notes, Note::Line(v));
    push_note(&mut notes, mk_line1(Style::Blue, "│"));
    proof {
        assert(notes_view(notes@) =~= step_start(n, title@));
    }
    notes
}

pub fn mk_step_end() -> (n: Note)
    ensures
        n@ == step_end(),
{
    let v = vec![span(Style::Blue, "└─"), span(Style::Plain, " "), span(Style::Green, "✓ Completed")];
    proof {
        assert(spans_view(v@) =~= seq![sp(Style::Blue, "└─"@), sp(Style::Plain, " "@), sp(Style::Green, "✓ Completed"@)]);
    }
    Note::Line(v)
}

} // verus!
