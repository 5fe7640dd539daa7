//! What the diagnostics window shows.

use vstd::prelude::*;
use vstd::string::StringExecFns;
use crate::renderer::diagnostics::{DiagnosticsView, RendererDiagnostics, blank_diagnostics};
use crate::text::opt_view;

verus! {

/// The state of the diagnostics window.
#[derive(Clone, Debug)]
pub struct DiagnosticsState {
    /// The window is open.
    pub open: bool,
    /// The report of the renderer.
    pub renderer: RendererDiagnostics,
    /// The latest error of the application, if there was one.
    pub last_error: Option<String>,
}

/// How a line of the window is set.
#[derive(Clone, Copy, Debug, PartialEq, Eq, Structural)]
pub enum LineKind {
    /// An ordinary line.
    Plain,
    /// A line of further detail, set in italics.
    Detail,
    /// The place of the line that tells how long ago the renderer was
    /// probed. Its text is empty: whoever draws the window reads the clock.
    ProbedAgo,
    /// The failures of earlier attempts, set off as a warning.
    Fallback,
    /// The latest error of the application, set off as an error below a
    /// separator.
    LastError,
}

/// One line of the window.
#[derive(Clone, Debug)]
pub struct DiagnosticsLine {
    pub kind: LineKind,
    pub text: String,
}

/// Mathematical model of a [`DiagnosticsLine`].
pub struct LineView {
    pub kind: LineKind,
    pub text: Seq<char>,
}

impl View for DiagnosticsLine {
    type V = LineView;

    open spec fn view(&self) -> LineView {
        LineView { kind: self.kind, text: self.text@ }
    }
}

/// The views of a sequence of lines.
pub open spec fn line_views(lines: Seq<DiagnosticsLine>) -> Seq<LineView> {
    lines.map_values(|line: DiagnosticsLine| line@)
}

/// The line of the kind `kind` that shows `value` after `title`, or no line
/// where there is no value.
pub open spec fn optional_line(kind: LineKind, title: Seq<char>, value: Option<Seq<char>>) -> Seq<
    LineView,
> {
    match value {
        Some(text) => seq![LineView { kind, text: title + text }],
        None => Seq::empty(),
    }
}

/// The plain line `text` where `flag` is set, or no line.
pub open spec fn flag_line(flag: bool, text: Seq<char>) -> Seq<LineView> {
    if flag {
        seq![LineView { kind: LineKind::Plain, text }]
    } else {
        Seq::empty()
    }
}

/// The lines of the window, from top to bottom: the backend; the adapter,
/// its kind, the compositor and the detail of the backend, each where known;
/// a line for a fallback and one for software rendering, each where in use;
/// the place of the line on the probe's age; the failures of earlier
/// attempts where there are any; a line where software rendering was forced
/// and one where the environment forced it; and the latest error of the
/// application where there is one.
pub open spec fn window_lines(report: DiagnosticsView, last_error: Option<Seq<char>>) -> Seq<
    LineView,
> {
    seq![LineView { kind: LineKind::Plain, text: "Backend: "@ + report.backend }] + optional_line(
        LineKind::Plain,
        "Adapter: "@,
        report.adapter_name,
    ) + optional_line(LineKind::Plain, "Adapter Type: "@, report.adapter_type) + optional_line(
        LineKind::Plain,
        "Compositor: "@,
        report.compositor,
    ) + optional_line(LineKind::Detail, Seq::empty(), report.backend_details) + flag_line(
        report.fallback_used,
        "Fallback backend engaged"@,
    ) + flag_line(report.software_backend, "Software fallback active"@) + seq![
        LineView { kind: LineKind::ProbedAgo, text: Seq::empty() },
    ] + optional_line(LineKind::Fallback, "Fallback: "@, report.failure_reason) + flag_line(
        report.forced_software,
        "Software rendering forced"@,
    ) + flag_line(report.env_forced, "Set by MICROSERIAL_FORCE_SOFTWARE"@) + optional_line(
        LineKind::LastError,
        "Last error: "@,
        last_error,
    )
}

fn push_optional(lines: &mut Vec<DiagnosticsLine>, kind: LineKind, title: &str, value: &Option<String>)
    ensures
        line_views(final(lines)@) == line_views(old(lines)@) + optional_line(
            kind,
            title@,
            opt_view(*value),
        ),
{
    match value {
        Some(shown) => {
            let mut text = String::from_str(title);
            text.append(shown.as_str());
            lines.push(DiagnosticsLine { kind, text });
        },
        None => {},
    }
}

fn push_flag(lines: &mut Vec<DiagnosticsLine>, flag: bool, text: &str)
    ensures
        line_views(final(lines)@) == line_views(old(lines)@) + flag_line(flag, text@),
{
    if flag {
        lines.push(DiagnosticsLine { kind: LineKind::Plain, text: String::from_str(text) });
    }
}

impl Default for DiagnosticsState {
    fn default() -> (state: DiagnosticsState)
        ensures
            !state.open,
            state.renderer@ == blank_diagnostics(),
            state.last_error is None,
    {
        DiagnosticsState { open: false, renderer: RendererDiagnostics::default(), last_error: None }
    }
}

impl DiagnosticsState {
    /// The state of a closed window that shows `renderer`. Where the user's
    /// settings force software rendering, the report says so, and says that
    /// rendering runs in software.
    pub fn with_renderer(renderer: RendererDiagnostics, force_software: bool) -> (state:
        DiagnosticsState)
        ensures
            !state.open,
            state.last_error is None,
            state.renderer@ == (if force_software {
                DiagnosticsView { forced_software: true, software_backend: true, ..renderer@ }
            } else {
                renderer@
            }),
            state.renderer.started_at == renderer.started_at,
    {
        let mut state = DiagnosticsState { open: false, renderer, last_error: None };
        if force_software {
            state.renderer.forced_software = true;
            state.renderer.software_backend = true;
        }
        state
    }

    /// The lines of the window, from top to bottom.
    pub fn lines(&self) -> (lines: Vec<DiagnosticsLine>)
        ensures
            line_views(lines@) == window_lines(self.renderer@, opt_view(self.last_error)),
    {
        let report = &self.renderer;
        let mut lines: Vec<DiagnosticsLine> = Vec::new();
        let mut backend = String::from_str("Backend: ");
        backend.append(report.backend.as_str());
        lines.push(DiagnosticsLine { kind: LineKind::Plain, text: backend });
        assert(line_views(lines@) =~= seq![
            LineView { kind: LineKind::Plain, text: "Backend: "@ + report@.backend },
        ]);
        push_optional(&mut lines, LineKind::Plain, "Adapter: ", &report.adapter_name);
        push_optional(&mut lines, LineKind::Plain, "Adapter Type: ", &report.adapter_type);
        push_optional(&mut lines, LineKind::Plain, "Compositor: ", &report.compositor);
        push_optional(&mut lines, LineKind::Detail, "", &report.backend_details);
        proof {
            reveal_strlit("");
        }
        push_flag(&mut lines, report.fallback_used, "Fallback backend engaged");
        push_flag(&mut lines, report.software_backend, "Software fallback active");
        lines.push(DiagnosticsLine { kind: LineKind::ProbedAgo, text: String::new() });
        push_optional(&mut lines, LineKind::Fallback, "Fallback: ", &report.failure_reason);
        push_flag(&mut lines, report.forced_software, "Software rendering forced");
        push_flag(&mut lines, report.env_forced, "Set by MICROSERIAL_FORCE_SOFTWARE");
        push_optional(&mut lines, LineKind::LastError, "Last error: ", &self.last_error);
        lines
    }
}

} // verus!
