//! The diagnostics that the runtime reports after an edit, as the
//! Diagnostics section shows them.
use crate::agent_event_adapter::{AgentEvent, ToolResultEvent};
use crate::agent_timeline::opt_view;
use crate::json::{get, get_str, get_u64, json_get, str_field, u64_field, JsonValue};
use crate::text::{owned, str_eq};
use vstd::prelude::*;

verus! {

broadcast use vstd::string::group_string_axioms;

/// How serious a diagnostic is.
#[derive(Clone, Copy, Debug, PartialEq, Eq, Structural)]
pub enum PcDiagnosticSeverity {
    Error,
    Warning,
    Info,
    Hint,
}

/// One diagnostic of a checked file.
#[derive(Clone, Debug, PartialEq, Eq)]
pub struct PcDiagnostic {
    pub path: String,
    pub line: u64,
    pub column: u64,
    pub severity: PcDiagnosticSeverity,
    pub message: String,
    pub source: String,
}

/// A diagnostic as values.
pub struct PcDiagnosticView {
    pub path: Seq<char>,
    pub line: u64,
    pub column: u64,
    pub severity: PcDiagnosticSeverity,
    pub message: Seq<char>,
    pub source: Seq<char>,
}

impl View for PcDiagnostic {
    type V = PcDiagnosticView;

    open spec fn view(&self) -> PcDiagnosticView {
        PcDiagnosticView {
            path: self.path@,
            line: self.line,
            column: self.column,
            severity: self.severity,
            message: self.message@,
            source: self.source@,
        }
    }
}

/// The label of a severity.
pub fn severity_label(severity: &PcDiagnosticSeverity) -> (r: &'static str)
    ensures
        r@ == match *severity {
            PcDiagnosticSeverity::Error => "ERROR"@,
            PcDiagnosticSeverity::Warning => "WARNING"@,
            PcDiagnosticSeverity::Info => "INFO"@,
            PcDiagnosticSeverity::Hint => "HINT"@,
        },
{
    match severity {
        PcDiagnosticSeverity::Error => "ERROR",
        PcDiagnosticSeverity::Warning => "WARNING",
        PcDiagnosticSeverity::Info => "INFO",
        PcDiagnosticSeverity::Hint => "HINT",
    }
}

/// The colour of a severity.
pub fn severity_color(severity: &PcDiagnosticSeverity) -> (r: &'static str)
    ensures
        r@ == match *severity {
            PcDiagnosticSeverity::Error => "#fca5a5"@,
            PcDiagnosticSeverity::Warning => "#fcd34d"@,
            PcDiagnosticSeverity::Info => "#93c5fd"@,
            PcDiagnosticSeverity::Hint => "#c4b5fd"@,
        },
{
    match severity {
        PcDiagnosticSeverity::Error => "#fca5a5",
        PcDiagnosticSeverity::Warning => "#fcd34d",
        PcDiagnosticSeverity::Info => "#93c5fd",
        PcDiagnosticSeverity::Hint => "#c4b5fd",
    }
}

/// A severity named as the runtime writes it.
pub open spec fn severity_named(s: Seq<char>) -> Option<PcDiagnosticSeverity> {
    if s == "Error"@ {
        Some(PcDiagnosticSeverity::Error)
    } else if s == "Warning"@ {
        Some(PcDiagnosticSeverity::Warning)
    } else if s == "Info"@ {
        Some(PcDiagnosticSeverity::Info)
    } else if s == "Hint"@ {
        Some(PcDiagnosticSeverity::Hint)
    } else {
        None
    }
}

/// A diagnostic record: `path`, `line`, `column`, `severity`, `message` and
/// `source`, all required.
pub open spec fn diagnostic_from_json(v: JsonValue) -> Option<PcDiagnosticView> {
    match (
        str_field(v, "path"@),
        u64_field(v, "line"@),
        u64_field(v, "column"@),
        str_field(v, "severity"@),
        str_field(v, "message"@),
        str_field(v, "source"@),
    ) {
        (Some(path), Some(line), Some(column), Some(sev), Some(message), Some(source)) => match severity_named(sev) {
            Some(severity) => Some(PcDiagnosticView { path, line, column, severity, message, source }),
            None => None,
        },
        _ => None,
    }
}

/// A list of diagnostic records; one unreadable record makes the whole list unreadable.
pub open spec fn diagnostics_from_json(items: Seq<JsonValue>) -> Option<Seq<PcDiagnosticView>>
    decreases items.len(),
{
    if items.len() == 0 {
        Some(Seq::empty())
    } else {
        match (diagnostics_from_json(items.drop_last()), diagnostic_from_json(items.last())) {
            (Some(d), Some(x)) => Some(d.push(x)),
            _ => None,
        }
    }
}

fn parse_severity(s: &str) -> (r: Option<PcDiagnosticSeverity>)
    ensures
        r == severity_named(s@),
{
    if str_eq(s, "Error") {
        Some(PcDiagnosticSeverity::Error)
    } else if str_eq(s, "Warning") {
        Some(PcDiagnosticSeverity::Warning)
    } else if str_eq(s, "Info") {
        Some(PcDiagnosticSeverity::Info)
    } else if str_eq(s, "Hint") {
        Some(PcDiagnosticSeverity::Hint)
    } else {
        None
    }
}

fn parse_diagnostic(v: &JsonValue) -> (r: Option<PcDiagnostic>)
    ensures
        match r {
            Some(d) => diagnostic_from_json(*v) == Some(d@),
            None => diagnostic_from_json(*v) is None,
        },
{
    let path = match get_str(v, "path") {
        Some(s) => s,
        None => return None,
    };
    let line = match get_u64(v, "line") {
        Some(n) => n,
        None => return None,
    };
    let column = match get_u64(v, "column") {
        Some(n) => n,
        None => return None,
    };
    let sev = match get_str(v, "severity") {
        Some(s) => s,
        None => return None,
    };
    let message = match get_str(v, "message") {
        Some(s) => s,
        None => return None,
    };
    let source = match get_str(v, "source") {
        Some(s) => s,
        None => return None,
    };
    match parse_severity(sev) {
        Some(severity) => Some(
            PcDiagnostic {
                path: owned(path),
                line,
                column,
                severity,
                message: owned(message),
                source: owned(source),
            },
        ),
        None => None,
    }
}

/// The diagnostics as values.
pub open spec fn diagnostics_view(v: Seq<PcDiagnostic>) -> Seq<PcDiagnosticView> {
    v.map_values(|d: PcDiagnostic| d@)
}

fn parse_diagnostics(items: &Vec<JsonValue>) -> (r: Option<Vec<PcDiagnostic>>)
    ensures
        match r {
            Some(d) => diagnostics_from_json(items@) == Some(diagnostics_view(d@)),
            None => diagnostics_from_json(items@) is None,
        },
{
    let mut out: Vec<PcDiagnostic> = Vec::new();
    let mut i: usize = 0;
    assert(items@.take(0) =~= Seq::<JsonValue>::empty());
    assert(diagnostics_view(out@) =~= Seq::<PcDiagnosticView>::empty());
    while i < items.len()
        invariant
            i <= items.len(),
            diagnostics_from_json(items@.take(i as int)) == Some(diagnostics_view(out@)),
        decreases items.len() - i,
    {
        assert(items@.take(i + 1).drop_last() == items@.take(i as int));
        assert(items@.take(i + 1).last() == items@[i as int]);
        match parse_diagnostic(&items[i]) {
            Some(d) => {
                let ghost before = out@;
                out.push(d);
                assert(diagnostics_view(out@) =~= diagnostics_view(before).push(d@));
            },
            None => {
                proof {
                    lemma_unreadable_stays(items@, i as int);
                }
                return None;
            },
        }
        i = i + 1;
    }
    assert(items@.take(items.len() as int) == items@);
    Some(out)
}

proof fn lemma_unreadable_stays(items: Seq<JsonValue>, i: int)
    requires
        0 <= i < items.len(),
        diagnostic_from_json(items[i]) is None,
    ensures
        diagnostics_from_json(items) is None,
    decreases items.len(),
{
    if i < items.len() - 1 {
        assert(items.drop_last()[i] == items[i]);
        lemma_unreadable_stays(items.drop_last(), i);
    }
}

/// The latest diagnostics report.
#[derive(Clone, Debug, PartialEq, Eq)]
pub struct DiagnosticsUiState {
    pub summary: Option<String>,
    pub diagnostics: Vec<PcDiagnostic>,
    pub path: Option<String>,
    pub provider: Option<String>,
    pub status: Option<String>,
    pub error: Option<String>,
}

/// The report as values.
pub struct DiagnosticsView {
    pub summary: Option<Seq<char>>,
    pub diagnostics: Seq<PcDiagnosticView>,
    pub path: Option<Seq<char>>,
    pub provider: Option<Seq<char>>,
    pub status: Option<Seq<char>>,
    pub error: Option<Seq<char>>,
}

impl View for DiagnosticsUiState {
    type V = DiagnosticsView;

    open spec fn view(&self) -> DiagnosticsView {
        DiagnosticsView {
            summary: opt_view(self.summary),
            diagnostics: diagnostics_view(self.diagnostics@),
            path: opt_view(self.path),
            provider: opt_view(self.provider),
            status: opt_view(self.status),
            error: opt_view(self.error),
        }
    }
}

impl Default for DiagnosticsUiState {
    fn default() -> (r: Self)
        ensures
            r@ == (DiagnosticsView {
                summary: None,
                diagnostics: Seq::empty(),
                path: None,
                provider: None,
                status: None,
                error: None,
            }),
    {
        let r = DiagnosticsUiState {
            summary: None,
            diagnostics: Vec::new(),
            path: None,
            provider: None,
            status: None,
            error: None,
        };
        assert(r@.diagnostics =~= Seq::<PcDiagnosticView>::empty());
        r
    }
}

/// Whether tool metadata carries a diagnostics report.
pub open spec fn has_report(m: JsonValue) -> bool {
    json_get(m, "post_edit_diagnostics"@) is Some || json_get(m, "post_edit_diagnostics_summary"@) is Some
        || json_get(m, "post_edit_diagnostics_error"@) is Some
}

/// The report that tool metadata carries: its texts, its error (or else its
/// message), and its diagnostics (none when they do not read).
pub open spec fn report_from_metadata(m: JsonValue) -> DiagnosticsView {
    DiagnosticsView {
        summary: str_field(m, "post_edit_diagnostics_summary"@),
        path: str_field(m, "post_edit_diagnostics_path"@),
        provider: str_field(m, "post_edit_diagnostics_provider"@),
        status: str_field(m, "post_edit_diagnostics_status"@),
        error: match str_field(m, "post_edit_diagnostics_error"@) {
            Some(e) => Some(e),
            None => str_field(m, "post_edit_diagnostics_message"@),
        },
        diagnostics: match json_get(m, "post_edit_diagnostics"@) {
            Some(JsonValue::Array(items)) => match diagnostics_from_json(items@) {
                Some(d) => d,
                None => Seq::empty(),
            },
            _ => Seq::empty(),
        },
    }
}

fn owned_opt(o: Option<&str>) -> (r: Option<String>)
    ensures
        opt_view(r) == match o {
            Some(s) => Some(s@),
            None => None::<Seq<char>>,
        },
{
    crate::json::opt_owned(o)
}

impl DiagnosticsUiState {
    /// Takes the report of a finished tool call, when its metadata carries one;
    /// other events change nothing.
    pub fn apply_agent_event(&mut self, event: &AgentEvent)
        ensures
            final(self)@ == match *event {
                AgentEvent::ToolCallFinished(r) => match r.metadata {
                    Some(m) => if has_report(m) {
                        report_from_metadata(m)
                    } else {
                        old(self)@
                    },
                    None => old(self)@,
                },
                _ => old(self)@,
            },
    {
        let result: &ToolResultEvent = match event {
            AgentEvent::ToolCallFinished(r) => r,
            _ => return,
        };
        let metadata = match &result.metadata {
            Some(m) => m,
            None => return,
        };
        let carries = get(metadata, "post_edit_diagnostics").is_some() || get(metadata, "post_edit_diagnostics_summary").is_some()
            || get(metadata, "post_edit_diagnostics_error").is_some();
        if !carries {
            return;
        }
        self.summary = owned_opt(get_str(metadata, "post_edit_diagnostics_summary"));
        self.path = owned_opt(get_str(metadata, "post_edit_diagnostics_path"));
        self.provider = owned_opt(get_str(metadata, "post_edit_diagnostics_provider"));
        self.status = owned_opt(get_str(metadata, "post_edit_diagnostics_status"));
        self.error = match get_str(metadata, "post_edit_diagnostics_error") {
            Some(e) => Some(owned(e)),
            None => owned_opt(get_str(metadata, "post_edit_diagnostics_message")),
        };
        let parsed = match get(metadata, "post_edit_diagnostics") {
            Some(JsonValue::Array(items)) => parse_diagnostics(items),
            _ => None,
        };
        self.diagnostics = match parsed {
            Some(d) => d,
            None => Vec::new(),
        };
        assert(self@.diagnostics =~= report_from_metadata(*metadata).diagnostics);
    }

    /// The number of errors.
    pub fn error_count(&self) -> (r: usize)
        ensures
            r == self@.diagnostics.filter(|d: PcDiagnosticView| d.severity == PcDiagnosticSeverity::Error).len(),
    {
        self.count_severity(PcDiagnosticSeverity::Error)
    }

    /// The number of warnings.
    pub fn warning_count(&self) -> (r: usize)
        ensures
            r == self@.diagnostics.filter(|d: PcDiagnosticView| d.severity == PcDiagnosticSeverity::Warning).len(),
    {
        self.count_severity(PcDiagnosticSeverity::Warning)
    }

    fn count_severity(&self, severity: PcDiagnosticSeverity) -> (r: usize)
        ensures
            r == self@.diagnostics.filter(|d: PcDiagnosticView| d.severity == severity).len(),
    {
        let ghost dv = self@.diagnostics;
        let ghost f = |d: PcDiagnosticView| d.severity == severity;
        let mut n: usize = 0;
        let mut i: usize = 0;
        assert(dv.take(0).filter(f) =~= Seq::<PcDiagnosticView>::empty());
        while i < self.diagnostics.len()
            invariant
                i <= self.diagnostics.len(),
                dv == self@.diagnostics,
                f == (|d: PcDiagnosticView| d.severity == severity),
                n == dv.take(i as int).filter(f).len(),
                n <= i,
            decreases self.diagnostics.len() - i,
        {
            reveal_with_fuel(Seq::filter, 1);
            assert(dv.take(i + 1).drop_last() == dv.take(i as int));
            assert(dv.take(i + 1).last() == self.diagnostics@[i as int]@);
            if self.diagnostics[i].severity == severity {
                n = n + 1;
            }
            i = i + 1;
        }
        assert(dv.take(self.diagnostics.len() as int) == dv);
        n
    }

    /// Whether there is anything to show.
    pub fn has_data(&self) -> (r: bool)
        ensures
            r == (self@.summary is Some || self@.error is Some || self@.diagnostics.len() > 0),
    {
        self.summary.is_some() || self.error.is_some() || self.diagnostics.len() > 0
    }
}

} // verus!
