use crate::formatting::{code_span_model, DocumentLocation, DocumentSpan, UiuaInputSource};
use uiua::{CodeSpan, Diagnostic, Span, UiuaError};
use vstd::prelude::*;
use vstd::string::StringExecFns;

verus! {

#[verifier::external_type_specification]
#[verifier::external_body]
pub struct ExSpan(uiua::Span);

#[verifier::external_type_specification]
#[verifier::external_body]
pub struct ExDiagnostic(uiua::Diagnostic);

#[verifier::external_type_specification]
#[verifier::external_body]
pub struct ExUiuaError(uiua::UiuaError);

/// How grave a diagnostic is.
#[derive(Clone, Copy, Debug, PartialEq, Eq, Structural)]
pub enum UiuaDiagnosticKind {
    Info,
    Style,
    Advice,
    Warning,
}

/// A message of the interpreter that is no error.
#[derive(Debug)]
pub struct UiuaDiagnostic {
    pub message: String,
    pub span: DocumentSpan,
    pub kind: UiuaDiagnosticKind,
}

/// One frame of an error's trace: a line to show, and the span of the call.
#[derive(Debug)]
pub struct UiuaTraceFrame {
    pub line: String,
    pub span: DocumentSpan,
}

/// An error of the interpreter in the flat form that crosses the boundary.
#[derive(Debug)]
pub struct SimplifiedUiuaError {
    pub message: String,
    pub trace: Vec<UiuaTraceFrame>,
}

/// A diagnostic of the interpreter, taken apart.
pub struct RawDiagnostic {
    pub message: String,
    pub span: Span,
    pub kind: UiuaDiagnosticKind,
}

/// One frame of a trace, taken apart: the called function as the
/// interpreter shows it, where it has one, and the span of the call.
pub struct RawFrame {
    pub id: Option<String>,
    pub span: Span,
}

/// An error of the interpreter, taken apart.
pub struct RawError {
    pub message: String,
    pub frames: Vec<RawFrame>,
}

/// The code span of a runtime span; none for the interpreter's own code.
pub uninterp spec fn span_code(s: Span) -> Option<CodeSpan>;

/// A code span as the interpreter shows it.
pub uninterp spec fn code_span_text(c: CodeSpan) -> Seq<char>;

/// The message, span and kind that a diagnostic holds.
pub uninterp spec fn diagnostic_parts(d: Diagnostic) -> RawDiagnostic;

/// The message that an error shows and the frames of its trace, in order.
pub uninterp spec fn error_parts(e: UiuaError) -> RawError;

/// Tells the two variants of `uiua::Span` apart: the code span of `Code`,
/// none for `Builtin`.
#[verifier::external_body]
fn peel_span(s: &Span) -> (r: Option<CodeSpan>)
    ensures
        r == span_code(*s),
{
    match s {
        Span::Code(c) => Some(c.clone()),
        Span::Builtin => None,
    }
}

/// Shows a code span by `uiua::CodeSpan`'s `Display`.
#[verifier::external_body]
fn span_text(c: &CodeSpan) -> (r: String)
    ensures
        r@ == code_span_text(*c),
{
    c.to_string()
}

/// Reads the fields of a `uiua::Diagnostic`, telling the variants of
/// `uiua::DiagnosticKind` apart.
#[verifier::external_body]
fn peel_diagnostic(d: &Diagnostic) -> (r: RawDiagnostic)
    ensures
        r == diagnostic_parts(*d),
{
    RawDiagnostic {
        message: d.message.clone(),
        span: d.span.clone(),
        kind: match d.kind {
            uiua::DiagnosticKind::Info => UiuaDiagnosticKind::Info,
            uiua::DiagnosticKind::Style => UiuaDiagnosticKind::Style,
            uiua::DiagnosticKind::Advice => UiuaDiagnosticKind::Advice,
            uiua::DiagnosticKind::Warning => UiuaDiagnosticKind::Warning,
        },
    }
}

/// Shows a `uiua::UiuaError` by its `Display` and reads its trace: for each
/// frame the called function by `uiua::FunctionId`'s `Display`, where the
/// frame has one, and the span.
#[verifier::external_body]
fn peel_error(e: &UiuaError) -> (r: RawError)
    ensures
        r == error_parts(*e),
{
    let frame = |f: &uiua::TraceFrame| RawFrame {
        id: f.id.as_ref().map(|id| id.to_string()),
        span: f.span.clone(),
    };
    RawError { message: e.to_string(), frames: e.trace.iter().map(frame).collect() }
}

/// The document span that a runtime span stands for: that of its code span,
/// or the span of the interpreter's own code.
pub open spec fn span_model(s: Span) -> DocumentSpan {
    match span_code(s) {
        Some(c) => code_span_model(c),
        None => DocumentSpan {
            src: UiuaInputSource::Builtin,
            from: DocumentLocation { line: 0, column: 0 },
            to: DocumentLocation { line: 0, column: 0 },
        },
    }
}

impl DocumentSpan {
    /// The document span that a runtime span stands for.
    pub fn from_span(s: &Span) -> (r: Self)
        ensures
            r == span_model(*s),
    {
        match peel_span(s) {
            Some(c) => DocumentSpan::from_code_span(&c),
            None => DocumentSpan::builtin(),
        }
    }
}

impl UiuaDiagnostic {
    /// A diagnostic with its parts: the message and kind as they are, the
    /// span as a document span.
    pub fn from_parts(raw: RawDiagnostic) -> (r: Self)
        ensures
            r.message == raw.message,
            r.span == span_model(raw.span),
            r.kind == raw.kind,
    {
        let span = DocumentSpan::from_span(&raw.span);
        UiuaDiagnostic { message: raw.message, span, kind: raw.kind }
    }

    /// The flat form of a diagnostic of the interpreter.
    pub fn from_diagnostic(d: &Diagnostic) -> (r: Self)
        ensures
            r.message == diagnostic_parts(*d).message,
            r.span == span_model(diagnostic_parts(*d).span),
            r.kind == diagnostic_parts(*d).kind,
    {
        UiuaDiagnostic::from_parts(peel_diagnostic(d))
    }
}

/// The line of a trace frame, by whether it names a function and whether it
/// has a place in code: `in F at P`, `in F`, `at P`, or `<omitted>`.
pub open spec fn trace_line_spec(id: Option<Seq<char>>, at: Option<Seq<char>>) -> Seq<char> {
    match (id, at) {
        (Some(id), Some(at)) => "in "@ + id + " at "@ + at,
        (Some(id), None) => "in "@ + id,
        (None, Some(at)) => "at "@ + at,
        (None, None) => "<omitted>"@,
    }
}

pub open spec fn text_view(s: Option<&String>) -> Option<Seq<char>> {
    match s {
        Some(s) => Some(s@),
        None => None,
    }
}

/// The line of a trace frame from the function it names, if any, and the
/// place in code it has, if any.
pub fn trace_line(id: Option<&String>, at: Option<&String>) -> (r: String)
    ensures
        r@ == trace_line_spec(text_view(id), text_view(at)),
{
    match (id, at) {
        (Some(id), Some(at)) => {
            let mut line = String::from_str("in ");
            line.append(id.as_str());
            line.append(" at ");
            line.append(at.as_str());
            line
        },
        (Some(id), None) => {
            let mut line = String::from_str("in ");
            line.append(id.as_str());
            line
        },
        (None, Some(at)) => {
            let mut line = String::from_str("at ");
            line.append(at.as_str());
            line
        },
        (None, None) => String::from_str("<omitted>"),
    }
}

/// The place of a frame's span as the interpreter shows it; none for the
/// interpreter's own code.
pub open spec fn place_text(s: Span) -> Option<Seq<char>> {
    match span_code(s) {
        Some(c) => Some(code_span_text(c)),
        None => None,
    }
}

pub open spec fn id_view(id: Option<String>) -> Option<Seq<char>> {
    match id {
        Some(s) => Some(s@),
        None => None,
    }
}

impl UiuaTraceFrame {
    /// The flat form of one frame of a trace.
    pub fn from_frame(frame: &RawFrame) -> (r: Self)
        ensures
            r.line@ == trace_line_spec(id_view(frame.id), place_text(frame.span)),
            r.span == span_model(frame.span),
    {
        let place = match peel_span(&frame.span) {
            Some(c) => Some(span_text(&c)),
            None => None,
        };
        let line = trace_line(frame.id.as_ref(), place.as_ref());
        UiuaTraceFrame { line, span: DocumentSpan::from_span(&frame.span) }
    }
}

/// Whether a flat trace is that of the given frames, frame by frame.
pub open spec fn is_trace_of(trace: Seq<UiuaTraceFrame>, frames: Seq<RawFrame>) -> bool {
    &&& trace.len() == frames.len()
    &&& forall|i: int|
        0 <= i < frames.len() ==> (#[trigger] trace[i]).line@ == trace_line_spec(
            id_view(frames[i].id),
            place_text(frames[i].span),
        ) && trace[i].span == span_model(frames[i].span)
}

impl SimplifiedUiuaError {
    /// The flat form of an error from its parts: the message as it is, and
    /// one frame for each frame of the trace, in order.
    pub fn from_parts(raw: RawError) -> (r: Self)
        ensures
            r.message == raw.message,
            is_trace_of(r.trace@, raw.frames@),
    {
        let mut trace: Vec<UiuaTraceFrame> = Vec::new();
        let mut i: usize = 0;
        while i < raw.frames.len()
            invariant
                i <= raw.frames@.len(),
                is_trace_of(trace@, raw.frames@.take(i as int)),
            decreases raw.frames@.len() - i,
        {
            trace.push(UiuaTraceFrame::from_frame(&raw.frames[i]));
            i += 1;
        }
        assert(raw.frames@.take(i as int) =~= raw.frames@);
        SimplifiedUiuaError { message: raw.message, trace }
    }

    /// The flat form of an error of the interpreter, whether it arose while
    /// loading or while running.
    pub fn from_error(e: &UiuaError) -> (r: Self)
        ensures
            r.message == error_parts(*e).message,
            is_trace_of(r.trace@, error_parts(*e).frames@),
    {
        SimplifiedUiuaError::from_parts(peel_error(e))
    }
}

} // verus!
