use crate::formatting::{
    DocumentLocation, DocumentSpan, FormatOutputStruct, GlyphMapping, UiuaInputSource,
};
use crate::json::{
    fields_view, items_view, lemma_array_view, lemma_object_view, Field, FieldView, Json,
    JsonNumber, JsonView,
};
use crate::report::{SimplifiedUiuaError, UiuaDiagnostic, UiuaDiagnosticKind, UiuaTraceFrame};
use crate::runtime::UiuaExecutionFailure;
use vstd::prelude::*;
use vstd::string::StringExecFns;

verus! {

/// One member of a wire object.
pub open spec fn entry(name: Seq<char>, value: JsonView) -> FieldView {
    FieldView { name, value }
}

/// The wire form of a count.
pub open spec fn count_json(n: nat) -> JsonView {
    JsonView::Number(JsonNumber::Unsigned(n as u64))
}

/// The wire form of bytes: the array of their numbers.
pub open spec fn octets_json(bytes: Seq<u8>) -> JsonView {
    JsonView::Array(Seq::new(bytes.len(), |i: int| count_json(bytes[i] as nat)))
}

/// The wire form of a place: the members `line` and `column`.
pub open spec fn location_json(l: DocumentLocation) -> JsonView {
    JsonView::Object(
        seq![entry("line"@, count_json(l.line as nat)), entry("column"@, count_json(l.column as nat))],
    )
}

/// The wire form of a source: the member `type`, and with it `id` for a
/// text, `path` for a file, `span` for a macro, nothing for the
/// interpreter's own code.
pub open spec fn source_json(src: UiuaInputSource) -> JsonView
    decreases src,
{
    match src {
        UiuaInputSource::String(id) => JsonView::Object(
            seq![entry("type"@, JsonView::Text("string"@)), entry("id"@, count_json(id as nat))],
        ),
        UiuaInputSource::File(path) => JsonView::Object(
            seq![entry("type"@, JsonView::Text("file"@)), entry("path"@, JsonView::Text(path@))],
        ),
        UiuaInputSource::Macro(span) => JsonView::Object(
            seq![entry("type"@, JsonView::Text("macro"@)), entry("span"@, span_json(*span))],
        ),
        UiuaInputSource::Builtin => JsonView::Object(
            seq![entry("type"@, JsonView::Text("builtin"@))],
        ),
    }
}

/// The wire form of a span: the members `src`, `from` and `to`.
pub open spec fn span_json(span: DocumentSpan) -> JsonView
    decreases span,
{
    JsonView::Object(
        seq![
            entry("src"@, source_json(span.src)),
            entry("from"@, location_json(span.from)),
            entry("to"@, location_json(span.to)),
        ],
    )
}

/// The name of a diagnostic's kind on the wire.
pub open spec fn kind_text(kind: UiuaDiagnosticKind) -> Seq<char> {
    match kind {
        UiuaDiagnosticKind::Info => "info"@,
        UiuaDiagnosticKind::Style => "style"@,
        UiuaDiagnosticKind::Advice => "advice"@,
        UiuaDiagnosticKind::Warning => "warning"@,
    }
}

/// The wire form of a diagnostic: the members `message`, `span` and `kind`.
pub open spec fn diagnostic_json(d: UiuaDiagnostic) -> JsonView {
    JsonView::Object(
        seq![
            entry("message"@, JsonView::Text(d.message@)),
            entry("span"@, span_json(d.span)),
            entry("kind"@, JsonView::Text(kind_text(d.kind))),
        ],
    )
}

/// The wire form of a trace frame: the members `line` and `span`.
pub open spec fn frame_json(f: UiuaTraceFrame) -> JsonView {
    JsonView::Object(
        seq![entry("line"@, JsonView::Text(f.line@)), entry("span"@, span_json(f.span))],
    )
}

/// The wire form of a trace: its frames in order.
pub open spec fn trace_json(trace: Seq<UiuaTraceFrame>) -> JsonView {
    JsonView::Array(Seq::new(trace.len(), |i: int| frame_json(trace[i])))
}

/// The wire form of an error: the members `message` and `trace`.
pub open spec fn error_json(e: SimplifiedUiuaError) -> JsonView {
    JsonView::Object(
        seq![entry("message"@, JsonView::Text(e.message@)), entry("trace"@, trace_json(e.trace@))],
    )
}

/// The wire form of a failed run: the error's `message` and `trace`, and
/// what was captured before it as `stdout` and `stderr`.
pub open spec fn failure_json(f: UiuaExecutionFailure) -> JsonView {
    JsonView::Object(
        seq![
            entry("message"@, JsonView::Text(f.error.message@)),
            entry("trace"@, trace_json(f.error.trace@)),
            entry("stdout"@, octets_json(f.stdout@)),
            entry("stderr"@, octets_json(f.stderr@)),
        ],
    )
}

/// The wire form of a glyph's mapping: the members `span_from` and
/// `span_to`.
pub open spec fn glyph_json(g: GlyphMapping) -> JsonView {
    JsonView::Object(
        seq![entry("span_from"@, span_json(g.span_from)), entry("span_to"@, span_json(g.span_to))],
    )
}

/// The wire form of formatted code: the members `output` and `glyph_map`.
pub open spec fn format_output_json(out: FormatOutputStruct) -> JsonView {
    JsonView::Object(
        seq![
            entry("output"@, JsonView::Text(out.output@)),
            entry(
                "glyph_map"@,
                JsonView::Array(Seq::new(out.glyph_map@.len(), |i: int| glyph_json(out.glyph_map@[i]))),
            ),
        ],
    )
}

/// The wire form of diagnostics: the array of their wire forms, in order.
pub open spec fn diagnostics_json(list: Seq<UiuaDiagnostic>) -> JsonView {
    JsonView::Array(Seq::new(list.len(), |i: int| diagnostic_json(list[i])))
}

/// One member of a wire object.
fn member(name: &str, value: Json) -> (r: Field)
    ensures
        r@ == entry(name@, value@),
{
    Field { name: String::from_str(name), value }
}

/// The wire object of the given members.
fn object(fields: Vec<Field>) -> (r: Json)
    ensures
        r@ == JsonView::Object(fields_view(fields@)),
{
    proof {
        lemma_object_view(fields);
    }
    Json::Object(fields)
}

/// The wire array of the given entries.
fn array(items: Vec<Json>) -> (r: Json)
    ensures
        r@ == JsonView::Array(items_view(items@)),
{
    proof {
        lemma_array_view(items);
    }
    Json::Array(items)
}

/// The wire form of a text.
fn text(s: &str) -> (r: Json)
    ensures
        r@ == JsonView::Text(s@),
{
    Json::Text(String::from_str(s))
}

/// The wire form of bytes.
pub fn encode_octets(bytes: &Vec<u8>) -> (r: Json)
    ensures
        r@ == octets_json(bytes@),
{
    let mut items: Vec<Json> = Vec::new();
    let mut i: usize = 0;
    while i < bytes.len()
        invariant
            i <= bytes@.len(),
            items@.len() == i,
            forall|k: int| 0 <= k < i ==> (#[trigger] items@[k])@ == count_json(bytes@[k] as nat),
        decreases bytes@.len() - i,
    {
        items.push(Json::Number(JsonNumber::Unsigned(bytes[i] as u64)));
        i += 1;
    }
    assert(items_view(items@) =~= octets_json(bytes@)->Array_0);
    array(items)
}

impl DocumentLocation {
    /// Encodes the place for the wire.
    pub fn to_json(&self) -> (r: Json)
        ensures
            r@ == location_json(*self),
    {
        let mut fields: Vec<Field> = Vec::new();
        fields.push(member("line", Json::Number(JsonNumber::Unsigned(self.line as u64))));
        fields.push(member("column", Json::Number(JsonNumber::Unsigned(self.column as u64))));
        assert(fields_view(fields@) =~= location_json(*self)->Object_0);
        object(fields)
    }
}

impl UiuaInputSource {
    /// Encodes the source for the wire.
    pub fn to_json(&self) -> (r: Json)
        ensures
            r@ == source_json(*self),
        decreases self, 0int,
    {
        let mut fields: Vec<Field> = Vec::new();
        match self {
            UiuaInputSource::String(id) => {
                fields.push(member("type", text("string")));
                fields.push(member("id", Json::Number(JsonNumber::Unsigned(*id as u64))));
            },
            UiuaInputSource::File(path) => {
                fields.push(member("type", text("file")));
                fields.push(member("path", Json::Text(path.clone())));
            },
            UiuaInputSource::Macro(span) => {
                fields.push(member("type", text("macro")));
                fields.push(member("span", span.to_json()));
            },
            UiuaInputSource::Builtin => {
                fields.push(member("type", text("builtin")));
            },
        }
        assert(fields_view(fields@) =~= source_json(*self)->Object_0);
        object(fields)
    }
}

impl DocumentSpan {
    /// Encodes the span for the wire.
    pub fn to_json(&self) -> (r: Json)
        ensures
            r@ == span_json(*self),
        decreases self, 1int,
    {
        let mut fields: Vec<Field> = Vec::new();
        fields.push(member("src", self.src.to_json()));
        fields.push(member("from", self.from.to_json()));
        fields.push(member("to", self.to.to_json()));
        assert(fields_view(fields@) =~= span_json(*self)->Object_0);
        object(fields)
    }
}

impl UiuaDiagnosticKind {
    /// The kind's name on the wire.
    pub fn name(&self) -> (r: &'static str)
        ensures
            r@ == kind_text(*self),
    {
        match self {
            UiuaDiagnosticKind::Info => "info",
            UiuaDiagnosticKind::Style => "style",
            UiuaDiagnosticKind::Advice => "advice",
            UiuaDiagnosticKind::Warning => "warning",
        }
    }
}

impl UiuaDiagnostic {
    /// Encodes the diagnostic for the wire.
    pub fn to_json(&self) -> (r: Json)
        ensures
            r@ == diagnostic_json(*self),
    {
        let mut fields: Vec<Field> = Vec::new();
        fields.push(member("message", Json::Text(self.message.clone())));
        fields.push(member("span", self.span.to_json()));
        fields.push(member("kind", text(self.kind.name())));
        assert(fields_view(fields@) =~= diagnostic_json(*self)->Object_0);
        object(fields)
    }
}

impl UiuaTraceFrame {
    /// Encodes the frame for the wire.
    pub fn to_json(&self) -> (r: Json)
        ensures
            r@ == frame_json(*self),
    {
        let mut fields: Vec<Field> = Vec::new();
        fields.push(member("line", Json::Text(self.line.clone())));
        fields.push(member("span", self.span.to_json()));
        assert(fields_view(fields@) =~= frame_json(*self)->Object_0);
        object(fields)
    }
}

/// The wire form of a trace.
fn encode_trace(trace: &Vec<UiuaTraceFrame>) -> (r: Json)
    ensures
        r@ == trace_json(trace@),
{
    let mut items: Vec<Json> = Vec::new();
    let mut i: usize = 0;
    while i < trace.len()
        invariant
            i <= trace@.len(),
            items@.len() == i,
            forall|k: int| 0 <= k < i ==> (#[trigger] items@[k])@ == frame_json(trace@[k]),
        decreases trace@.len() - i,
    {
        items.push(trace[i].to_json());
        i += 1;
    }
    assert(items_view(items@) =~= trace_json(trace@)->Array_0);
    array(items)
}

impl SimplifiedUiuaError {
    /// Encodes the error for the wire.
    pub fn to_json(&self) -> (r: Json)
        ensures
            r@ == error_json(*self),
    {
        let mut fields: Vec<Field> = Vec::new();
        fields.push(member("message", Json::Text(self.message.clone())));
        fields.push(member("trace", encode_trace(&self.trace)));
        assert(fields_view(fields@) =~= error_json(*self)->Object_0);
        object(fields)
    }
}

impl UiuaExecutionFailure {
    /// Encodes the failed run for the wire: the error, and with it what was
    /// captured on both channels.
    pub fn to_json(&self) -> (r: Json)
        ensures
            r@ == failure_json(*self),
    {
        let mut fields: Vec<Field> = Vec::new();
        fields.push(member("message", Json::Text(self.error.message.clone())));
        fields.push(member("trace", encode_trace(&self.error.trace)));
        fields.push(member("stdout", encode_octets(&self.stdout)));
        fields.push(member("stderr", encode_octets(&self.stderr)));
        assert(fields_view(fields@) =~= failure_json(*self)->Object_0);
        object(fields)
    }
}

impl GlyphMapping {
    /// Encodes the mapping for the wire.
    pub fn to_json(&self) -> (r: Json)
        ensures
            r@ == glyph_json(*self),
    {
        let mut fields: Vec<Field> = Vec::new();
        fields.push(member("span_from", self.span_from.to_json()));
        fields.push(member("span_to", self.span_to.to_json()));
        assert(fields_view(fields@) =~= glyph_json(*self)->Object_0);
        object(fields)
    }
}

impl FormatOutputStruct {
    /// Encodes the formatted code for the wire.
    pub fn to_json(&self) -> (r: Json)
        ensures
            r@ == format_output_json(*self),
    {
        let mut items: Vec<Json> = Vec::new();
        let mut i: usize = 0;
        while i < self.glyph_map.len()
            invariant
                i <= self.glyph_map@.len(),
                items@.len() == i,
                forall|k: int|
                    0 <= k < i ==> (#[trigger] items@[k])@ == glyph_json(self.glyph_map@[k]),
            decreases self.glyph_map@.len() - i,
        {
            items.push(self.glyph_map[i].to_json());
            i += 1;
        }
        assert(items_view(items@) =~= format_output_json(*self)->Object_0[1].value->Array_0);
        let mut fields: Vec<Field> = Vec::new();
        fields.push(member("output", Json::Text(self.output.clone())));
        fields.push(member("glyph_map", array(items)));
        assert(fields_view(fields@) =~= format_output_json(*self)->Object_0);
        object(fields)
    }
}

/// Encodes diagnostics for the wire, in their order.
pub fn encode_diagnostics(list: &Vec<UiuaDiagnostic>) -> (r: Json)
    ensures
        r@ == diagnostics_json(list@),
{
    let mut items: Vec<Json> = Vec::new();
    let mut i: usize = 0;
    while i < list.len()
        invariant
            i <= list@.len(),
            items@.len() == i,
            forall|k: int| 0 <= k < i ==> (#[trigger] items@[k])@ == diagnostic_json(list@[k]),
        decreases list@.len() - i,
    {
        items.push(list[i].to_json());
        i += 1;
    }
    assert(items_view(items@) =~= diagnostics_json(list@)->Array_0);
    array(items)
}

} // verus!
