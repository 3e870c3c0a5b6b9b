use uiua_bridge::formatting::{
    DocumentLocation, DocumentSpan, FormatOutputStruct, GlyphMapping, UiuaInputSource,
};
use uiua_bridge::json::{Json, JsonNumber};
use uiua_bridge::report::{SimplifiedUiuaError, UiuaDiagnostic, UiuaDiagnosticKind, UiuaTraceFrame};
use uiua_bridge::runtime::UiuaExecutionFailure;
use uiua_bridge::wire::{encode_diagnostics, encode_octets};

fn names(object: &Json) -> Vec<&str> {
    match object {
        Json::Object(fields) => fields.iter().map(|f| f.name.as_str()).collect(),
        other => panic!("not an object: {:?}", other),
    }
}

fn get<'a>(object: &'a Json, name: &str) -> &'a Json {
    match object {
        Json::Object(fields) => &fields.iter().find(|f| f.name == name).unwrap().value,
        other => panic!("not an object: {:?}", other),
    }
}

fn number(json: &Json) -> u64 {
    match json {
        Json::Number(JsonNumber::Unsigned(n)) => *n,
        other => panic!("not a count: {:?}", other),
    }
}

fn text(json: &Json) -> &str {
    match json {
        Json::Text(t) => t.as_str(),
        other => panic!("not a text: {:?}", other),
    }
}

fn span(src: UiuaInputSource) -> DocumentSpan {
    DocumentSpan {
        src,
        from: DocumentLocation { line: 1, column: 2 },
        to: DocumentLocation { line: 3, column: 4 },
    }
}

#[test]
fn location_has_line_and_column() {
    let wire = DocumentLocation { line: 7, column: 9 }.to_json();
    assert_eq!(names(&wire), vec!["line", "column"]);
    assert_eq!(number(get(&wire, "line")), 7);
    assert_eq!(number(get(&wire, "column")), 9);
}

#[test]
fn sources_are_tagged_by_type() {
    let wire = UiuaInputSource::String(3).to_json();
    assert_eq!(names(&wire), vec!["type", "id"]);
    assert_eq!(text(get(&wire, "type")), "string");
    assert_eq!(number(get(&wire, "id")), 3);

    let wire = UiuaInputSource::File("a/b.ua".to_string()).to_json();
    assert_eq!(names(&wire), vec!["type", "path"]);
    assert_eq!(text(get(&wire, "type")), "file");
    assert_eq!(text(get(&wire, "path")), "a/b.ua");

    let wire = UiuaInputSource::Macro(Box::new(span(UiuaInputSource::String(0)))).to_json();
    assert_eq!(names(&wire), vec!["type", "span"]);
    assert_eq!(text(get(&wire, "type")), "macro");
    assert_eq!(text(get(get(get(&wire, "span"), "src"), "type")), "string");

    let wire = UiuaInputSource::Builtin.to_json();
    assert_eq!(names(&wire), vec!["type"]);
    assert_eq!(text(get(&wire, "type")), "builtin");
}

#[test]
fn span_has_source_and_both_ends() {
    let wire = span(UiuaInputSource::Builtin).to_json();
    assert_eq!(names(&wire), vec!["src", "from", "to"]);
    assert_eq!(number(get(get(&wire, "from"), "line")), 1);
    assert_eq!(number(get(get(&wire, "from"), "column")), 2);
    assert_eq!(number(get(get(&wire, "to"), "line")), 3);
    assert_eq!(number(get(get(&wire, "to"), "column")), 4);
}

#[test]
fn diagnostic_kinds_have_their_names() {
    assert_eq!(UiuaDiagnosticKind::Info.name(), "info");
    assert_eq!(UiuaDiagnosticKind::Style.name(), "style");
    assert_eq!(UiuaDiagnosticKind::Advice.name(), "advice");
    assert_eq!(UiuaDiagnosticKind::Warning.name(), "warning");
}

#[test]
fn diagnostics_travel_with_message_span_and_kind() {
    let list = vec![
        UiuaDiagnostic {
            message: "first".to_string(),
            span: span(UiuaInputSource::String(0)),
            kind: UiuaDiagnosticKind::Warning,
        },
        UiuaDiagnostic {
            message: "second".to_string(),
            span: span(UiuaInputSource::Builtin),
            kind: UiuaDiagnosticKind::Style,
        },
    ];
    let Json::Array(items) = encode_diagnostics(&list) else { panic!("not an array") };
    assert_eq!(items.len(), 2);
    assert_eq!(names(&items[0]), vec!["message", "span", "kind"]);
    assert_eq!(text(get(&items[0], "message")), "first");
    assert_eq!(text(get(&items[0], "kind")), "warning");
    assert_eq!(text(get(&items[1], "message")), "second");
    assert_eq!(text(get(&items[1], "kind")), "style");
    assert_eq!(text(get(get(get(&items[1], "span"), "src"), "type")), "builtin");
}

fn sample_error() -> SimplifiedUiuaError {
    SimplifiedUiuaError {
        message: "boom".to_string(),
        trace: vec![
            UiuaTraceFrame { line: "in F at 1:2".to_string(), span: span(UiuaInputSource::String(0)) },
            UiuaTraceFrame { line: "<omitted>".to_string(), span: span(UiuaInputSource::Builtin) },
        ],
    }
}

#[test]
fn error_travels_with_message_and_trace_in_order() {
    let wire = sample_error().to_json();
    assert_eq!(names(&wire), vec!["message", "trace"]);
    assert_eq!(text(get(&wire, "message")), "boom");
    let Json::Array(frames) = get(&wire, "trace") else { panic!("not an array") };
    assert_eq!(frames.len(), 2);
    assert_eq!(names(&frames[0]), vec!["line", "span"]);
    assert_eq!(text(get(&frames[0], "line")), "in F at 1:2");
    assert_eq!(text(get(&frames[1], "line")), "<omitted>");
}

#[test]
fn failure_travels_with_what_was_captured() {
    let failure = UiuaExecutionFailure {
        error: sample_error(),
        stdout: b"hi".to_vec(),
        stderr: Vec::new(),
    };
    let wire = failure.to_json();
    assert_eq!(names(&wire), vec!["message", "trace", "stdout", "stderr"]);
    assert_eq!(text(get(&wire, "message")), "boom");
    let Json::Array(out) = get(&wire, "stdout") else { panic!("not an array") };
    let bytes: Vec<u64> = out.iter().map(number).collect();
    assert_eq!(bytes, vec![104, 105]);
    assert!(matches!(get(&wire, "stderr"), Json::Array(items) if items.is_empty()));
}

#[test]
fn octets_are_an_array_of_numbers() {
    let Json::Array(items) = encode_octets(&vec![0, 127, 255]) else { panic!("not an array") };
    let bytes: Vec<u64> = items.iter().map(number).collect();
    assert_eq!(bytes, vec![0, 127, 255]);
}

#[test]
fn formatted_code_travels_with_its_glyph_map() {
    let out = FormatOutputStruct {
        output: "+ 1 2".to_string(),
        glyph_map: vec![GlyphMapping {
            span_from: span(UiuaInputSource::String(0)),
            span_to: span(UiuaInputSource::String(0)),
        }],
    };
    let wire = out.to_json();
    assert_eq!(names(&wire), vec!["output", "glyph_map"]);
    assert_eq!(text(get(&wire, "output")), "+ 1 2");
    let Json::Array(glyphs) = get(&wire, "glyph_map") else { panic!("not an array") };
    assert_eq!(glyphs.len(), 1);
    assert_eq!(names(&glyphs[0]), vec!["span_from", "span_to"]);
    assert_eq!(number(get(get(get(&glyphs[0], "span_to"), "to"), "column")), 4);
}
