use uiua_bridge::formatting::{
    format_internal, DocumentLocation, DocumentSpan, FormatConfigStruct, FormatError,
    GlyphMapping, ResolvedOptions, UiuaInputSource, resolve_options,
};

fn defaults() -> ResolvedOptions {
    ResolvedOptions {
        trailing_newline: true,
        comment_space_after_hash: true,
        multiline_indent: 2,
        align_comments: true,
        indent_item_imports: true,
    }
}

#[test]
fn unset_options_leave_the_defaults() {
    let options = resolve_options(&FormatConfigStruct::new(), defaults()).unwrap();
    assert_eq!(options, defaults());
}

#[test]
fn set_options_override_the_defaults() {
    let config = FormatConfigStruct::new()
        .with_trailing_newline(false)
        .with_comment_space_after_hash(false)
        .with_multiline_indent(4)
        .with_align_comments(false)
        .with_indent_item_imports(false);
    let options = resolve_options(&config, defaults()).unwrap();
    assert_eq!(
        options,
        ResolvedOptions {
            trailing_newline: false,
            comment_space_after_hash: false,
            multiline_indent: 4,
            align_comments: false,
            indent_item_imports: false,
        }
    );
}

#[test]
fn negative_indent_is_rejected() {
    let config = FormatConfigStruct::new().with_multiline_indent(-1);
    assert!(resolve_options(&config, defaults()).is_none());
    let result = format_internal("+ 1 2".to_string(), config);
    assert!(matches!(result, Err(FormatError::NegativeIndent)));
}

#[test]
fn locations_move_by_line_and_column() {
    let place = DocumentLocation { line: 3, column: 7 };
    assert_eq!(place.add_line(2), DocumentLocation { line: 5, column: 7 });
    assert_eq!(place.decrement_column(), DocumentLocation { line: 3, column: 6 });
}

#[test]
fn glyph_mapping_shifts_origin_left_and_target_down() {
    let span = DocumentSpan {
        src: UiuaInputSource::String(0),
        from: DocumentLocation { line: 1, column: 1 },
        to: DocumentLocation { line: 1, column: 4 },
    };
    let from = DocumentLocation { line: 0, column: 0 };
    let to = DocumentLocation { line: 0, column: 1 };
    assert!(GlyphMapping::in_range(&span, from, to));
    let mapping = GlyphMapping::from_parts(&span, from, to);
    assert_eq!(mapping.span_from.from, DocumentLocation { line: 1, column: 0 });
    assert_eq!(mapping.span_from.to, DocumentLocation { line: 1, column: 3 });
    assert_eq!(mapping.span_to.from, DocumentLocation { line: 1, column: 0 });
    assert_eq!(mapping.span_to.to, DocumentLocation { line: 1, column: 1 });
    assert!(matches!(mapping.span_from.src, UiuaInputSource::String(0)));
    assert!(matches!(mapping.span_to.src, UiuaInputSource::String(0)));
}

#[test]
fn glyph_at_column_zero_is_out_of_range() {
    let span = DocumentSpan {
        src: UiuaInputSource::String(0),
        from: DocumentLocation { line: 1, column: 0 },
        to: DocumentLocation { line: 1, column: 4 },
    };
    let place = DocumentLocation { line: 0, column: 0 };
    assert!(!GlyphMapping::in_range(&span, place, place));
    let last = DocumentLocation { line: u16::MAX, column: 0 };
    let fine = DocumentSpan { from: DocumentLocation { line: 1, column: 1 }, ..span };
    assert!(!GlyphMapping::in_range(&fine, last, place));
}

#[test]
fn formatter_replaces_names_by_glyphs() {
    let out = format_internal("add 1 2".to_string(), FormatConfigStruct::new()).unwrap();
    assert_eq!(out.output, "+ 1 2\n");
    assert!(!out.glyph_map.is_empty());
    let first = &out.glyph_map[0];
    assert!(matches!(first.span_from.src, UiuaInputSource::String(_)));
    assert_eq!(first.span_from.from, DocumentLocation { line: 1, column: 0 });
    assert_eq!(first.span_to.from.line, 1);
}

#[test]
fn formatter_honours_the_trailing_newline_option() {
    let config = FormatConfigStruct::new().with_trailing_newline(false);
    let out = format_internal("add 1 2".to_string(), config).unwrap();
    assert_eq!(out.output, "+ 1 2");
}

#[test]
fn formatter_turns_down_code_that_does_not_parse() {
    let result = format_internal("(".to_string(), FormatConfigStruct::new());
    match result {
        Err(FormatError::Formatter(said)) => assert!(!said.is_empty()),
        other => panic!("unexpected result: {:?}", other),
    }
}

fn place(line: u16, col: u16) -> uiua::Loc {
    uiua::Loc { line, col, byte_pos: 0, char_pos: 0 }
}

fn code_span(src: uiua::InputSrc, from: (u16, u16), to: (u16, u16)) -> uiua::CodeSpan {
    uiua::CodeSpan { src, start: place(from.0, from.1), end: place(to.0, to.1) }
}

#[test]
fn code_span_of_a_text_keeps_its_number_and_ends() {
    let span = DocumentSpan::from_code_span(&code_span(uiua::InputSrc::Str(4), (1, 2), (3, 4)));
    assert!(matches!(span.src, UiuaInputSource::String(4)));
    assert_eq!(span.from, DocumentLocation { line: 1, column: 2 });
    assert_eq!(span.to, DocumentLocation { line: 3, column: 4 });
}

#[test]
fn code_span_of_a_file_keeps_its_path() {
    let path: std::sync::Arc<std::path::Path> = std::path::Path::new("lib/main.ua").into();
    let span = DocumentSpan::from_code_span(&code_span(uiua::InputSrc::File(path), (1, 1), (1, 2)));
    assert!(matches!(&span.src, UiuaInputSource::File(p) if p == "lib/main.ua"));
}

#[test]
fn code_span_of_a_macro_holds_the_macro_span() {
    let inner = code_span(uiua::InputSrc::Str(1), (5, 6), (7, 8));
    let outer = code_span(uiua::InputSrc::Macro(Box::new(inner)), (1, 1), (1, 2));
    let span = DocumentSpan::from_code_span(&outer);
    assert_eq!(span.from, DocumentLocation { line: 1, column: 1 });
    match span.src {
        UiuaInputSource::Macro(inner) => {
            assert!(matches!(inner.src, UiuaInputSource::String(1)));
            assert_eq!(inner.from, DocumentLocation { line: 5, column: 6 });
            assert_eq!(inner.to, DocumentLocation { line: 7, column: 8 });
        }
        other => panic!("unexpected source: {:?}", other),
    }
}

#[test]
fn glyph_that_cannot_be_mapped_fails_the_whole_output() {
    let good = uiua_bridge::formatting::RawGlyph {
        span: code_span(uiua::InputSrc::Str(0), (1, 1), (1, 2)),
        from: DocumentLocation { line: 0, column: 0 },
        to: DocumentLocation { line: 0, column: 1 },
    };
    let bad = uiua_bridge::formatting::RawGlyph {
        span: code_span(uiua::InputSrc::Str(0), (1, 0), (1, 2)),
        from: DocumentLocation { line: 0, column: 0 },
        to: DocumentLocation { line: 0, column: 1 },
    };
    let raw = uiua_bridge::formatting::RawFormat { output: "x".to_string(), glyph_map: vec![good, bad] };
    let result = uiua_bridge::formatting::FormatOutputStruct::from_raw(raw);
    assert!(matches!(result, Err(FormatError::LocationOutOfRange)));
}

#[test]
fn glyphs_that_can_be_mapped_all_come_out() {
    let glyph = |col: u16| uiua_bridge::formatting::RawGlyph {
        span: code_span(uiua::InputSrc::Str(0), (1, col), (1, col + 1)),
        from: DocumentLocation { line: 0, column: col - 1 },
        to: DocumentLocation { line: 0, column: col },
    };
    let raw = uiua_bridge::formatting::RawFormat {
        output: "xy".to_string(),
        glyph_map: vec![glyph(1), glyph(2)],
    };
    let out = uiua_bridge::formatting::FormatOutputStruct::from_raw(raw).unwrap();
    assert_eq!(out.output, "xy");
    assert_eq!(out.glyph_map.len(), 2);
    assert_eq!(out.glyph_map[1].span_from.from, DocumentLocation { line: 1, column: 1 });
    assert_eq!(out.glyph_map[1].span_from.to, DocumentLocation { line: 1, column: 2 });
    assert_eq!(out.glyph_map[1].span_to.from, DocumentLocation { line: 1, column: 1 });
    assert_eq!(out.glyph_map[1].span_to.to, DocumentLocation { line: 1, column: 2 });
}

#[test]
fn unset_options_format_like_the_defaults_spelled_out() {
    let code = "F ← (\n+ 1 # one\n× 2 # two\n)\n[1 2\n 3 4]";
    let spelled = FormatConfigStruct::new()
        .with_trailing_newline(true)
        .with_comment_space_after_hash(true)
        .with_multiline_indent(2)
        .with_align_comments(true)
        .with_indent_item_imports(true);
    let plain = format_internal(code.to_string(), FormatConfigStruct::new()).unwrap();
    let same = format_internal(code.to_string(), spelled).unwrap();
    assert_eq!(plain.output, same.output);
    let wider = format_internal(code.to_string(), FormatConfigStruct::new().with_multiline_indent(6)).unwrap();
    assert_ne!(plain.output, wider.output);
    assert!(plain.output.contains("\n  + 1"));
    assert!(wider.output.contains("\n      + 1"));
}

#[test]
fn formatter_complaint_is_handed_on_as_it_is() {
    let result = uiua_bridge::formatting::finish_format(Err("no good".to_string()));
    assert!(matches!(result, Err(FormatError::Formatter(said)) if said == "no good"));
}

#[test]
fn resolved_options_are_never_turned_down_for_their_indent() {
    let result = uiua_bridge::formatting::format_resolved("add 1 2", defaults());
    assert_eq!(result.unwrap().output, "+ 1 2\n");
}
