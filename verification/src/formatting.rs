use uiua::CodeSpan;
use vstd::prelude::*;

verus! {

#[verifier::external_type_specification]
#[verifier::external_body]
pub struct ExCodeSpan(uiua::CodeSpan);

/// The formatter's options as the host gives them: an unset option leaves
/// the formatter's own default in force.
#[derive(Clone, Copy, Debug, PartialEq, Eq, Structural)]
pub struct FormatConfigStruct {
    pub trailing_newline: Option<bool>,
    pub comment_space_after_hash: Option<bool>,
    pub multiline_indent: Option<i32>,
    pub align_comments: Option<bool>,
    pub indent_item_imports: Option<bool>,
}

impl FormatConfigStruct {
    /// No option set.
    pub fn new() -> (r: Self)
        ensures
            r == (FormatConfigStruct {
                trailing_newline: None,
                comment_space_after_hash: None,
                multiline_indent: None,
                align_comments: None,
                indent_item_imports: None,
            }),
    {
        FormatConfigStruct {
            trailing_newline: None,
            comment_space_after_hash: None,
            multiline_indent: None,
            align_comments: None,
            indent_item_imports: None,
        }
    }

    pub fn with_trailing_newline(self, trailing_newline: bool) -> (r: Self)
        ensures
            r == (FormatConfigStruct { trailing_newline: Some(trailing_newline), ..self }),
    {
        FormatConfigStruct { trailing_newline: Some(trailing_newline), ..self }
    }

    pub fn with_comment_space_after_hash(self, comment_space_after_hash: bool) -> (r: Self)
        ensures
            r == (FormatConfigStruct {
                comment_space_after_hash: Some(comment_space_after_hash),
                ..self
            }),
    {
        FormatConfigStruct { comment_space_after_hash: Some(comment_space_after_hash), ..self }
    }

    pub fn with_multiline_indent(self, multiline_indent: i32) -> (r: Self)
        ensures
            r == (FormatConfigStruct { multiline_indent: Some(multiline_indent), ..self }),
    {
        FormatConfigStruct { multiline_indent: Some(multiline_indent), ..self }
    }

    pub fn with_align_comments(self, align_comments: bool) -> (r: Self)
        ensures
            r == (FormatConfigStruct { align_comments: Some(align_comments), ..self }),
    {
        FormatConfigStruct { align_comments: Some(align_comments), ..self }
    }

    pub fn with_indent_item_imports(self, indent_item_imports: bool) -> (r: Self)
        ensures
            r == (FormatConfigStruct { indent_item_imports: Some(indent_item_imports), ..self }),
    {
        FormatConfigStruct { indent_item_imports: Some(indent_item_imports), ..self }
    }
}

impl Default for FormatConfigStruct {
    fn default() -> (r: Self)
        ensures
            r == (FormatConfigStruct {
                trailing_newline: None,
                comment_space_after_hash: None,
                multiline_indent: None,
                align_comments: None,
                indent_item_imports: None,
            }),
    {
        FormatConfigStruct::new()
    }
}

/// A place in a document.
#[derive(Clone, Copy, Debug, PartialEq, Eq, Structural)]
pub struct DocumentLocation {
    pub line: u16,
    pub column: u16,
}

impl DocumentLocation {
    /// The place `line` lines further down.
    pub fn add_line(&self, line: u16) -> (r: Self)
        requires
            self.line + line <= u16::MAX,
        ensures
            r.line == self.line + line,
            r.column == self.column,
    {
        DocumentLocation { line: self.line + line, column: self.column }
    }

    /// The place one column to the left.
    pub fn decrement_column(&self) -> (r: Self)
        requires
            self.column >= 1,
        ensures
            r.line == self.line,
            r.column == self.column - 1,
    {
        DocumentLocation { line: self.line, column: self.column - 1 }
    }
}

/// Where a stretch of code comes from.
#[derive(Debug)]
pub enum UiuaInputSource {
    String(usize),
    File(String),
    Macro(Box<DocumentSpan>),
    Builtin,
}

/// A stretch of a document: its source and its two ends.
#[derive(Debug)]
pub struct DocumentSpan {
    pub src: UiuaInputSource,
    pub from: DocumentLocation,
    pub to: DocumentLocation,
}

impl Clone for UiuaInputSource {
    fn clone(&self) -> (r: Self)
        ensures
            r == *self,
        decreases self,
    {
        match self {
            UiuaInputSource::String(id) => UiuaInputSource::String(*id),
            UiuaInputSource::File(path) => UiuaInputSource::File(path.clone()),
            UiuaInputSource::Macro(span) => UiuaInputSource::Macro(
                Box::new(
                    DocumentSpan { src: span.src.clone(), from: span.from, to: span.to },
                ),
            ),
            UiuaInputSource::Builtin => UiuaInputSource::Builtin,
        }
    }
}

impl Clone for DocumentSpan {
    fn clone(&self) -> (r: Self)
        ensures
            r == *self,
    {
        DocumentSpan { src: self.src.clone(), from: self.from, to: self.to }
    }
}

impl DocumentSpan {
    /// The span of the interpreter's own code: no source, both ends at 0:0.
    pub fn builtin() -> (r: Self)
        ensures
            r == (DocumentSpan {
                src: UiuaInputSource::Builtin,
                from: DocumentLocation { line: 0, column: 0 },
                to: DocumentLocation { line: 0, column: 0 },
            }),
    {
        DocumentSpan {
            src: UiuaInputSource::Builtin,
            from: DocumentLocation { line: 0, column: 0 },
            to: DocumentLocation { line: 0, column: 0 },
        }
    }

    /// The same span with both ends one column to the left.
    pub fn fix_column(&self) -> (r: Self)
        requires
            self.from.column >= 1,
            self.to.column >= 1,
        ensures
            r.src == self.src,
            r.from == (DocumentLocation { line: self.from.line, column: (self.from.column - 1) as u16 }),
            r.to == (DocumentLocation { line: self.to.line, column: (self.to.column - 1) as u16 }),
    {
        DocumentSpan {
            src: self.src.clone(),
            from: self.from.decrement_column(),
            to: self.to.decrement_column(),
        }
    }
}

/// The document span that a span of the interpreter stands for: its source
/// (for a macro, the span that the macro's code stands for), and the line
/// and column of its two ends.
pub uninterp spec fn code_span_model(c: CodeSpan) -> DocumentSpan;

/// The source of one span of the interpreter, a macro's own span still as
/// the interpreter has it.
pub enum RawSource {
    Str(usize),
    File(String),
    Macro(CodeSpan),
}

/// One span of the interpreter, taken apart.
pub struct RawSpan {
    pub src: RawSource,
    pub start: DocumentLocation,
    pub end: DocumentLocation,
}

/// Takes a span of the interpreter apart, reading the fields of
/// `uiua::CodeSpan`, `uiua::InputSrc` and `uiua::Loc`: the line and column
/// of both ends, and the source, which is a text's number, a file's path as
/// text, or the span of a macro.
#[verifier::external_body]
fn peel_code_span(c: &CodeSpan) -> (r: RawSpan)
    ensures
        code_span_model(*c).from == r.start,
        code_span_model(*c).to == r.end,
        match r.src {
            RawSource::Str(id) => code_span_model(*c).src == UiuaInputSource::String(id),
            RawSource::File(path) => code_span_model(*c).src == UiuaInputSource::File(path),
            RawSource::Macro(inner) => code_span_model(*c).src == UiuaInputSource::Macro(
                Box::new(code_span_model(inner)),
            ),
        },
{
    RawSpan {
        src: match &c.src {
            uiua::InputSrc::Str(id) => RawSource::Str(*id),
            uiua::InputSrc::File(path) => RawSource::File(path.to_string_lossy().to_string()),
            uiua::InputSrc::Macro(inner) => RawSource::Macro((**inner).clone()),
        },
        start: DocumentLocation { line: c.start.line, column: c.start.col },
        end: DocumentLocation { line: c.end.line, column: c.end.col },
    }
}

impl DocumentSpan {
    /// The document span that a span of the interpreter stands for.
    pub fn from_code_span(c: &CodeSpan) -> (r: Self)
        ensures
            r == code_span_model(*c),
        decreases code_span_model(*c),
    {
        let raw = peel_code_span(c);
        let src = match raw.src {
            RawSource::Str(id) => UiuaInputSource::String(id),
            RawSource::File(path) => UiuaInputSource::File(path),
            RawSource::Macro(inner) => {
                assert(code_span_model(*c).src->Macro_0 == code_span_model(inner));
                UiuaInputSource::Macro(Box::new(DocumentSpan::from_code_span(&inner)))
            },
        };
        DocumentSpan { src, from: raw.start, to: raw.end }
    }
}

/// One glyph of formatted code: where it came from and where it went.
#[derive(Debug)]
pub struct GlyphMapping {
    pub span_from: DocumentSpan,
    pub span_to: DocumentSpan,
}

/// Whether the formatter's places for one glyph can be turned into document
/// places: the columns of the origin can move left, the lines of the target
/// can move down.
pub open spec fn glyph_in_range(
    span: DocumentSpan,
    from: DocumentLocation,
    to: DocumentLocation,
) -> bool {
    &&& span.from.column >= 1
    &&& span.to.column >= 1
    &&& from.line < u16::MAX
    &&& to.line < u16::MAX
}

/// The mapping for one glyph: the origin one column to the left, the target
/// one line further down, in the origin's source.
pub open spec fn glyph_mapping(
    span: DocumentSpan,
    from: DocumentLocation,
    to: DocumentLocation,
) -> GlyphMapping {
    GlyphMapping {
        span_from: DocumentSpan {
            src: span.src,
            from: DocumentLocation { line: span.from.line, column: (span.from.column - 1) as u16 },
            to: DocumentLocation { line: span.to.line, column: (span.to.column - 1) as u16 },
        },
        span_to: DocumentSpan {
            src: span.src,
            from: DocumentLocation { line: (from.line + 1) as u16, column: from.column },
            to: DocumentLocation { line: (to.line + 1) as u16, column: to.column },
        },
    }
}

impl GlyphMapping {
    /// The mapping for one glyph, from the span it came from and the two
    /// ends of where it went.
    pub fn from_parts(span: &DocumentSpan, from: DocumentLocation, to: DocumentLocation) -> (r:
        Self)
        requires
            glyph_in_range(*span, from, to),
        ensures
            r == glyph_mapping(*span, from, to),
    {
        GlyphMapping {
            span_from: span.fix_column(),
            span_to: DocumentSpan { src: span.src.clone(), from: from.add_line(1), to: to.add_line(1) },
        }
    }

    /// Whether [`GlyphMapping::from_parts`] takes these places.
    pub fn in_range(span: &DocumentSpan, from: DocumentLocation, to: DocumentLocation) -> (r: bool)
        ensures
            r == glyph_in_range(*span, from, to),
    {
        span.from.column >= 1 && span.to.column >= 1 && from.line < u16::MAX && to.line < u16::MAX
    }
}

/// Formatted code and, for each glyph, where it came from and where it
/// went.
#[derive(Debug)]
pub struct FormatOutputStruct {
    pub output: String,
    pub glyph_map: Vec<GlyphMapping>,
}

/// Why code was not formatted.
#[derive(Debug)]
pub enum FormatError {
    /// The formatter turned the code down; this is what it said.
    Formatter(String),
    /// The indent asked for is negative.
    NegativeIndent,
    /// A glyph lies at column 0 or in the last line that can be counted.
    LocationOutOfRange,
}

/// The formatter's options, each with a value.
#[derive(Clone, Copy, Debug, PartialEq, Eq, Structural)]
pub struct ResolvedOptions {
    pub trailing_newline: bool,
    pub comment_space_after_hash: bool,
    pub multiline_indent: usize,
    pub align_comments: bool,
    pub indent_item_imports: bool,
}

/// One glyph as the formatter reports it.
pub struct RawGlyph {
    pub span: CodeSpan,
    pub from: DocumentLocation,
    pub to: DocumentLocation,
}

/// What the formatter hands back.
pub struct RawFormat {
    pub output: String,
    pub glyph_map: Vec<RawGlyph>,
}

/// The formatter's own defaults, read from `uiua::format::FormatConfig`'s
/// `default`: every switch on, an indent of two.
#[verifier::external_body]
fn default_options() -> (r: ResolvedOptions)
    ensures
        r == formatter_defaults(),
{
    let d = uiua::format::FormatConfig::default();
    ResolvedOptions {
        trailing_newline: d.trailing_newline,
        comment_space_after_hash: d.comment_space_after_hash,
        multiline_indent: d.multiline_indent,
        align_comments: d.align_comments,
        indent_item_imports: d.indent_item_imports,
    }
}

/// The options in force: each one that is set, and the default for each
/// that is not; none where the indent asked for is negative.
pub open spec fn resolved(config: FormatConfigStruct, defaults: ResolvedOptions) -> Option<
    ResolvedOptions,
> {
    if config.multiline_indent matches Some(n) && n < 0 {
        None
    } else {
        Some(
            ResolvedOptions {
                trailing_newline: match config.trailing_newline {
                    Some(b) => b,
                    None => defaults.trailing_newline,
                },
                comment_space_after_hash: match config.comment_space_after_hash {
                    Some(b) => b,
                    None => defaults.comment_space_after_hash,
                },
                multiline_indent: match config.multiline_indent {
                    Some(n) => n as usize,
                    None => defaults.multiline_indent,
                },
                align_comments: match config.align_comments {
                    Some(b) => b,
                    None => defaults.align_comments,
                },
                indent_item_imports: match config.indent_item_imports {
                    Some(b) => b,
                    None => defaults.indent_item_imports,
                },
            },
        )
    }
}

/// The options in force for a configuration.
pub fn resolve_options(config: &FormatConfigStruct, defaults: ResolvedOptions) -> (r: Option<
    ResolvedOptions,
>)
    ensures
        r == resolved(*config, defaults),
{
    let multiline_indent = match config.multiline_indent {
        Some(n) => {
            if n < 0 {
                return None;
            }
            n as usize
        },
        None => defaults.multiline_indent,
    };
    Some(
        ResolvedOptions {
            trailing_newline: match config.trailing_newline {
                Some(b) => b,
                None => defaults.trailing_newline,
            },
            comment_space_after_hash: match config.comment_space_after_hash {
                Some(b) => b,
                None => defaults.comment_space_after_hash,
            },
            multiline_indent,
            align_comments: match config.align_comments {
                Some(b) => b,
                None => defaults.align_comments,
            },
            indent_item_imports: match config.indent_item_imports {
                Some(b) => b,
                None => defaults.indent_item_imports,
            },
        },
    )
}

/// Runs the interpreter's formatter, `uiua::format::format_str`, on a text
/// with the given options set on `uiua::format::FormatConfig`. The formatter
/// runs the text where it holds output comments, so what comes back is the
/// formatter's to say.
#[verifier::external_body]
fn run_formatter(code: &str, options: ResolvedOptions) -> (r: Result<RawFormat, String>) {
    let config = uiua::format::FormatConfig::default()
        .with_trailing_newline(options.trailing_newline)
        .with_comment_space_after_hash(options.comment_space_after_hash)
        .with_multiline_indent(options.multiline_indent)
        .with_align_comments(options.align_comments)
        .with_indent_item_imports(options.indent_item_imports);
    let out = uiua::format::format_str(code, &config).map_err(|e| e.to_string())?;
    let glyph = |(span, (from, to)): (CodeSpan, (uiua::Loc, uiua::Loc))| RawGlyph {
        span,
        from: DocumentLocation { line: from.line, column: from.col },
        to: DocumentLocation { line: to.line, column: to.col },
    };
    Ok(RawFormat { output: out.output, glyph_map: out.glyph_map.into_iter().map(glyph).collect() })
}

/// Whether every glyph that the formatter reported can be mapped.
pub open spec fn glyphs_in_range(glyphs: Seq<RawGlyph>) -> bool {
    forall|i: int|
        0 <= i < glyphs.len() ==> glyph_in_range(
            code_span_model((#[trigger] glyphs[i]).span),
            glyphs[i].from,
            glyphs[i].to,
        )
}

/// The mappings for the glyphs that the formatter reported, in order.
pub open spec fn glyph_mappings(glyphs: Seq<RawGlyph>) -> Seq<GlyphMapping> {
    Seq::new(
        glyphs.len(),
        |i: int| glyph_mapping(code_span_model(glyphs[i].span), glyphs[i].from, glyphs[i].to),
    )
}

impl FormatOutputStruct {
    /// What the host gets for what the formatter handed back: the text
    /// with each glyph's mapping, unless a glyph cannot be mapped.
    pub fn from_raw(raw: RawFormat) -> (r: Result<FormatOutputStruct, FormatError>)
        ensures
            match r {
                Ok(out) => glyphs_in_range(raw.glyph_map@) && out.output == raw.output
                    && out.glyph_map@ == glyph_mappings(raw.glyph_map@),
                Err(e) => e is LocationOutOfRange && !glyphs_in_range(raw.glyph_map@),
            },
    {
        let mut glyph_map: Vec<GlyphMapping> = Vec::new();
        let mut i: usize = 0;
        while i < raw.glyph_map.len()
            invariant
                i <= raw.glyph_map@.len(),
                glyph_map@.len() == i,
                forall|k: int|
                    0 <= k < i ==> glyph_in_range(
                        code_span_model((#[trigger] raw.glyph_map@[k]).span),
                        raw.glyph_map@[k].from,
                        raw.glyph_map@[k].to,
                    ),
                forall|k: int|
                    0 <= k < i ==> #[trigger] glyph_map@[k] == glyph_mapping(
                        code_span_model(raw.glyph_map@[k].span),
                        raw.glyph_map@[k].from,
                        raw.glyph_map@[k].to,
                    ),
            decreases raw.glyph_map@.len() - i,
        {
            let glyph = &raw.glyph_map[i];
            let span = DocumentSpan::from_code_span(&glyph.span);
            if !GlyphMapping::in_range(&span, glyph.from, glyph.to) {
                return Err(FormatError::LocationOutOfRange);
            }
            glyph_map.push(GlyphMapping::from_parts(&span, glyph.from, glyph.to));
            i += 1;
        }
        assert(glyph_map@ =~= glyph_mappings(raw.glyph_map@));
        Ok(FormatOutputStruct { output: raw.output, glyph_map })
    }
}

/// The formatter's own defaults: every switch on, an indent of two.
pub open spec fn formatter_defaults() -> ResolvedOptions {
    ResolvedOptions {
        trailing_newline: true,
        comment_space_after_hash: true,
        multiline_indent: 2,
        align_comments: true,
        indent_item_imports: true,
    }
}

/// What the host gets for what the formatter said: its complaint as it is,
/// or the text with each glyph's mapping, unless a glyph cannot be mapped.
pub fn finish_format(formatted: Result<RawFormat, String>) -> (r: Result<
    FormatOutputStruct,
    FormatError,
>)
    ensures
        match formatted {
            Err(said) => r matches Err(FormatError::Formatter(text)) && text == said,
            Ok(raw) => match r {
                Ok(out) => glyphs_in_range(raw.glyph_map@) && out.output == raw.output
                    && out.glyph_map@ == glyph_mappings(raw.glyph_map@),
                Err(e) => e is LocationOutOfRange && !glyphs_in_range(raw.glyph_map@),
            },
        },
{
    match formatted {
        Ok(raw) => FormatOutputStruct::from_raw(raw),
        Err(said) => Err(FormatError::Formatter(said)),
    }
}

/// Formats code under options that all have a value.
pub fn format_resolved(code: &str, options: ResolvedOptions) -> (r: Result<
    FormatOutputStruct,
    FormatError,
>)
    ensures
        !(r matches Err(FormatError::NegativeIndent)),
{
    finish_format(run_formatter(code, options))
}

/// Formats code under the host's options. An unset option leaves the
/// formatter's default in force; a negative indent is turned down before
/// the formatter is asked, and nothing else is.
pub fn format_internal(code: String, config: FormatConfigStruct) -> (r: Result<
    FormatOutputStruct,
    FormatError,
>)
    ensures
        r matches Err(FormatError::NegativeIndent) <==> resolved(config, formatter_defaults())
            is None,
{
    match resolve_options(&config, default_options()) {
        Some(options) => format_resolved(code.as_str(), options),
        None => Err(FormatError::NegativeIndent),
    }
}

} // verus!
