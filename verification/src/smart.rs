use crate::codec::{encode, encode_spec, label_json};
use crate::json::{fields_view, lemma_object_view, Field, FieldView, Json, JsonView};
use crate::native::{from_native, native_model};
use crate::value::{label_view, Tagged, UiuaValue};
use crate::wire::{encode_octets, octets_json};
use uiua::Value;
use vstd::prelude::*;
use vstd::string::StringExecFns;

verus! {

/// A result value as the host is to show it: plain, or as media.
#[derive(Debug)]
pub enum UiuaSmartOutput {
    Png(Vec<u8>, Option<String>),
    Gif(Vec<u8>, Option<String>),
    Wav(Vec<u8>, Option<String>),
    Normal(UiuaValue),
}

/// The interpreter's classification of a value, a plain value still as the
/// interpreter has it.
pub enum RawSmartOutput {
    Png(Vec<u8>, Option<String>),
    Gif(Vec<u8>, Option<String>),
    Wav(Vec<u8>, Option<String>),
    Normal(Value),
}

/// The mathematical model of a [`UiuaSmartOutput`].
pub enum SmartView {
    Png(Seq<u8>, Option<Seq<char>>),
    Gif(Seq<u8>, Option<Seq<char>>),
    Wav(Seq<u8>, Option<Seq<char>>),
    Normal(Tagged),
}

impl View for UiuaSmartOutput {
    type V = SmartView;

    open spec fn view(&self) -> SmartView {
        match self {
            UiuaSmartOutput::Png(bytes, label) => SmartView::Png(bytes@, label_view(*label)),
            UiuaSmartOutput::Gif(bytes, label) => SmartView::Gif(bytes@, label_view(*label)),
            UiuaSmartOutput::Wav(bytes, label) => SmartView::Wav(bytes@, label_view(*label)),
            UiuaSmartOutput::Normal(value) => SmartView::Normal(value@),
        }
    }
}

impl RawSmartOutput {
    /// The classification with a plain value as the model of what it holds.
    pub open spec fn model(self) -> SmartView {
        match self {
            RawSmartOutput::Png(bytes, label) => SmartView::Png(bytes@, label_view(label)),
            RawSmartOutput::Gif(bytes, label) => SmartView::Gif(bytes@, label_view(label)),
            RawSmartOutput::Wav(bytes, label) => SmartView::Wav(bytes@, label_view(label)),
            RawSmartOutput::Normal(value) => SmartView::Normal(native_model(value)),
        }
    }
}

/// How the interpreter classifies a value by its shape and kind: as an
/// image, an animation or a sound with the encoded bytes and the value's
/// label, or as the plain value itself.
pub uninterp spec fn smart_output(value: Value) -> RawSmartOutput;

/// Classifies a value by `uiua::encode::SmartOutput::from_value`, with a
/// `uiua::SafeSys` as its backend, and tells the four variants of the
/// result apart. The result depends on the value alone.
#[verifier::external_body]
fn classify(value: Value) -> (r: RawSmartOutput)
    ensures
        r == smart_output(value),
{
    match uiua::encode::SmartOutput::from_value(value, &uiua::SafeSys::default()) {
        uiua::encode::SmartOutput::Png(bytes, label) => RawSmartOutput::Png(bytes, label),
        uiua::encode::SmartOutput::Gif(bytes, label) => RawSmartOutput::Gif(bytes, label),
        uiua::encode::SmartOutput::Wav(bytes, label) => RawSmartOutput::Wav(bytes, label),
        uiua::encode::SmartOutput::Normal(value) => RawSmartOutput::Normal(value),
    }
}

/// Shows a value as the interpreter prints it, by `uiua::Value::show`. The
/// layout follows the width of the terminal, where there is one.
#[verifier::external_body]
pub fn pretty_format_value(value: &Value) -> (r: String) {
    value.show()
}

impl UiuaSmartOutput {
    /// Re-tags a classification for the host: media as they are, a plain
    /// value as the tagged array value that it holds.
    pub fn from_raw(raw: RawSmartOutput) -> (r: Self)
        ensures
            r@ == raw.model(),
    {
        match raw {
            RawSmartOutput::Png(bytes, label) => UiuaSmartOutput::Png(bytes, label),
            RawSmartOutput::Gif(bytes, label) => UiuaSmartOutput::Gif(bytes, label),
            RawSmartOutput::Wav(bytes, label) => UiuaSmartOutput::Wav(bytes, label),
            RawSmartOutput::Normal(value) => UiuaSmartOutput::Normal(from_native(&value)),
        }
    }
}

/// Classifies a value for showing: an image, animation or sound where the
/// interpreter's rule finds one in its shape and kind, else the plain value.
pub fn to_smart_value(value: Value) -> (r: UiuaSmartOutput)
    ensures
        r@ == smart_output(value).model(),
{
    UiuaSmartOutput::from_raw(classify(value))
}

/// The wire form of media: the members `type`, `data` and `label`.
pub open spec fn media_json(kind: Seq<char>, bytes: Seq<u8>, label: Option<Seq<char>>) -> JsonView {
    JsonView::Object(
        seq![
            FieldView { name: "type"@, value: JsonView::Text(kind) },
            FieldView { name: "data"@, value: octets_json(bytes) },
            FieldView { name: "label"@, value: label_json(label) },
        ],
    )
}

/// The wire form of a smart output: media under `png`, `gif` or `wav`, a
/// plain value under `normal` with its own wire form as the data.
pub open spec fn smart_json(s: SmartView) -> JsonView {
    match s {
        SmartView::Png(bytes, label) => media_json("png"@, bytes, label),
        SmartView::Gif(bytes, label) => media_json("gif"@, bytes, label),
        SmartView::Wav(bytes, label) => media_json("wav"@, bytes, label),
        SmartView::Normal(value) => JsonView::Object(
            seq![
                FieldView { name: "type"@, value: JsonView::Text("normal"@) },
                FieldView { name: "data"@, value: encode_spec(value) },
            ],
        ),
    }
}

/// The wire form of media.
fn encode_media(kind: &str, bytes: &Vec<u8>, label: &Option<String>) -> (r: Json)
    ensures
        r@ == media_json(kind@, bytes@, label_view(*label)),
{
    let label_value = match label {
        Some(text) => Json::Text(text.clone()),
        None => Json::Null,
    };
    let mut fields: Vec<Field> = Vec::new();
    fields.push(Field { name: String::from_str("type"), value: Json::Text(String::from_str(kind)) });
    fields.push(Field { name: String::from_str("data"), value: encode_octets(bytes) });
    fields.push(Field { name: String::from_str("label"), value: label_value });
    proof {
        lemma_object_view(fields);
        assert(fields_view(fields@) =~= media_json(kind@, bytes@, label_view(*label))->Object_0);
    }
    Json::Object(fields)
}

impl UiuaSmartOutput {
    /// Encodes a smart output for the wire.
    pub fn to_json(&self) -> (r: Json)
        ensures
            r@ == smart_json(self@),
    {
        match self {
            UiuaSmartOutput::Png(bytes, label) => encode_media("png", bytes, label),
            UiuaSmartOutput::Gif(bytes, label) => encode_media("gif", bytes, label),
            UiuaSmartOutput::Wav(bytes, label) => encode_media("wav", bytes, label),
            UiuaSmartOutput::Normal(value) => {
                let mut fields: Vec<Field> = Vec::new();
                fields.push(
                    Field {
                        name: String::from_str("type"),
                        value: Json::Text(String::from_str("normal")),
                    },
                );
                fields.push(Field { name: String::from_str("data"), value: encode(value) });
                proof {
                    lemma_object_view(fields);
                    assert(fields_view(fields@) =~= smart_json(self@)->Object_0);
                }
                Json::Object(fields)
            },
        }
    }
}

} // verus!
