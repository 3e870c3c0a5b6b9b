use crate::codec::{encode, encode_spec};
use crate::json::Json;
use crate::value::{
    boxes_view, keys_model, label_view, lemma_box_view, Cells, Tagged, UiuaArray, UiuaValue,
};
use uiua::Value;
use vstd::prelude::*;

verus! {

#[verifier::external_type_specification]
#[verifier::external_body]
pub struct ExValue(uiua::Value);

/// What an interpreter value holds: its cells by kind (a double as its bit
/// pattern, a boxed cell as what the boxed value holds), its shape, its
/// label, and its map keys in their normal order.
pub uninterp spec fn native_model(v: Value) -> Tagged;

/// The cells of one interpreter value, boxed cells still as interpreter
/// values.
pub enum NativeCells {
    Byte(Vec<u8>),
    Num(Vec<u64>),
    Char(Vec<char>),
    Complex(Vec<(u64, u64)>),
    Box(Vec<Value>),
}

/// What goes with the cells of one interpreter value.
pub struct NativeMeta {
    pub shape: Vec<usize>,
    pub label: Option<String>,
    pub keys: Option<Value>,
}

/// What each of the given interpreter values holds, in order.
pub open spec fn models_of(items: Seq<Value>) -> Seq<Tagged> {
    Seq::new(items.len(), |i: int| native_model(items[i]))
}

impl NativeCells {
    /// The cells as the model has them.
    pub open spec fn model(self) -> Cells {
        match self {
            NativeCells::Byte(d) => Cells::Byte(d@),
            NativeCells::Num(d) => Cells::Num(d@),
            NativeCells::Char(d) => Cells::Char(d@),
            NativeCells::Complex(d) => Cells::Complex(d@),
            NativeCells::Box(d) => Cells::Box(models_of(d@)),
        }
    }
}

/// Reads the cells out of an interpreter value, by `uiua::Array::elements`
/// on the array of its kind: they are the cells that the value holds, in
/// order, each double and each part of a complex cell as its bit pattern.
#[verifier::external_body]
fn peel_cells(v: &Value) -> (r: NativeCells)
    ensures
        r.model() == native_model(*v).cells,
{
    match v {
        Value::Byte(a) => NativeCells::Byte(a.elements().copied().collect()),
        Value::Num(a) => NativeCells::Num(a.elements().map(|x| x.to_bits()).collect()),
        Value::Char(a) => NativeCells::Char(a.elements().copied().collect()),
        Value::Complex(a) => NativeCells::Complex(
            a.elements().map(|c| (c.re.to_bits(), c.im.to_bits())).collect(),
        ),
        Value::Box(a) => NativeCells::Box(a.elements().map(|b| b.0.clone()).collect()),
    }
}

/// Reads what goes with the cells, by `uiua::Value::shape`,
/// `uiua::Value::meta` and `uiua::Value::unmap`: the shape and the label
/// that the value holds, and its map keys in their normal order where it is
/// a map.
#[verifier::external_body]
fn peel_meta(v: &Value) -> (r: NativeMeta)
    ensures
        r.shape@ == native_model(*v).shape,
        label_view(r.label) == native_model(*v).label,
        match r.keys {
            Some(k) => native_model(*v).keys == Some(Box::new(native_model(k))),
            None => native_model(*v).keys is None,
        },
{
    NativeMeta {
        shape: v.shape().to_vec(),
        label: v.meta().label.as_ref().map(|s| s.to_string()),
        keys: v.clone().unmap(&uiua::Uiua::with_safe_sys()).ok().map(|kv| kv.0),
    }
}

/// The tagged array value that an interpreter value holds, with the keys of
/// a map in their normal order, at every depth of boxing.
pub fn from_native(v: &Value) -> (r: UiuaValue)
    ensures
        r@ == native_model(*v),
    decreases native_model(*v),
{
    let meta = peel_meta(v);
    let keys: Option<Box<UiuaValue>> = match &meta.keys {
        Some(k) => {
            assert(native_model(*v).keys->0 == native_model(*k));
            Some(Box::new(from_native(k)))
        },
        None => None,
    };
    assert(keys_model(keys) == native_model(*v).keys);
    let shape = meta.shape;
    let label = meta.label;
    match peel_cells(v) {
        NativeCells::Byte(data) => UiuaValue::Byte(UiuaArray { data, shape, label, keys }),
        NativeCells::Num(data) => UiuaValue::Num(UiuaArray { data, shape, label, keys }),
        NativeCells::Char(data) => UiuaValue::Char(UiuaArray { data, shape, label, keys }),
        NativeCells::Complex(data) => UiuaValue::Complex(UiuaArray { data, shape, label, keys }),
        NativeCells::Box(items) => {
            let mut data: Vec<Box<UiuaValue>> = Vec::new();
            let mut i: usize = 0;
            while i < items.len()
                invariant
                    i <= items@.len(),
                    data@.len() == i,
                    native_model(*v).cells == Cells::Box(models_of(items@)),
                    forall|k: int| 0 <= k < i ==> (*#[trigger] data@[k])@ == native_model(items@[k]),
                decreases items@.len() - i,
            {
                assert(native_model(*v).cells->Box_0[i as int] == native_model(items@[i as int]));
                data.push(Box::new(from_native(&items[i])));
                i += 1;
            }
            let array = UiuaArray { data, shape, label, keys };
            proof {
                lemma_box_view(array);
                assert(boxes_view(array.data@) =~= models_of(items@));
            }
            UiuaValue::Box(array)
        },
    }
}

/// Encodes an interpreter value for the wire: the wire form of the tagged
/// array value that it holds.
pub fn encode_native(v: &Value) -> (r: Json)
    ensures
        r@ == encode_spec(native_model(*v)),
{
    let value = from_native(v);
    encode(&value)
}

/// The tagged array values that the given interpreter values hold, in
/// order.
pub fn from_native_all(values: &Vec<Value>) -> (r: Vec<UiuaValue>)
    ensures
        r@.len() == values@.len(),
        forall|i: int| 0 <= i < r@.len() ==> (#[trigger] r@[i])@ == native_model(values@[i]),
{
    let mut out: Vec<UiuaValue> = Vec::new();
    let mut i: usize = 0;
    while i < values.len()
        invariant
            i <= values@.len(),
            out@.len() == i,
            forall|k: int| 0 <= k < i ==> (#[trigger] out@[k])@ == native_model(values@[k]),
        decreases values@.len() - i,
    {
        out.push(from_native(&values[i]));
        i += 1;
    }
    out
}

} // verus!
