use crate::json::{
    fields_view, items_view, lemma_array_view, lemma_object_view, serde_model, Field, FieldView,
    Json, JsonNumber, JsonView,
};
use crate::laws::lemma_decoded_wf;
use crate::value::{
    boxes_view, keys_model, label_view, lemma_box_view, shape_matches, shape_product, Cells, Tagged,
    UiuaArray, UiuaValue,
};
use vstd::prelude::*;
use vstd::std_specs::iter::IteratorSpec;
use vstd::string::StringExecFns;

verus! {

/// The members of a wire value.
#[derive(Clone, Copy, Debug, PartialEq, Eq, Structural)]
pub enum WireField {
    Data,
    Shape,
    Label,
    Keys,
    Kind,
}

/// Why a wire value was turned down.
#[derive(Clone, Copy, Debug, PartialEq, Eq, Structural)]
pub enum DecodeError {
    /// The wire value is not an object.
    NotAnObject,
    /// A member that must be there is absent.
    MissingField(WireField),
    /// A member holds something that its kind does not admit.
    InvalidField(WireField),
    /// The kind tag is none of `byte`, `number`, `char`, `complex`, `box`.
    UnknownKind,
    /// The product of the shape is not the number of cells.
    ShapeMismatch,
}

pub open spec fn name_data() -> Seq<char> {
    "data"@
}

pub open spec fn name_shape() -> Seq<char> {
    "shape"@
}

pub open spec fn name_label() -> Seq<char> {
    "label"@
}

pub open spec fn name_keys() -> Seq<char> {
    "keys"@
}

pub open spec fn name_kind() -> Seq<char> {
    "type"@
}

pub open spec fn kind_byte() -> Seq<char> {
    "byte"@
}

pub open spec fn kind_number() -> Seq<char> {
    "number"@
}

pub open spec fn kind_char() -> Seq<char> {
    "char"@
}

pub open spec fn kind_complex() -> Seq<char> {
    "complex"@
}

pub open spec fn kind_box() -> Seq<char> {
    "box"@
}

/// The least index at or after `from` of a member called `name`, or -1.
pub open spec fn member_index(fields: Seq<FieldView>, name: Seq<char>, from: int) -> int
    decreases fields.len() - from,
{
    if from < 0 || from >= fields.len() {
        -1
    } else if fields[from].name == name {
        from
    } else {
        member_index(fields, name, from + 1)
    }
}

/// The value of the first member called `name`.
pub open spec fn member(fields: Seq<FieldView>, name: Seq<char>) -> Option<JsonView> {
    let i = member_index(fields, name, 0);
    if 0 <= i < fields.len() {
        Some(fields[i].value)
    } else {
        None
    }
}

/// The double that `serde_json` reads out of an unsigned integer, as bits.
pub uninterp spec fn unsigned_float_bits(u: u64) -> u64;

/// The double that `serde_json` reads out of a signed integer, as bits.
pub uninterp spec fn signed_float_bits(i: i64) -> u64;

/// Reads an unsigned integer as a double, by `serde_json::Number::from` and
/// `serde_json::Number::as_f64`: the result is that double's bit pattern,
/// which nothing here says more of than that it depends on `u` alone.
#[verifier::external_body]
fn unsigned_as_float(u: u64) -> (r: u64)
    ensures
        r == unsigned_float_bits(u),
{
    serde_json::Number::from(u).as_f64().map(|x| x.to_bits()).unwrap_or_default()
}

/// Reads a signed integer as a double, by `serde_json::Number::from` and
/// `serde_json::Number::as_f64`: the result is that double's bit pattern,
/// which nothing here says more of than that it depends on `i` alone.
#[verifier::external_body]
fn signed_as_float(i: i64) -> (r: u64)
    ensures
        r == signed_float_bits(i),
{
    serde_json::Number::from(i).as_f64().map(|x| x.to_bits()).unwrap_or_default()
}

/// A wire number read as a double, as bits.
pub open spec fn number_bits(n: JsonNumber) -> u64 {
    match n {
        JsonNumber::Unsigned(u) => unsigned_float_bits(u),
        JsonNumber::Signed(i) => signed_float_bits(i),
        JsonNumber::Float(b) => b,
    }
}

/// A wire entry that is a dimension size.
pub open spec fn is_dimension(j: JsonView) -> bool {
    j matches JsonView::Number(JsonNumber::Unsigned(u)) && u <= usize::MAX
}

pub open spec fn dimension(j: JsonView) -> usize {
    match j {
        JsonView::Number(JsonNumber::Unsigned(u)) => u as usize,
        _ => 0,
    }
}

/// The shape that a wire member holds, where it holds one.
pub open spec fn shape_of(j: JsonView) -> Option<Seq<usize>> {
    match j {
        JsonView::Array(items) => if forall|i: int|
            0 <= i < items.len() ==> is_dimension(#[trigger] items[i]) {
            Some(Seq::new(items.len(), |i: int| dimension(items[i])))
        } else {
            None
        },
        _ => None,
    }
}

/// The label that a wire member holds: absent and null both mean none.
pub open spec fn label_of(m: Option<JsonView>) -> Option<Option<Seq<char>>> {
    match m {
        None => Some(None),
        Some(JsonView::Null) => Some(None),
        Some(JsonView::Text(s)) => Some(Some(s)),
        Some(_) => None,
    }
}

pub open spec fn is_number(j: JsonView) -> bool {
    j is Number
}

pub open spec fn bits_of(j: JsonView) -> u64 {
    match j {
        JsonView::Number(n) => number_bits(n),
        _ => 0,
    }
}

/// A wire entry that is a pair of numbers.
pub open spec fn is_pair(j: JsonView) -> bool {
    j matches JsonView::Array(items) && items.len() == 2 && is_number(items[0]) && is_number(
        items[1],
    )
}

pub open spec fn pair_of(j: JsonView) -> (u64, u64) {
    match j {
        JsonView::Array(items) => (bits_of(items[0]), bits_of(items[1])),
        _ => (0, 0),
    }
}

/// A wire entry that is a byte: an unsigned integer up to 255.
pub open spec fn is_octet(j: JsonView) -> bool {
    j matches JsonView::Number(JsonNumber::Unsigned(u)) && u <= 255
}

pub open spec fn octet_of(j: JsonView) -> u8 {
    match j {
        JsonView::Number(JsonNumber::Unsigned(u)) => u as u8,
        _ => 0,
    }
}

/// The cells of a `byte` value, where the data admit them.
pub open spec fn byte_cells(data: JsonView) -> Option<Seq<u8>> {
    match data {
        JsonView::Array(items) => if forall|i: int|
            0 <= i < items.len() ==> is_octet(#[trigger] items[i]) {
            Some(Seq::new(items.len(), |i: int| octet_of(items[i])))
        } else {
            None
        },
        _ => None,
    }
}

/// The cells of a `number` value, where the data admit them.
pub open spec fn number_cells(data: JsonView) -> Option<Seq<u64>> {
    match data {
        JsonView::Array(items) => if forall|i: int|
            0 <= i < items.len() ==> is_number(#[trigger] items[i]) {
            Some(Seq::new(items.len(), |i: int| bits_of(items[i])))
        } else {
            None
        },
        _ => None,
    }
}

/// The cells of a `complex` value, where the data admit them.
pub open spec fn complex_cells(data: JsonView) -> Option<Seq<(u64, u64)>> {
    match data {
        JsonView::Array(items) => if forall|i: int|
            0 <= i < items.len() ==> is_pair(#[trigger] items[i]) {
            Some(Seq::new(items.len(), |i: int| pair_of(items[i])))
        } else {
            None
        },
        _ => None,
    }
}

/// The cells of a `char` value: one for each code point of the text.
pub open spec fn char_cells(data: JsonView) -> Option<Seq<char>> {
    match data {
        JsonView::Text(s) => Some(s),
        _ => None,
    }
}

/// What decoding makes of a wire value: the tagged array value, or the first
/// fault in the order kind, shape, label, data, keys, kind tag, cells, count.
pub open spec fn decode_spec(j: JsonView) -> Result<Tagged, DecodeError>
    decreases j,
{
    match j {
        JsonView::Object(fields) => {
            let kind = member(fields, name_kind());
            let shape = member(fields, name_shape());
            let label = label_of(member(fields, name_label()));
            let data = member(fields, name_data());
            let ki = member_index(fields, name_keys(), 0);
            if kind is None {
                Err(DecodeError::MissingField(WireField::Kind))
            } else if !(kind->0 is Text) {
                Err(DecodeError::InvalidField(WireField::Kind))
            } else if shape is None {
                Err(DecodeError::MissingField(WireField::Shape))
            } else if shape_of(shape->0) is None {
                Err(DecodeError::InvalidField(WireField::Shape))
            } else if label is None {
                Err(DecodeError::InvalidField(WireField::Label))
            } else if data is None {
                Err(DecodeError::MissingField(WireField::Data))
            } else {
                let keys: Option<Result<Tagged, DecodeError>> = if 0 <= ki < fields.len()
                    && !(fields[ki].value is Null) {
                    Some(decode_spec(fields[ki].value))
                } else {
                    None
                };
                if keys is Some && keys->0 is Err {
                    Err(DecodeError::InvalidField(WireField::Keys))
                } else {
                    let cells = cells_spec(kind->0->Text_0, data->0);
                    match cells {
                        Err(e) => Err(e),
                        Ok(c) => if shape_product(shape_of(shape->0)->0) != c.len() {
                            Err(DecodeError::ShapeMismatch)
                        } else {
                            Ok(
                                Tagged {
                                    cells: c,
                                    shape: shape_of(shape->0)->0,
                                    label: label->0,
                                    keys: match keys {
                                        Some(k) => Some(Box::new(k->Ok_0)),
                                        None => None,
                                    },
                                },
                            )
                        },
                    }
                }
            }
        },
        _ => Err(DecodeError::NotAnObject),
    }
}

/// The cells that the data hold under a kind tag.
pub open spec fn cells_spec(kind: Seq<char>, data: JsonView) -> Result<Cells, DecodeError>
    decreases data,
{
    if kind == kind_byte() {
        match byte_cells(data) {
            Some(c) => Ok(Cells::Byte(c)),
            None => Err(DecodeError::InvalidField(WireField::Data)),
        }
    } else if kind == kind_number() {
        match number_cells(data) {
            Some(c) => Ok(Cells::Num(c)),
            None => Err(DecodeError::InvalidField(WireField::Data)),
        }
    } else if kind == kind_char() {
        match char_cells(data) {
            Some(c) => Ok(Cells::Char(c)),
            None => Err(DecodeError::InvalidField(WireField::Data)),
        }
    } else if kind == kind_complex() {
        match complex_cells(data) {
            Some(c) => Ok(Cells::Complex(c)),
            None => Err(DecodeError::InvalidField(WireField::Data)),
        }
    } else if kind == kind_box() {
        match data {
            JsonView::Array(items) => if forall|i: int|
                0 <= i < items.len() ==> decode_spec(#[trigger] items[i]) is Ok {
                Ok(
                    Cells::Box(
                        Seq::new(
                            items.len(),
                            |i: int|
                                if 0 <= i < items.len() {
                                    decode_spec(items[i])->Ok_0
                                } else {
                                    arbitrary()
                                },
                        ),
                    ),
                )
            } else {
                Err(DecodeError::InvalidField(WireField::Data))
            },
            _ => Err(DecodeError::InvalidField(WireField::Data)),
        }
    } else {
        Err(DecodeError::UnknownKind)
    }
}

/// The index of the first member called `name`.
fn find_member(fields: &Vec<Field>, name: &String) -> (r: Option<usize>)
    ensures
        match r {
            Some(i) => i < fields@.len() && member_index(fields_view(fields@), name@, 0) == i,
            None => member_index(fields_view(fields@), name@, 0) == -1,
        },
{
    let ghost view = fields_view(fields@);
    let mut i: usize = 0;
    while i < fields.len()
        invariant
            i <= fields@.len(),
            view == fields_view(fields@),
            member_index(view, name@, 0) == member_index(view, name@, i as int),
        decreases fields@.len() - i,
    {
        if fields[i].name == *name {
            return Some(i);
        }
        i += 1;
    }
    None
}

/// The code points of a text, in order.
fn chars_of(text: &String) -> (r: Vec<char>)
    ensures
        r@ == text@,
{
    broadcast use vstd::string::axiom_spec_iter, vstd::string::next_postcondition;

    let mut it = text.as_str().chars();
    let mut out: Vec<char> = Vec::new();
    loop
        invariant
            out@ + it.remaining() == text@,
        ensures
            out@ == text@,
        decreases text@.len() - out@.len(),
    {
        match it.next() {
            Some(c) => {
                out.push(c);
            },
            None => {
                break ;
            },
        }
    }
    out
}

/// The shape that a member holds, where it holds one.
fn read_shape(j: &Json) -> (r: Option<Vec<usize>>)
    ensures
        match r {
            Some(v) => shape_of(j@) == Some(v@),
            None => shape_of(j@) is None,
        },
{
    match j {
        Json::Array(items) => {
            proof {
                lemma_array_view(*items);
            }
            let ghost view = items_view(items@);
            let mut out: Vec<usize> = Vec::new();
            let mut i: usize = 0;
            while i < items.len()
                invariant
                    i <= items@.len(),
                    out@.len() == i,
                    view == items_view(items@),
                    j@ == JsonView::Array(view),
                    forall|k: int| 0 <= k < i ==> is_dimension(#[trigger] view[k]),
                    forall|k: int| 0 <= k < i ==> out@[k] == dimension(#[trigger] view[k]),
                decreases items@.len() - i,
            {
                assert(view[i as int] == items@[i as int]@);
                match &items[i] {
                    Json::Number(JsonNumber::Unsigned(u)) => {
                        if *u > usize::MAX as u64 {
                            assert(!is_dimension(view[i as int]));
                            return None;
                        }
                        out.push(*u as usize);
                    },
                    _ => {
                        assert(!is_dimension(view[i as int]));
                        return None;
                    },
                }
                i += 1;
            }
            assert(out@ =~= shape_of(j@)->0);
            Some(out)
        },
        _ => None,
    }
}

/// The cells of a `byte` value, where the data admit them.
fn read_bytes(data: &Json) -> (r: Option<Vec<u8>>)
    ensures
        match r {
            Some(v) => byte_cells(data@) == Some(v@),
            None => byte_cells(data@) is None,
        },
{
    match data {
        Json::Array(items) => {
            proof {
                lemma_array_view(*items);
            }
            let ghost view = items_view(items@);
            let mut out: Vec<u8> = Vec::new();
            let mut i: usize = 0;
            while i < items.len()
                invariant
                    i <= items@.len(),
                    out@.len() == i,
                    view == items_view(items@),
                    data@ == JsonView::Array(view),
                    forall|k: int| 0 <= k < i ==> is_octet(#[trigger] view[k]),
                    forall|k: int| 0 <= k < i ==> out@[k] == octet_of(#[trigger] view[k]),
                decreases items@.len() - i,
            {
                assert(view[i as int] == items@[i as int]@);
                match &items[i] {
                    Json::Number(JsonNumber::Unsigned(u)) => {
                        if *u > 255 {
                            assert(!is_octet(view[i as int]));
                            return None;
                        }
                        out.push(*u as u8);
                    },
                    _ => {
                        assert(!is_octet(view[i as int]));
                        return None;
                    },
                }
                i += 1;
            }
            assert(out@ =~= byte_cells(data@)->0);
            Some(out)
        },
        _ => None,
    }
}

/// The cells of a `number` value, where the data admit them.
fn read_numbers(data: &Json) -> (r: Option<Vec<u64>>)
    ensures
        match r {
            Some(v) => number_cells(data@) == Some(v@),
            None => number_cells(data@) is None,
        },
{
    match data {
        Json::Array(items) => {
            proof {
                lemma_array_view(*items);
            }
            let ghost view = items_view(items@);
            let mut out: Vec<u64> = Vec::new();
            let mut i: usize = 0;
            while i < items.len()
                invariant
                    i <= items@.len(),
                    out@.len() == i,
                    view == items_view(items@),
                    data@ == JsonView::Array(view),
                    forall|k: int| 0 <= k < i ==> is_number(#[trigger] view[k]),
                    forall|k: int| 0 <= k < i ==> out@[k] == bits_of(#[trigger] view[k]),
                decreases items@.len() - i,
            {
                assert(view[i as int] == items@[i as int]@);
                match read_number(&items[i]) {
                    Some(b) => {
                        out.push(b);
                    },
                    None => {
                        assert(!is_number(view[i as int]));
                        return None;
                    },
                }
                i += 1;
            }
            assert(out@ =~= number_cells(data@)->0);
            Some(out)
        },
        _ => None,
    }
}

/// A wire entry read as a double, where it is a number.
fn read_number(j: &Json) -> (r: Option<u64>)
    ensures
        r is Some == is_number(j@),
        r is Some ==> r->0 == bits_of(j@),
{
    match j {
        Json::Number(JsonNumber::Unsigned(u)) => Some(unsigned_as_float(*u)),
        Json::Number(JsonNumber::Signed(i)) => Some(signed_as_float(*i)),
        Json::Number(JsonNumber::Float(b)) => Some(*b),
        _ => None,
    }
}

/// A wire entry read as a complex cell, where it is a pair of numbers.
fn read_pair(j: &Json) -> (r: Option<(u64, u64)>)
    ensures
        r is Some == is_pair(j@),
        r is Some ==> r->0 == pair_of(j@),
{
    match j {
        Json::Array(items) => {
            proof {
                lemma_array_view(*items);
            }
            if items.len() != 2 {
                return None;
            }
            assert(items_view(items@)[0] == items@[0]@);
            assert(items_view(items@)[1] == items@[1]@);
            match (read_number(&items[0]), read_number(&items[1])) {
                (Some(re), Some(im)) => Some((re, im)),
                _ => None,
            }
        },
        _ => None,
    }
}

/// The cells of a `complex` value, where the data admit them.
fn read_pairs(data: &Json) -> (r: Option<Vec<(u64, u64)>>)
    ensures
        match r {
            Some(v) => complex_cells(data@) == Some(v@),
            None => complex_cells(data@) is None,
        },
{
    match data {
        Json::Array(items) => {
            proof {
                lemma_array_view(*items);
            }
            let ghost view = items_view(items@);
            let mut out: Vec<(u64, u64)> = Vec::new();
            let mut i: usize = 0;
            while i < items.len()
                invariant
                    i <= items@.len(),
                    out@.len() == i,
                    view == items_view(items@),
                    data@ == JsonView::Array(view),
                    forall|k: int| 0 <= k < i ==> is_pair(#[trigger] view[k]),
                    forall|k: int| 0 <= k < i ==> out@[k] == pair_of(#[trigger] view[k]),
                decreases items@.len() - i,
            {
                assert(view[i as int] == items@[i as int]@);
                match read_pair(&items[i]) {
                    Some(c) => {
                        out.push(c);
                    },
                    None => {
                        assert(!is_pair(view[i as int]));
                        return None;
                    },
                }
                i += 1;
            }
            assert(out@ =~= complex_cells(data@)->0);
            Some(out)
        },
        _ => None,
    }
}

/// What a decoding returned, as the specification writes it.
pub open spec fn result_view(r: Result<UiuaValue, DecodeError>) -> Result<Tagged, DecodeError> {
    match r {
        Ok(v) => Ok(v@),
        Err(e) => Err(e),
    }
}

/// The boxed cells of a `box` value, where each entry decodes.
fn decode_boxes(data: &Json) -> (r: Option<Vec<Box<UiuaValue>>>)
    ensures
        match r {
            Some(v) => cells_spec(kind_box(), data@) == Ok::<Cells, DecodeError>(
                Cells::Box(boxes_view(v@)),
            ),
            None => cells_spec(kind_box(), data@) == Err::<Cells, DecodeError>(
                DecodeError::InvalidField(WireField::Data),
            ),
        },
    decreases data, 0int,
{
    proof {
        lemma_kinds_differ();
    }
    match data {
        Json::Array(items) => {
            proof {
                lemma_array_view(*items);
            }
            let ghost view = items_view(items@);
            let mut out: Vec<Box<UiuaValue>> = Vec::new();
            let mut i: usize = 0;
            while i < items.len()
                invariant
                    i <= items@.len(),
                    out@.len() == i,
                    view == items_view(items@),
                    data@ == JsonView::Array(view),
                    *data == Json::Array(*items),
                    forall|k: int| 0 <= k < i ==> decode_spec(#[trigger] view[k]) is Ok,
                    forall|k: int|
                        0 <= k < i ==> (*out@[k])@ == decode_spec(#[trigger] view[k])->Ok_0,
                decreases items@.len() - i,
            {
                assert(view[i as int] == items@[i as int]@);
                match decode(&items[i]) {
                    Ok(v) => {
                        out.push(Box::new(v));
                    },
                    Err(_) => {
                        assert(!(decode_spec(view[i as int]) is Ok));
                        proof {
                            lemma_kinds_differ();
                        }
                        return None;
                    },
                }
                i += 1;
            }
            assert(cells_spec(kind_box(), data@) is Ok);
            assert(boxes_view(out@) =~= cells_spec(kind_box(), data@)->Ok_0->Box_0);
            Some(out)
        },
        _ => None,
    }
}

/// Decodes a wire value into a tagged array value, or says what is wrong
/// with it. A `byte` value decodes to bytes, a `number` value to doubles.
pub fn decode(j: &Json) -> (r: Result<UiuaValue, DecodeError>)
    ensures
        result_view(r) == decode_spec(j@),
        r matches Ok(v) ==> v@.wf(),
    decreases j, 1int,
{
    proof {
        lemma_decoded_wf(j@);
    }
    let fields = match j {
        Json::Object(fields) => fields,
        _ => {
            return Err(DecodeError::NotAnObject);
        },
    };
    proof {
        lemma_object_view(*fields);
        lemma_kinds_differ();
    }
    let ghost view = fields_view(fields@);
    let kind = match find_member(fields, &String::from_str("type")) {
        None => {
            return Err(DecodeError::MissingField(WireField::Kind));
        },
        Some(at) => {
            assert(view[at as int] == fields@[at as int]@);
            match &fields[at].value {
                Json::Text(kind) => kind,
                _ => {
                    return Err(DecodeError::InvalidField(WireField::Kind));
                },
            }
        },
    };
    let shape = match find_member(fields, &String::from_str("shape")) {
        None => {
            return Err(DecodeError::MissingField(WireField::Shape));
        },
        Some(at) => {
            assert(view[at as int] == fields@[at as int]@);
            match read_shape(&fields[at].value) {
                Some(shape) => shape,
                None => {
                    return Err(DecodeError::InvalidField(WireField::Shape));
                },
            }
        },
    };
    let label: Option<String> = match find_member(fields, &String::from_str("label")) {
        None => None,
        Some(at) => {
            assert(view[at as int] == fields@[at as int]@);
            match &fields[at].value {
                Json::Null => None,
                Json::Text(text) => Some(text.clone()),
                _ => {
                    return Err(DecodeError::InvalidField(WireField::Label));
                },
            }
        },
    };
    let data = match find_member(fields, &String::from_str("data")) {
        None => {
            return Err(DecodeError::MissingField(WireField::Data));
        },
        Some(at) => {
            assert(view[at as int] == fields@[at as int]@);
            &fields[at].value
        },
    };
    let keys: Option<Box<UiuaValue>> = match find_member(fields, &String::from_str("keys")) {
        None => None,
        Some(at) => {
            assert(view[at as int] == fields@[at as int]@);
            match &fields[at].value {
                Json::Null => None,
                inner => match decode(inner) {
                    Ok(k) => Some(Box::new(k)),
                    Err(_) => {
                        return Err(DecodeError::InvalidField(WireField::Keys));
                    },
                },
            }
        },
    };
    // Unfold the cells and the keys at these values.
    assert(cells_spec(kind@, data@) is Ok || cells_spec(kind@, data@) is Err);
    assert(keys_model(keys) is Some == keys is Some);
    if *kind == String::from_str("byte") {
        match read_bytes(data) {
            None => Err(DecodeError::InvalidField(WireField::Data)),
            Some(cells) => if shape_matches(&shape, cells.len()) {
                Ok(UiuaValue::Byte(UiuaArray { data: cells, shape, label, keys }))
            } else {
                Err(DecodeError::ShapeMismatch)
            },
        }
    } else if *kind == String::from_str("number") {
        match read_numbers(data) {
            None => Err(DecodeError::InvalidField(WireField::Data)),
            Some(cells) => if shape_matches(&shape, cells.len()) {
                Ok(UiuaValue::Num(UiuaArray { data: cells, shape, label, keys }))
            } else {
                Err(DecodeError::ShapeMismatch)
            },
        }
    } else if *kind == String::from_str("char") {
        match data {
            Json::Text(text) => {
                let cells = chars_of(text);
                if shape_matches(&shape, cells.len()) {
                    Ok(UiuaValue::Char(UiuaArray { data: cells, shape, label, keys }))
                } else {
                    Err(DecodeError::ShapeMismatch)
                }
            },
            _ => Err(DecodeError::InvalidField(WireField::Data)),
        }
    } else if *kind == String::from_str("complex") {
        match read_pairs(data) {
            None => Err(DecodeError::InvalidField(WireField::Data)),
            Some(cells) => if shape_matches(&shape, cells.len()) {
                Ok(UiuaValue::Complex(UiuaArray { data: cells, shape, label, keys }))
            } else {
                Err(DecodeError::ShapeMismatch)
            },
        }
    } else if *kind == String::from_str("box") {
        match decode_boxes(data) {
            None => Err(DecodeError::InvalidField(WireField::Data)),
            Some(cells) => if shape_matches(&shape, cells.len()) {
                let array = UiuaArray { data: cells, shape, label, keys };
                proof {
                    lemma_box_view(array);
                }
                Ok(UiuaValue::Box(array))
            } else {
                Err(DecodeError::ShapeMismatch)
            },
        }
    } else {
        Err(DecodeError::UnknownKind)
    }
}

/// The five kind tags are five different texts.
pub proof fn lemma_kinds_differ()
    ensures
        kind_byte() != kind_number(),
        kind_byte() != kind_char(),
        kind_byte() != kind_complex(),
        kind_byte() != kind_box(),
        kind_number() != kind_char(),
        kind_number() != kind_complex(),
        kind_number() != kind_box(),
        kind_char() != kind_complex(),
        kind_char() != kind_box(),
        kind_complex() != kind_box(),
{
    reveal_strlit("number");
    reveal_strlit("char");
    reveal_strlit("complex");
    reveal_strlit("box");
    reveal_strlit("byte");
    assert(kind_byte().len() == 4 && kind_byte()[0] == 'b');
    assert(kind_number().len() == 6);
    assert(kind_char().len() == 4 && kind_char()[0] == 'c');
    assert(kind_complex().len() == 7);
    assert(kind_box().len() == 3);
}

/// The kind tag under which cells travel.
pub open spec fn kind_name(cells: Cells) -> Seq<char> {
    match cells {
        Cells::Byte(_) => kind_byte(),
        Cells::Num(_) => kind_number(),
        Cells::Char(_) => kind_char(),
        Cells::Complex(_) => kind_complex(),
        Cells::Box(_) => kind_box(),
    }
}

/// The wire form of a shape.
pub open spec fn shape_json(shape: Seq<usize>) -> JsonView {
    JsonView::Array(
        Seq::new(shape.len(), |i: int| JsonView::Number(JsonNumber::Unsigned(shape[i] as u64))),
    )
}

/// The wire form of a label: null where there is none.
pub open spec fn label_json(label: Option<Seq<char>>) -> JsonView {
    match label {
        Some(s) => JsonView::Text(s),
        None => JsonView::Null,
    }
}

/// The wire form of a complex cell.
pub open spec fn pair_json(c: (u64, u64)) -> JsonView {
    JsonView::Array(
        seq![
            JsonView::Number(JsonNumber::Float(c.0)),
            JsonView::Number(JsonNumber::Float(c.1)),
        ],
    )
}

/// The wire form of a tagged array value: an object with the members
/// `data`, `shape`, `label`, `keys` and `type`, in this order.
pub open spec fn encode_spec(t: Tagged) -> JsonView
    decreases t,
{
    JsonView::Object(
        seq![
            FieldView {
                name: name_data(),
                value: match t.cells {
                    Cells::Byte(s) => JsonView::Array(
                        Seq::new(
                            s.len(),
                            |i: int| JsonView::Number(JsonNumber::Unsigned(s[i] as u64)),
                        ),
                    ),
                    Cells::Num(s) => JsonView::Array(
                        Seq::new(s.len(), |i: int| JsonView::Number(JsonNumber::Float(s[i]))),
                    ),
                    Cells::Char(s) => JsonView::Text(s),
                    Cells::Complex(s) => JsonView::Array(
                        Seq::new(s.len(), |i: int| pair_json(s[i])),
                    ),
                    Cells::Box(s) => JsonView::Array(
                        Seq::new(
                            s.len(),
                            |i: int|
                                if 0 <= i < s.len() {
                                    encode_spec(s[i])
                                } else {
                                    JsonView::Null
                                },
                        ),
                    ),
                },
            },
            FieldView { name: name_shape(), value: shape_json(t.shape) },
            FieldView { name: name_label(), value: label_json(t.label) },
            FieldView {
                name: name_keys(),
                value: match t.keys {
                    Some(k) => encode_spec(*k),
                    None => JsonView::Null,
                },
            },
            FieldView { name: name_kind(), value: JsonView::Text(kind_name(t.cells)) },
        ],
    )
}

/// Appends one code point to a text, by `String::push`.
#[verifier::external_body]
fn push_char(text: &mut String, c: char)
    ensures
        final(text)@ == old(text)@.push(c),
{
    text.push(c)
}

/// The text made of the given code points, in order.
fn text_of(chars: &Vec<char>) -> (r: String)
    ensures
        r@ == chars@,
{
    let mut out = String::new();
    let mut i: usize = 0;
    while i < chars.len()
        invariant
            i <= chars@.len(),
            out@ == chars@.take(i as int),
        decreases chars@.len() - i,
    {
        push_char(&mut out, chars[i]);
        assert(chars@.take(i + 1) =~= chars@.take(i as int).push(chars@[i as int]));
        i += 1;
    }
    assert(chars@.take(chars@.len() as int) =~= chars@);
    out
}

/// The wire form of a shape.
fn encode_shape(shape: &Vec<usize>) -> (r: Json)
    ensures
        r@ == shape_json(shape@),
{
    let mut items: Vec<Json> = Vec::new();
    let mut i: usize = 0;
    while i < shape.len()
        invariant
            i <= shape@.len(),
            items@.len() == i,
            forall|k: int|
                0 <= k < i ==> (#[trigger] items@[k])@ == JsonView::Number(
                    JsonNumber::Unsigned(shape@[k] as u64),
                ),
        decreases shape@.len() - i,
    {
        items.push(Json::Number(JsonNumber::Unsigned(shape[i] as u64)));
        i += 1;
    }
    proof {
        lemma_array_view(items);
        assert(items_view(items@) =~= shape_json(shape@)->Array_0);
    }
    Json::Array(items)
}

/// The wire form of a label.
fn encode_label(label: &Option<String>) -> (r: Json)
    ensures
        r@ == label_json(label_view(*label)),
{
    match label {
        Some(text) => Json::Text(text.clone()),
        None => Json::Null,
    }
}

/// The wire object with the five members in their order.
fn wire_object(data: Json, shape: Json, label: Json, keys: Json, kind: &str) -> (r: Json)
    ensures
        r@ == JsonView::Object(
            seq![
                FieldView { name: name_data(), value: data@ },
                FieldView { name: name_shape(), value: shape@ },
                FieldView { name: name_label(), value: label@ },
                FieldView { name: name_keys(), value: keys@ },
                FieldView { name: name_kind(), value: JsonView::Text(kind@) },
            ],
        ),
{
    let mut fields: Vec<Field> = Vec::new();
    fields.push(Field { name: String::from_str("data"), value: data });
    fields.push(Field { name: String::from_str("shape"), value: shape });
    fields.push(Field { name: String::from_str("label"), value: label });
    fields.push(Field { name: String::from_str("keys"), value: keys });
    fields.push(Field { name: String::from_str("type"), value: Json::Text(String::from_str(kind)) });
    proof {
        lemma_object_view(fields);
        assert(fields_view(fields@) =~= seq![
            FieldView { name: name_data(), value: data@ },
            FieldView { name: name_shape(), value: shape@ },
            FieldView { name: name_label(), value: label@ },
            FieldView { name: name_keys(), value: keys@ },
            FieldView { name: name_kind(), value: JsonView::Text(kind@) },
        ]);
    }
    Json::Object(fields)
}

/// The wire form of optional keys: null where there are none.
fn encode_keys(keys: &Option<Box<UiuaValue>>) -> (r: Json)
    ensures
        r@ == match keys_model(*keys) {
            Some(k) => encode_spec(*k),
            None => JsonView::Null,
        },
    decreases keys, 0int,
{
    match keys {
        Some(k) => encode(&**k),
        None => Json::Null,
    }
}

/// Encodes a tagged array value for the wire, each kind under its own tag;
/// an absent label or absent keys travel as null.
pub fn encode(v: &UiuaValue) -> (r: Json)
    ensures
        r@ == encode_spec(v@),
    decreases v, 1int,
{
    match v {
        UiuaValue::Byte(a) => {
            let mut items: Vec<Json> = Vec::new();
            let mut i: usize = 0;
            while i < a.data.len()
                invariant
                    i <= a.data@.len(),
                    items@.len() == i,
                    forall|k: int|
                        0 <= k < i ==> (#[trigger] items@[k])@ == JsonView::Number(
                            JsonNumber::Unsigned(a.data@[k] as u64),
                        ),
                decreases a.data@.len() - i,
            {
                items.push(Json::Number(JsonNumber::Unsigned(a.data[i] as u64)));
                i += 1;
            }
            proof {
                lemma_array_view(items);
                assert(items_view(items@) =~= encode_spec(v@)->Object_0[0].value->Array_0);
            }
            let r = wire_object(
                Json::Array(items),
                encode_shape(&a.shape),
                encode_label(&a.label),
                encode_keys(&a.keys),
                "byte",
            );
            assert(r@->Object_0 =~= encode_spec(v@)->Object_0);
            r
        },
        UiuaValue::Num(a) => {
            let mut items: Vec<Json> = Vec::new();
            let mut i: usize = 0;
            while i < a.data.len()
                invariant
                    i <= a.data@.len(),
                    items@.len() == i,
                    forall|k: int|
                        0 <= k < i ==> (#[trigger] items@[k])@ == JsonView::Number(
                            JsonNumber::Float(a.data@[k]),
                        ),
                decreases a.data@.len() - i,
            {
                items.push(Json::Number(JsonNumber::Float(a.data[i])));
                i += 1;
            }
            proof {
                lemma_array_view(items);
                assert(items_view(items@) =~= encode_spec(v@)->Object_0[0].value->Array_0);
            }
            let r = wire_object(
                Json::Array(items),
                encode_shape(&a.shape),
                encode_label(&a.label),
                encode_keys(&a.keys),
                "number",
            );
            assert(r@->Object_0 =~= encode_spec(v@)->Object_0);
            r
        },
        UiuaValue::Char(a) => {
            let r = wire_object(
                Json::Text(text_of(&a.data)),
                encode_shape(&a.shape),
                encode_label(&a.label),
                encode_keys(&a.keys),
                "char",
            );
            assert(r@->Object_0 =~= encode_spec(v@)->Object_0);
            r
        },
        UiuaValue::Complex(a) => {
            let mut items: Vec<Json> = Vec::new();
            let mut i: usize = 0;
            while i < a.data.len()
                invariant
                    i <= a.data@.len(),
                    items@.len() == i,
                    forall|k: int| 0 <= k < i ==> (#[trigger] items@[k])@ == pair_json(a.data@[k]),
                decreases a.data@.len() - i,
            {
                let mut pair: Vec<Json> = Vec::new();
                pair.push(Json::Number(JsonNumber::Float(a.data[i].0)));
                pair.push(Json::Number(JsonNumber::Float(a.data[i].1)));
                proof {
                    lemma_array_view(pair);
                    assert(items_view(pair@) =~= pair_json(a.data@[i as int])->Array_0);
                }
                items.push(Json::Array(pair));
                i += 1;
            }
            proof {
                lemma_array_view(items);
                assert(items_view(items@) =~= encode_spec(v@)->Object_0[0].value->Array_0);
            }
            let r = wire_object(
                Json::Array(items),
                encode_shape(&a.shape),
                encode_label(&a.label),
                encode_keys(&a.keys),
                "complex",
            );
            assert(r@->Object_0 =~= encode_spec(v@)->Object_0);
            r
        },
        UiuaValue::Box(a) => {
            proof {
                lemma_box_view(*a);
            }
            let mut items: Vec<Json> = Vec::new();
            let mut i: usize = 0;
            while i < a.data.len()
                invariant
                    i <= a.data@.len(),
                    items@.len() == i,
                    *v == UiuaValue::Box(*a),
                    forall|k: int|
                        0 <= k < i ==> (#[trigger] items@[k])@ == encode_spec((*a.data@[k])@),
                decreases a.data@.len() - i,
            {
                assert(*a == v->Box_0);
                items.push(encode(&*a.data[i]));
                i += 1;
            }
            proof {
                lemma_array_view(items);
                assert(items_view(items@) =~= encode_spec(v@)->Object_0[0].value->Array_0);
            }
            let r = wire_object(
                Json::Array(items),
                encode_shape(&a.shape),
                encode_label(&a.label),
                encode_keys(&a.keys),
                "box",
            );
            assert(r@->Object_0 =~= encode_spec(v@)->Object_0);
            r
        },
    }
}

/// Decodes a wire value that is held as a `serde_json` value.
pub fn decode_serde(v: &serde_json::Value) -> (r: Result<UiuaValue, DecodeError>)
    ensures
        result_view(r) == decode_spec(serde_model(*v)),
        r matches Ok(value) ==> value@.wf(),
{
    let j = Json::from_serde(v);
    decode(&j)
}

impl DecodeError {
    /// The member that the error is about, if it is about one.
    pub fn field(&self) -> (r: Option<WireField>)
        ensures
            r == match *self {
                DecodeError::MissingField(f) => Some(f),
                DecodeError::InvalidField(f) => Some(f),
                DecodeError::ShapeMismatch => Some(WireField::Shape),
                DecodeError::UnknownKind => Some(WireField::Kind),
                DecodeError::NotAnObject => None,
            },
    {
        match self {
            DecodeError::MissingField(f) => Some(*f),
            DecodeError::InvalidField(f) => Some(*f),
            DecodeError::ShapeMismatch => Some(WireField::Shape),
            DecodeError::UnknownKind => Some(WireField::Kind),
            DecodeError::NotAnObject => None,
        }
    }
}

impl WireField {
    /// The member's name on the wire.
    pub fn name(&self) -> (r: &'static str)
        ensures
            r@ == match *self {
                WireField::Data => name_data(),
                WireField::Shape => name_shape(),
                WireField::Label => name_label(),
                WireField::Keys => name_keys(),
                WireField::Kind => name_kind(),
            },
    {
        match self {
            WireField::Data => "data",
            WireField::Shape => "shape",
            WireField::Label => "label",
            WireField::Keys => "keys",
            WireField::Kind => "type",
        }
    }
}

/// What an error says: which member it is about, and what is wrong.
pub open spec fn message_spec(e: DecodeError) -> Seq<char> {
    match e {
        DecodeError::NotAnObject => "wire value is not an object"@,
        DecodeError::MissingField(f) => "missing member: "@ + field_name(f),
        DecodeError::InvalidField(f) => "invalid member: "@ + field_name(f),
        DecodeError::UnknownKind => "unknown kind in member: type"@,
        DecodeError::ShapeMismatch => "product of member shape is not the length of member data"@,
    }
}

/// A member's name on the wire.
pub open spec fn field_name(f: WireField) -> Seq<char> {
    match f {
        WireField::Data => name_data(),
        WireField::Shape => name_shape(),
        WireField::Label => name_label(),
        WireField::Keys => name_keys(),
        WireField::Kind => name_kind(),
    }
}

impl DecodeError {
    /// The error as a text that names the member it is about.
    pub fn message(&self) -> (r: String)
        ensures
            r@ == message_spec(*self),
    {
        match self {
            DecodeError::NotAnObject => String::from_str("wire value is not an object"),
            DecodeError::MissingField(f) => {
                let mut text = String::from_str("missing member: ");
                text.append(f.name());
                text
            },
            DecodeError::InvalidField(f) => {
                let mut text = String::from_str("invalid member: ");
                text.append(f.name());
                text
            },
            DecodeError::UnknownKind => String::from_str("unknown kind in member: type"),
            DecodeError::ShapeMismatch => String::from_str(
                "product of member shape is not the length of member data",
            ),
        }
    }
}

/// A wire value with its members already told apart; the data are still as
/// the wire has them.
#[derive(Debug)]
pub struct UiuaArrayStruct {
    pub data: Json,
    pub shape: Vec<usize>,
    pub label: Option<String>,
    pub keys: Option<Box<UiuaArrayStruct>>,
    pub type_: String,
}

/// The wire value that a record stands for: the object of its five members.
pub open spec fn struct_json(s: UiuaArrayStruct) -> JsonView
    decreases s,
{
    JsonView::Object(
        seq![
            FieldView { name: name_data(), value: s.data@ },
            FieldView { name: name_shape(), value: shape_json(s.shape@) },
            FieldView { name: name_label(), value: label_json(label_view(s.label)) },
            FieldView {
                name: name_keys(),
                value: match s.keys {
                    Some(k) => struct_json(*k),
                    None => JsonView::Null,
                },
            },
            FieldView { name: name_kind(), value: JsonView::Text(s.type_@) },
        ],
    )
}

impl UiuaArrayStruct {
    /// The wire value that the record stands for.
    pub fn into_json(self) -> (r: Json)
        ensures
            r@ == struct_json(self),
        decreases self,
    {
        let shape = encode_shape(&self.shape);
        let label = encode_label(&self.label);
        let keys = match self.keys {
            Some(k) => (*k).into_json(),
            None => Json::Null,
        };
        let r = wire_object(self.data, shape, label, keys, self.type_.as_str());
        assert(r@->Object_0 =~= struct_json(self)->Object_0);
        r
    }
}

impl UiuaValue {
    /// Decodes a wire value whose members are already told apart.
    pub fn from_struct(array: UiuaArrayStruct) -> (r: Result<UiuaValue, DecodeError>)
        ensures
            result_view(r) == decode_spec(struct_json(array)),
            r matches Ok(value) ==> value@.wf(),
    {
        let j = array.into_json();
        decode(&j)
    }
}

} // verus!
