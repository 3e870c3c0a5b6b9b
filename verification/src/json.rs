use vstd::prelude::*;

verus! {

/// A number as the wire carries it: an unsigned or signed integer, or a
/// double held as its IEEE-754 bit pattern.
#[derive(Clone, Copy, Debug, PartialEq, Eq, Structural)]
pub enum JsonNumber {
    Unsigned(u64),
    Signed(i64),
    Float(u64),
}

/// One member of an object: a name and its value.
#[derive(Debug)]
pub struct Field {
    pub name: String,
    pub value: Json,
}

/// A structured value as it crosses the boundary.
#[derive(Debug)]
pub enum Json {
    Null,
    Bool(bool),
    Number(JsonNumber),
    Text(String),
    Array(Vec<Json>),
    Object(Vec<Field>),
}

/// The mathematical model of one object member.
pub struct FieldView {
    pub name: Seq<char>,
    pub value: JsonView,
}

/// The mathematical model of a [`Json`] value.
pub enum JsonView {
    Null,
    Bool(bool),
    Number(JsonNumber),
    Text(Seq<char>),
    Array(Seq<JsonView>),
    Object(Seq<FieldView>),
}

/// The model of a value: texts as their characters, arrays and objects as
/// sequences of models.
pub open spec fn json_model(j: Json) -> JsonView
    decreases j,
{
    match j {
        Json::Null => JsonView::Null,
        Json::Bool(b) => JsonView::Bool(b),
        Json::Number(n) => JsonView::Number(n),
        Json::Text(s) => JsonView::Text(s@),
        Json::Array(items) => JsonView::Array(
            Seq::new(
                items@.len(),
                |i: int|
                    if 0 <= i < items@.len() {
                        json_model(items@[i])
                    } else {
                        JsonView::Null
                    },
            ),
        ),
        Json::Object(fields) => JsonView::Object(
            Seq::new(
                fields@.len(),
                |i: int|
                    if 0 <= i < fields@.len() {
                        FieldView {
                            name: fields@[i].name@,
                            value: json_model(fields@[i].value),
                        }
                    } else {
                        FieldView { name: Seq::empty(), value: JsonView::Null }
                    },
            ),
        ),
    }
}

impl View for Field {
    type V = FieldView;

    open spec fn view(&self) -> FieldView {
        FieldView { name: self.name@, value: json_model(self.value) }
    }
}

impl View for Json {
    type V = JsonView;

    open spec fn view(&self) -> JsonView {
        json_model(*self)
    }
}

/// The models of the members of an object, in order.
pub open spec fn fields_view(fields: Seq<Field>) -> Seq<FieldView> {
    Seq::new(fields.len(), |i: int| fields[i]@)
}

/// The models of the entries of an array, in order.
pub open spec fn items_view(items: Seq<Json>) -> Seq<JsonView> {
    Seq::new(items.len(), |i: int| items[i]@)
}

/// An object's model is the object of its members' models.
pub proof fn lemma_object_view(fields: Vec<Field>)
    ensures
        Json::Object(fields)@ == JsonView::Object(fields_view(fields@)),
{
    assert(Json::Object(fields)@->Object_0 =~= fields_view(fields@));
}

/// An array's model is the array of its entries' models.
pub proof fn lemma_array_view(items: Vec<Json>)
    ensures
        Json::Array(items)@ == JsonView::Array(items_view(items@)),
{
    assert(Json::Array(items)@->Array_0 =~= items_view(items@));
}

#[verifier::external_type_specification]
#[verifier::external_body]
pub struct ExSerdeValue(serde_json::Value);

#[verifier::external_type_specification]
#[verifier::external_body]
pub struct ExSerdeNumber(serde_json::Number);

/// What a `serde_json` value holds: a text as its characters, a number as
/// [`number_model`] has it, an array as its entries' models, an object as
/// its members' names and models, in the order in which the object gives
/// its members.
pub uninterp spec fn serde_model(v: serde_json::Value) -> JsonView;

/// What a `serde_json` number holds: an integer that is not negative as
/// unsigned, a negative integer as signed, any other number as the bit
/// pattern of its double.
pub uninterp spec fn number_model(n: serde_json::Number) -> JsonNumber;

/// One layer of a `serde_json` value, what lies below still as `serde_json`
/// has it.
pub enum RawJson {
    Null,
    Bool(bool),
    Number(serde_json::Number),
    Text(String),
    Array(Vec<serde_json::Value>),
    Object(Vec<(String, serde_json::Value)>),
}

impl RawJson {
    /// The layer with the models of what lies below.
    pub open spec fn model(self) -> JsonView {
        match self {
            RawJson::Null => JsonView::Null,
            RawJson::Bool(b) => JsonView::Bool(b),
            RawJson::Number(n) => JsonView::Number(number_model(n)),
            RawJson::Text(s) => JsonView::Text(s@),
            RawJson::Array(items) => JsonView::Array(
                Seq::new(items@.len(), |i: int| serde_model(items@[i])),
            ),
            RawJson::Object(members) => JsonView::Object(
                Seq::new(
                    members@.len(),
                    |i: int| FieldView { name: members@[i].0@, value: serde_model(members@[i].1) },
                ),
            ),
        }
    }
}

/// Tells the variants of `serde_json::Value` apart and hands out what the
/// variant holds: the entries of an array and the members of an object in
/// their order.
#[verifier::external_body]
fn peel_json(v: &serde_json::Value) -> (r: RawJson)
    ensures
        r.model() == serde_model(*v),
{
    match v {
        serde_json::Value::Null => RawJson::Null,
        serde_json::Value::Bool(b) => RawJson::Bool(*b),
        serde_json::Value::Number(n) => RawJson::Number(n.clone()),
        serde_json::Value::String(s) => RawJson::Text(s.clone()),
        serde_json::Value::Array(items) => RawJson::Array(items.clone()),
        serde_json::Value::Object(map) => RawJson::Object(
            map.iter().map(|(k, v)| (k.clone(), v.clone())).collect(),
        ),
    }
}

/// Reads a `serde_json::Number` by `as_u64`, `as_i64` and `as_f64`, in this
/// order: the first that answers gives the number.
#[verifier::external_body]
fn peel_number(n: &serde_json::Number) -> (r: JsonNumber)
    ensures
        r == number_model(*n),
{
    match (n.as_u64(), n.as_i64(), n.as_f64()) {
        (Some(u), _, _) => JsonNumber::Unsigned(u),
        (_, Some(i), _) => JsonNumber::Signed(i),
        (_, _, x) => JsonNumber::Float(x.map(|x| x.to_bits()).unwrap_or_default()),
    }
}

impl Json {
    /// The value that a `serde_json` value holds.
    pub fn from_serde(v: &serde_json::Value) -> (r: Json)
        ensures
            r@ == serde_model(*v),
        decreases serde_model(*v),
    {
        match peel_json(v) {
            RawJson::Null => Json::Null,
            RawJson::Bool(b) => Json::Bool(b),
            RawJson::Number(n) => Json::Number(peel_number(&n)),
            RawJson::Text(s) => Json::Text(s),
            RawJson::Array(raw) => {
                let mut items: Vec<Json> = Vec::new();
                let mut i: usize = 0;
                while i < raw.len()
                    invariant
                        i <= raw@.len(),
                        items@.len() == i,
                        serde_model(*v) == RawJson::Array(raw).model(),
                        forall|k: int| 0 <= k < i ==> (#[trigger] items@[k])@ == serde_model(raw@[k]),
                    decreases raw@.len() - i,
                {
                    assert(serde_model(*v)->Array_0[i as int] == serde_model(raw@[i as int]));
                    items.push(Json::from_serde(&raw[i]));
                    i += 1;
                }
                proof {
                    lemma_array_view(items);
                    assert(items_view(items@) =~= serde_model(*v)->Array_0);
                }
                Json::Array(items)
            },
            RawJson::Object(raw) => {
                let mut fields: Vec<Field> = Vec::new();
                let mut i: usize = 0;
                while i < raw.len()
                    invariant
                        i <= raw@.len(),
                        fields@.len() == i,
                        serde_model(*v) == RawJson::Object(raw).model(),
                        forall|k: int|
                            0 <= k < i ==> (#[trigger] fields@[k])@ == (FieldView {
                                name: raw@[k].0@,
                                value: serde_model(raw@[k].1),
                            }),
                    decreases raw@.len() - i,
                {
                    assert(serde_model(*v)->Object_0[i as int].value == serde_model(
                        raw@[i as int].1,
                    ));
                    let value = Json::from_serde(&raw[i].1);
                    fields.push(Field { name: raw[i].0.clone(), value });
                    i += 1;
                }
                proof {
                    lemma_object_view(fields);
                    assert(fields_view(fields@) =~= serde_model(*v)->Object_0);
                }
                Json::Object(fields)
            },
        }
    }
}

} // verus!
