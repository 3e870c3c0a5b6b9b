use uiua_bridge::codec::{decode, encode, DecodeError, WireField};
use uiua_bridge::json::{Field, Json, JsonNumber};
use uiua_bridge::value::{UiuaArray, UiuaValue};

fn member(name: &str, value: Json) -> Field {
    Field { name: name.to_string(), value }
}

fn wire(kind: &str, data: Json, shape: Vec<u64>) -> Json {
    Json::Object(vec![
        member("type", Json::Text(kind.to_string())),
        member("data", data),
        member(
            "shape",
            Json::Array(shape.into_iter().map(|d| Json::Number(JsonNumber::Unsigned(d))).collect()),
        ),
    ])
}

#[test]
fn char_value_decodes_to_one_cell_per_code_point() {
    let value = decode(&wire("char", Json::Text("ab".to_string()), vec![2])).unwrap();
    match value {
        UiuaValue::Char(array) => {
            assert_eq!(array.data, vec!['a', 'b']);
            assert_eq!(array.shape, vec![2]);
            assert!(array.label.is_none());
            assert!(array.keys.is_none());
        }
        other => panic!("unexpected kind: {:?}", other),
    }
}

#[test]
fn char_value_with_too_few_code_points_is_rejected() {
    let result = decode(&wire("char", Json::Text("ab".to_string()), vec![3]));
    assert!(matches!(result, Err(DecodeError::ShapeMismatch)));
}

#[test]
fn unknown_kind_is_rejected() {
    let result = decode(&wire("text", Json::Text("ab".to_string()), vec![2]));
    assert!(matches!(result, Err(DecodeError::UnknownKind)));
}

#[test]
fn non_numeric_entry_under_number_names_the_data() {
    let data = Json::Array(vec![Json::Number(JsonNumber::Unsigned(1)), Json::Bool(true)]);
    let result = decode(&wire("number", data, vec![2]));
    assert!(matches!(result, Err(DecodeError::InvalidField(WireField::Data))));
}

#[test]
fn byte_value_comes_back_as_bytes() {
    let value = UiuaValue::Byte(UiuaArray {
        data: vec![0, 1, 255],
        shape: vec![3],
        label: Some("raw".to_string()),
        keys: None,
    });
    match decode(&encode(&value)).unwrap() {
        UiuaValue::Byte(array) => {
            assert_eq!(array.data, vec![0, 1, 255]);
            assert_eq!(array.shape, vec![3]);
            assert_eq!(array.label.as_deref(), Some("raw"));
        }
        other => panic!("unexpected kind: {:?}", other),
    }
}

fn unsigned(n: u64) -> Json {
    Json::Number(JsonNumber::Unsigned(n))
}

fn float(x: f64) -> Json {
    Json::Number(JsonNumber::Float(x.to_bits()))
}

fn lookup<'a>(object: &'a Json, name: &str) -> &'a Json {
    match object {
        Json::Object(fields) => &fields.iter().find(|f| f.name == name).unwrap().value,
        other => panic!("not an object: {:?}", other),
    }
}

fn same(left: &UiuaValue, right: &UiuaValue) -> bool {
    fn meta<T>(l: &UiuaArray<T>, r: &UiuaArray<T>) -> bool {
        l.shape == r.shape
            && l.label == r.label
            && match (&l.keys, &r.keys) {
                (None, None) => true,
                (Some(a), Some(b)) => same(a, b),
                _ => false,
            }
    }
    match (left, right) {
        (UiuaValue::Byte(l), UiuaValue::Byte(r)) => l.data == r.data && meta(l, r),
        (UiuaValue::Num(l), UiuaValue::Num(r)) => l.data == r.data && meta(l, r),
        (UiuaValue::Char(l), UiuaValue::Char(r)) => l.data == r.data && meta(l, r),
        (UiuaValue::Complex(l), UiuaValue::Complex(r)) => l.data == r.data && meta(l, r),
        (UiuaValue::Box(l), UiuaValue::Box(r)) => {
            l.data.len() == r.data.len()
                && l.data.iter().zip(r.data.iter()).all(|(a, b)| same(a, b))
                && meta(l, r)
        }
        _ => false,
    }
}

fn boxed(cells: Vec<UiuaValue>, shape: Vec<usize>) -> UiuaValue {
    UiuaValue::Box(UiuaArray {
        data: cells.into_iter().map(Box::new).collect(),
        shape,
        label: None,
        keys: None,
    })
}

#[test]
fn number_value_round_trips() {
    let value = UiuaValue::Num(UiuaArray {
        data: vec![1.5f64.to_bits(), f64::NAN.to_bits(), (-0.0f64).to_bits(), 4.0f64.to_bits()],
        shape: vec![2, 2],
        label: Some("grid".to_string()),
        keys: None,
    });
    assert!(same(&decode(&encode(&value)).unwrap(), &value));
}

#[test]
fn char_value_round_trips() {
    let value = UiuaValue::Char(UiuaArray {
        data: vec!['h', 'é', '漢'],
        shape: vec![3],
        label: None,
        keys: None,
    });
    assert!(same(&decode(&encode(&value)).unwrap(), &value));
}

#[test]
fn complex_value_round_trips() {
    let value = UiuaValue::Complex(UiuaArray {
        data: vec![(1.0f64.to_bits(), 2.0f64.to_bits()), (0.5f64.to_bits(), (-1.0f64).to_bits())],
        shape: vec![2],
        label: None,
        keys: None,
    });
    assert!(same(&decode(&encode(&value)).unwrap(), &value));
}

#[test]
fn boxes_of_depth_three_round_trip() {
    let leaf = UiuaValue::Char(UiuaArray {
        data: vec!['x'],
        shape: vec![1],
        label: Some("leaf".to_string()),
        keys: None,
    });
    let scalar = UiuaValue::Num(UiuaArray {
        data: vec![7.0f64.to_bits()],
        shape: Vec::new(),
        label: None,
        keys: None,
    });
    let value = boxed(vec![boxed(vec![boxed(vec![leaf], vec![1])], vec![1]), scalar], vec![2]);
    assert!(same(&decode(&encode(&value)).unwrap(), &value));
}

#[test]
fn keys_round_trip_and_absence_stays_absence() {
    let keys = UiuaValue::Char(UiuaArray {
        data: vec!['a', 'b'],
        shape: vec![2],
        label: None,
        keys: None,
    });
    let value = UiuaValue::Num(UiuaArray {
        data: vec![1.0f64.to_bits(), 2.0f64.to_bits()],
        shape: vec![2],
        label: None,
        keys: Some(Box::new(keys)),
    });
    let wire = encode(&value);
    assert!(matches!(lookup(&wire, "label"), Json::Null));
    assert!(matches!(lookup(lookup(&wire, "keys"), "keys"), Json::Null));
    let back = decode(&wire).unwrap();
    assert!(same(&back, &value));
    match back {
        UiuaValue::Num(a) => {
            assert!(a.label.is_none());
            match a.keys.as_deref() {
                Some(UiuaValue::Char(k)) => assert!(k.keys.is_none() && k.label.is_none()),
                other => panic!("unexpected keys: {:?}", other),
            }
        }
        other => panic!("unexpected kind: {:?}", other),
    }
}

#[test]
fn encoded_value_has_the_five_members_in_order() {
    let value = UiuaValue::Byte(UiuaArray { data: vec![9], shape: vec![1], label: None, keys: None });
    match encode(&value) {
        Json::Object(fields) => {
            let names: Vec<&str> = fields.iter().map(|f| f.name.as_str()).collect();
            assert_eq!(names, vec!["data", "shape", "label", "keys", "type"]);
            assert!(matches!(&fields[4].value, Json::Text(t) if t == "byte"));
            assert!(matches!(&fields[0].value, Json::Array(items)
                if matches!(items[0], Json::Number(JsonNumber::Unsigned(9)))));
        }
        other => panic!("not an object: {:?}", other),
    }
}

#[test]
fn integers_under_number_are_read_as_doubles() {
    let data = Json::Array(vec![unsigned(3), Json::Number(JsonNumber::Signed(-2)), float(0.5)]);
    match decode(&wire("number", data, vec![3])).unwrap() {
        UiuaValue::Num(a) => {
            assert_eq!(a.data, vec![3.0f64.to_bits(), (-2.0f64).to_bits(), 0.5f64.to_bits()]);
        }
        other => panic!("unexpected kind: {:?}", other),
    }
}

#[test]
fn complex_pairs_decode() {
    let data = Json::Array(vec![
        Json::Array(vec![float(1.0), float(2.0)]),
        Json::Array(vec![unsigned(3), float(-4.0)]),
    ]);
    match decode(&wire("complex", data, vec![2])).unwrap() {
        UiuaValue::Complex(a) => assert_eq!(
            a.data,
            vec![(1.0f64.to_bits(), 2.0f64.to_bits()), (3.0f64.to_bits(), (-4.0f64).to_bits())]
        ),
        other => panic!("unexpected kind: {:?}", other),
    }
}

#[test]
fn complex_entry_that_is_no_pair_is_rejected() {
    let data = Json::Array(vec![Json::Array(vec![float(1.0)])]);
    let result = decode(&wire("complex", data, vec![1]));
    assert!(matches!(result, Err(DecodeError::InvalidField(WireField::Data))));
    let data = Json::Array(vec![Json::Array(vec![float(1.0), float(2.0), float(3.0)])]);
    let result = decode(&wire("complex", data, vec![1]));
    assert!(matches!(result, Err(DecodeError::InvalidField(WireField::Data))));
}

#[test]
fn nested_box_failure_names_the_data() {
    let bad = wire("char", Json::Text("ab".to_string()), vec![5]);
    let result = decode(&wire("box", Json::Array(vec![bad]), vec![1]));
    assert!(matches!(result, Err(DecodeError::InvalidField(WireField::Data))));
    let result = decode(&wire("box", Json::Array(vec![Json::Null]), vec![1]));
    assert!(matches!(result, Err(DecodeError::InvalidField(WireField::Data))));
}

#[test]
fn shape_and_data_must_agree() {
    let two = Json::Array(vec![float(1.0), float(2.0)]);
    assert!(matches!(decode(&wire("number", two, vec![3])), Err(DecodeError::ShapeMismatch)));
    let two = Json::Array(vec![float(1.0), float(2.0)]);
    assert!(matches!(decode(&wire("number", two, vec![2, 0])), Err(DecodeError::ShapeMismatch)));
    let none = Json::Array(Vec::new());
    assert!(decode(&wire("number", none, vec![u64::MAX, 0, u64::MAX])).is_ok());
    let one = Json::Array(vec![float(1.0)]);
    assert!(matches!(
        decode(&wire("number", one, vec![u64::MAX, u64::MAX])),
        Err(DecodeError::ShapeMismatch)
    ));
    let scalar = Json::Array(vec![float(1.0)]);
    assert!(decode(&wire("number", scalar, Vec::new())).is_ok());
    let empty = Json::Array(Vec::new());
    assert!(matches!(decode(&wire("number", empty, Vec::new())), Err(DecodeError::ShapeMismatch)));
}

#[test]
fn each_fault_has_its_error() {
    assert!(matches!(decode(&Json::Null), Err(DecodeError::NotAnObject)));
    let no_kind = Json::Object(vec![member("data", Json::Null)]);
    assert!(matches!(decode(&no_kind), Err(DecodeError::MissingField(WireField::Kind))));
    let odd_kind = Json::Object(vec![member("type", unsigned(1))]);
    assert!(matches!(decode(&odd_kind), Err(DecodeError::InvalidField(WireField::Kind))));
    let no_shape = Json::Object(vec![member("type", Json::Text("char".to_string()))]);
    assert!(matches!(decode(&no_shape), Err(DecodeError::MissingField(WireField::Shape))));
    let odd_shape = Json::Object(vec![
        member("type", Json::Text("char".to_string())),
        member("shape", Json::Array(vec![float(2.0)])),
    ]);
    assert!(matches!(decode(&odd_shape), Err(DecodeError::InvalidField(WireField::Shape))));
    let no_data = Json::Object(vec![
        member("type", Json::Text("char".to_string())),
        member("shape", Json::Array(Vec::new())),
    ]);
    assert!(matches!(decode(&no_data), Err(DecodeError::MissingField(WireField::Data))));
    let odd_label = Json::Object(vec![
        member("type", Json::Text("char".to_string())),
        member("shape", Json::Array(Vec::new())),
        member("data", Json::Text("a".to_string())),
        member("label", unsigned(1)),
    ]);
    assert!(matches!(decode(&odd_label), Err(DecodeError::InvalidField(WireField::Label))));
    let odd_keys = Json::Object(vec![
        member("type", Json::Text("char".to_string())),
        member("shape", Json::Array(Vec::new())),
        member("data", Json::Text("a".to_string())),
        member("keys", Json::Bool(false)),
    ]);
    assert!(matches!(decode(&odd_keys), Err(DecodeError::InvalidField(WireField::Keys))));
    let odd_text = wire("char", unsigned(1), vec![1]);
    assert!(matches!(decode(&odd_text), Err(DecodeError::InvalidField(WireField::Data))));
}

#[test]
fn errors_name_their_member() {
    assert_eq!(DecodeError::MissingField(WireField::Data).message(), "missing member: data");
    assert_eq!(DecodeError::InvalidField(WireField::Kind).message(), "invalid member: type");
    assert_eq!(DecodeError::InvalidField(WireField::Keys).message(), "invalid member: keys");
    assert_eq!(DecodeError::InvalidField(WireField::Label).message(), "invalid member: label");
    assert_eq!(DecodeError::UnknownKind.message(), "unknown kind in member: type");
    assert_eq!(DecodeError::NotAnObject.message(), "wire value is not an object");
    assert_eq!(
        DecodeError::ShapeMismatch.message(),
        "product of member shape is not the length of member data"
    );
    assert_eq!(DecodeError::ShapeMismatch.field(), Some(WireField::Shape));
    assert_eq!(DecodeError::NotAnObject.field(), None);
    assert_eq!(WireField::Shape.name(), "shape");
}

#[test]
fn bytes_of_shape_two_round_trip() {
    let value = UiuaValue::Byte(UiuaArray { data: vec![1, 2], shape: vec![2], label: None, keys: None });
    assert!(same(&decode(&encode(&value)).unwrap(), &value));
}

#[test]
fn empty_arrays_keep_their_kind() {
    let bytes = UiuaValue::Byte(UiuaArray { data: Vec::new(), shape: vec![0], label: None, keys: None });
    let numbers = UiuaValue::Num(UiuaArray { data: Vec::new(), shape: vec![0], label: None, keys: None });
    assert!(same(&decode(&encode(&bytes)).unwrap(), &bytes));
    assert!(same(&decode(&encode(&numbers)).unwrap(), &numbers));
    assert!(!same(&decode(&encode(&bytes)).unwrap(), &numbers));
}

#[test]
fn bytes_in_boxes_and_keys_round_trip() {
    let keys = UiuaValue::Byte(UiuaArray { data: vec![7], shape: vec![1], label: None, keys: None });
    let inner = UiuaValue::Byte(UiuaArray { data: vec![3, 4], shape: vec![2], label: None, keys: None });
    let value = UiuaValue::Box(UiuaArray {
        data: vec![Box::new(inner)],
        shape: vec![1],
        label: None,
        keys: Some(Box::new(keys)),
    });
    assert!(same(&decode(&encode(&value)).unwrap(), &value));
}

#[test]
fn byte_data_must_be_whole_numbers_up_to_255() {
    assert!(decode(&wire("byte", Json::Array(vec![unsigned(255)]), vec![1])).is_ok());
    let result = decode(&wire("byte", Json::Array(vec![unsigned(256)]), vec![1]));
    assert!(matches!(result, Err(DecodeError::InvalidField(WireField::Data))));
    let result = decode(&wire("byte", Json::Array(vec![float(1.0)]), vec![1]));
    assert!(matches!(result, Err(DecodeError::InvalidField(WireField::Data))));
    let result = decode(&wire("byte", Json::Array(vec![Json::Number(JsonNumber::Signed(-1))]), vec![1]));
    assert!(matches!(result, Err(DecodeError::InvalidField(WireField::Data))));
    let result = decode(&wire("byte", Json::Text("a".to_string()), vec![1]));
    assert!(matches!(result, Err(DecodeError::InvalidField(WireField::Data))));
}

#[test]
fn whole_numbers_under_number_stay_doubles() {
    let data = Json::Array(vec![unsigned(1), unsigned(2)]);
    assert!(matches!(decode(&wire("number", data, vec![2])), Ok(UiuaValue::Num(_))));
}
