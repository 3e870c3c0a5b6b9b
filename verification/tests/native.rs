use uiua::{Array, Boxed, Complex, Uiua, Value};
use uiua_bridge::codec::decode;
use uiua_bridge::native::{encode_native, from_native};
use uiua_bridge::value::UiuaValue;

fn doubles(bits: &[u64]) -> Vec<f64> {
    bits.iter().map(|b| f64::from_bits(*b)).collect()
}

#[test]
fn byte_array_keeps_kind_shape_and_cells() {
    let native = Value::Byte(Array::new([2usize, 2], [1u8, 2, 3, 4].as_slice()));
    match from_native(&native) {
        UiuaValue::Byte(a) => {
            assert_eq!(a.data, vec![1, 2, 3, 4]);
            assert_eq!(a.shape, vec![2, 2]);
            assert!(a.label.is_none());
            assert!(a.keys.is_none());
        }
        other => panic!("unexpected kind: {:?}", other),
    }
}

#[test]
fn numbers_come_out_as_their_bit_patterns() {
    let native = Value::Num(Array::new(3usize, [1.5, -0.0, f64::INFINITY].as_slice()));
    match from_native(&native) {
        UiuaValue::Num(a) => {
            assert_eq!(a.data, vec![1.5f64.to_bits(), (-0.0f64).to_bits(), f64::INFINITY.to_bits()]);
            assert_eq!(a.shape, vec![3]);
        }
        other => panic!("unexpected kind: {:?}", other),
    }
}

#[test]
fn scalar_has_an_empty_shape() {
    match from_native(&Value::from(2.5)) {
        UiuaValue::Num(a) => {
            assert_eq!(doubles(&a.data), vec![2.5]);
            assert!(a.shape.is_empty());
        }
        other => panic!("unexpected kind: {:?}", other),
    }
}

#[test]
fn characters_and_label_come_out() {
    let mut native = Value::from("héllo");
    native.meta_mut().label = Some("greeting".into());
    match from_native(&native) {
        UiuaValue::Char(a) => {
            assert_eq!(a.data, vec!['h', 'é', 'l', 'l', 'o']);
            assert_eq!(a.shape, vec![5]);
            assert_eq!(a.label.as_deref(), Some("greeting"));
        }
        other => panic!("unexpected kind: {:?}", other),
    }
}

#[test]
fn complex_cells_are_pairs_of_real_and_imaginary() {
    let native = Value::Complex(Array::new(2usize, [Complex::new(1.0, 2.0), Complex::new(-3.0, 0.5)].as_slice()));
    match from_native(&native) {
        UiuaValue::Complex(a) => {
            let pairs: Vec<(f64, f64)> =
                a.data.iter().map(|(re, im)| (f64::from_bits(*re), f64::from_bits(*im))).collect();
            assert_eq!(pairs, vec![(1.0, 2.0), (-3.0, 0.5)]);
        }
        other => panic!("unexpected kind: {:?}", other),
    }
}

#[test]
fn boxes_nest_to_depth_three() {
    let innermost = Value::from("x");
    let middle = Value::Box(Array::new(1usize, [Boxed(innermost)].as_slice()));
    let outer = Value::Box(Array::new(2usize, [Boxed(middle), Boxed(Value::from(7.0))].as_slice()));
    let value = from_native(&outer);
    let UiuaValue::Box(outer) = value else { panic!("not a box") };
    assert_eq!(outer.shape, vec![2]);
    let UiuaValue::Box(middle) = &*outer.data[0] else { panic!("not a box") };
    let UiuaValue::Char(innermost) = &*middle.data[0] else { panic!("not characters") };
    assert_eq!(innermost.data, vec!['x']);
    let UiuaValue::Num(seven) = &*outer.data[1] else { panic!("not a number") };
    assert_eq!(doubles(&seven.data), vec![7.0]);
}

#[test]
fn map_keys_come_out_in_insertion_order() {
    let mut values = Value::Num(Array::new(3usize, [10.0, 20.0, 30.0].as_slice()));
    let keys = Value::from("cab");
    values.map(keys, &Uiua::with_safe_sys()).unwrap();
    match from_native(&values) {
        UiuaValue::Num(a) => {
            assert_eq!(doubles(&a.data), vec![10.0, 20.0, 30.0]);
            match a.keys.as_deref() {
                Some(UiuaValue::Char(keys)) => {
                    assert_eq!(keys.data, vec!['c', 'a', 'b']);
                    assert_eq!(keys.shape, vec![3]);
                }
                other => panic!("unexpected keys: {:?}", other),
            }
        }
        other => panic!("unexpected kind: {:?}", other),
    }
}

#[test]
fn value_without_keys_has_none() {
    match from_native(&Value::from(1.0)) {
        UiuaValue::Num(a) => assert!(a.keys.is_none()),
        other => panic!("unexpected kind: {:?}", other),
    }
}

#[test]
fn interpreter_value_survives_the_wire() {
    let mut native = Value::Num(Array::new([2usize, 1], [0.25, f64::NAN].as_slice()));
    native.meta_mut().label = Some("n".into());
    let decoded = decode(&encode_native(&native)).unwrap();
    match decoded {
        UiuaValue::Num(a) => {
            assert_eq!(a.data, vec![0.25f64.to_bits(), f64::NAN.to_bits()]);
            assert_eq!(a.shape, vec![2, 1]);
            assert_eq!(a.label.as_deref(), Some("n"));
            assert!(a.keys.is_none());
        }
        other => panic!("unexpected kind: {:?}", other),
    }
}
