use ironwood::StringId;
use ironwood::Value;
use ironwood::ValueType;

#[test]
fn test_value_types() {
    // Symbol
    let sym = Value::Symbol(StringId::new(0));
    assert_eq!(sym.value_type(), ValueType::Symbol);
    assert!(sym.is_symbol());
    assert!(!sym.is_string());
    assert_eq!(sym.as_symbol(), Some(StringId::new(0)));
    assert_eq!(sym.as_string(), None);

    // String
    let s = Value::String(StringId::new(1));
    assert_eq!(s.value_type(), ValueType::String);
    assert!(s.is_string());
    assert!(!s.is_symbol());

    // Integer
    let i = Value::Integer(42);
    assert_eq!(i.value_type(), ValueType::Integer);
    assert!(i.is_integer());
    assert_eq!(i.as_integer(), Some(42));

    // Float
    let f = Value::Float((40.5f64).to_bits());
    assert_eq!(f.value_type(), ValueType::Float);
    assert!(f.is_float());
    assert_eq!(f.as_float(), Some((40.5f64).to_bits()));

    // String list
    let sl = vec![StringId::new(0), StringId::new(1)];
    let string_list = Value::StringList(sl.clone());
    assert_eq!(string_list.value_type(), ValueType::StringList);
    assert!(string_list.is_string_list());
    assert_eq!(string_list.as_string_list(), Some(&sl));

    // Integer list
    let il = vec![1, 2, 3];
    let int_list = Value::IntegerList(il.clone());
    assert_eq!(int_list.value_type(), ValueType::IntegerList);
    assert!(int_list.is_integer_list());
    assert_eq!(int_list.as_integer_list(), Some(&il));
}

#[test]
fn float_bit_equality() {
    let nan = f64::NAN.to_bits();
    assert_eq!(Value::Float(nan), Value::Float(nan));
    let zero = (0.0f64).to_bits();
    let neg_zero = (-0.0f64).to_bits();
    assert_ne!(Value::Float(zero), Value::Float(neg_zero));
    assert_ne!(Value::Float((1.0f64).to_bits()), Value::Float((2.0f64).to_bits()));
    assert_eq!(Value::Float((1.5f64).to_bits()), Value::Float((1.5f64).to_bits()));
}

#[test]
fn exactly_one_predicate_holds() {
    let values = vec![
        Value::Symbol(StringId::new(3)),
        Value::String(StringId::new(4)),
        Value::Integer(-7),
        Value::Float((2.25f64).to_bits()),
        Value::StringList(vec![StringId::new(5)]),
        Value::IntegerList(vec![9, 8]),
    ];
    let expected = vec![
        ValueType::Symbol,
        ValueType::String,
        ValueType::Integer,
        ValueType::Float,
        ValueType::StringList,
        ValueType::IntegerList,
    ];
    for (v, t) in values.iter().zip(expected.iter()) {
        assert_eq!(v.value_type(), *t);
        let mut holds = 0;
        if v.is_symbol() {
            holds += 1;
        }
        if v.is_string() {
            holds += 1;
        }
        if v.is_integer() {
            holds += 1;
        }
        if v.is_float() {
            holds += 1;
        }
        if v.is_string_list() {
            holds += 1;
        }
        if v.is_integer_list() {
            holds += 1;
        }
        assert_eq!(holds, 1);
    }
}

#[test]
fn accessors_mismatch_gives_none() {
    let i = Value::Integer(5);
    assert_eq!(i.as_symbol(), None);
    assert_eq!(i.as_string(), None);
    assert_eq!(i.as_float(), None);
    assert_eq!(i.as_string_list(), None);
    assert_eq!(i.as_integer_list(), None);
    let f = Value::Float((3.0f64).to_bits());
    assert_eq!(f.as_integer(), None);
}

#[test]
fn symbol_and_string_are_distinct_roles() {
    let sym = Value::Symbol(StringId::new(2));
    let s = Value::String(StringId::new(2));
    assert_ne!(sym, s);
}

#[test]
fn list_equality_is_elementwise() {
    let a = Value::StringList(vec![StringId::new(0), StringId::new(1)]);
    let b = Value::StringList(vec![StringId::new(0), StringId::new(1)]);
    let c = Value::StringList(vec![StringId::new(1), StringId::new(0)]);
    let d = Value::StringList(vec![StringId::new(0)]);
    assert_eq!(a, b);
    assert_ne!(a, c);
    assert_ne!(a, d);
    let x = Value::IntegerList(vec![1, 2]);
    let y = Value::IntegerList(vec![1, 2]);
    let z = Value::IntegerList(vec![2, 1]);
    assert_eq!(x, y);
    assert_ne!(x, z);
}

#[test]
fn value_clone_is_equal() {
    let v = Value::StringList(vec![StringId::new(0), StringId::new(9)]);
    assert_eq!(v.clone(), v);
    let f = Value::Float(f64::NAN.to_bits());
    assert_eq!(f.clone(), f);
}
