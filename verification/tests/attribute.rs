use newrelic_telemetry::attribute::{Attributes, Value};

#[test]
fn into_value() {
    // Should be able to use Value::from or .into() to create Values
    assert_eq!(Value::Int(-5), Value::from(-5));
    assert_eq!(Value::Int(-5), (-5 as i32).into());

    // cast needed because integer types default to i32
    assert_eq!(Value::UInt(5), Value::from(5 as u64));
    assert_eq!(Value::UInt(5), (5 as u64).into());

    assert_eq!(Value::Str("root".to_string()), Value::from("root"));
    assert_eq!(Value::Str("root".to_string()), "root".into());

    assert_eq!(Value::Bool(true), Value::from(true));
    assert_eq!(Value::Bool(true), true.into());
}

#[test]
fn into_value_wide() {
    assert_eq!(Value::Int128(-10), Value::from(-10i128));
    assert_eq!(Value::UInt128(50), Value::from(50u128));
    assert_eq!(Value::Int(-5), Value::from(-5i64));
    assert_eq!(Value::UInt(5), Value::from(5u32));
    assert_eq!(Value::Int(i32::MIN as i64), Value::from(i32::MIN));
    assert_eq!(Value::UInt(u32::MAX as u64), Value::from(u32::MAX));
}

#[test]
fn value_float_bits() {
    let v = Value::Float(3.14159f64.to_bits());

    assert_eq!(v, Value::Float(3.14159f64.to_bits()));
    assert_ne!(v, Value::Float(3.0f64.to_bits()));
    assert_eq!(v.clone(), v);
}

#[test]
fn attributes_insert_and_get() {
    let mut attributes = Attributes::new();
    assert!(attributes.is_empty());
    assert_eq!(attributes.len(), 0);
    assert_eq!(attributes.get("a"), None);

    attributes.insert("a", Value::Int(1));
    attributes.insert("b", Value::Bool(true));
    assert_eq!(attributes.len(), 2);
    assert_eq!(attributes.get("a"), Some(&Value::Int(1)));
    assert_eq!(attributes.get("b"), Some(&Value::Bool(true)));
    assert_eq!(attributes.get("c"), None);

    attributes.insert("a", Value::Str("one".to_string()));
    assert_eq!(attributes.len(), 2);
    assert_eq!(attributes.get("a"), Some(&Value::Str("one".to_string())));
    assert_eq!(attributes.get("b"), Some(&Value::Bool(true)));
    assert!(!attributes.is_empty());
}

#[test]
fn attributes_with_and_duplicate() {
    let attributes = Attributes::new()
        .with("k", Value::UInt(1))
        .with("k", Value::UInt(2))
        .with("l", Value::UInt(3));

    assert_eq!(attributes.len(), 2);
    assert_eq!(attributes.get("k"), Some(&Value::UInt(2)));

    let copy = attributes.duplicate();
    assert_eq!(copy, attributes);
    assert_eq!(copy.get("l"), Some(&Value::UInt(3)));
}

#[test]
fn attributes_equal_in_any_order() {
    let a = Attributes::new()
        .with("one", Value::Int(1))
        .with("two", Value::Str("2".to_string()));
    let b = Attributes::new()
        .with("two", Value::Str("2".to_string()))
        .with("one", Value::Int(1));

    assert_eq!(a, b);
    assert_ne!(a, Attributes::new().with("one", Value::Int(1)));
    assert_ne!(
        a,
        Attributes::new()
            .with("one", Value::Int(1))
            .with("two", Value::Str("3".to_string()))
    );
    assert_ne!(
        a,
        Attributes::new()
            .with("one", Value::Int(1))
            .with("three", Value::Str("2".to_string()))
    );
    assert_ne!(Value::Int(1), Value::UInt(1));
    assert_eq!(Attributes::new(), Attributes::new());
}

#[test]
fn attributes_entry() {
    let attributes = Attributes::new()
        .with("b", Value::Int(1))
        .with("a", Value::Int(2))
        .with("b", Value::Int(3));

    assert_eq!(attributes.entry(0), Some(("b", &Value::Int(3))));
    assert_eq!(attributes.entry(1), Some(("a", &Value::Int(2))));
    assert_eq!(attributes.entry(2), None);
}
