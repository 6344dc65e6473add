use rsylla::value::{
    cql_value_to_py, py_dict_to_values, py_to_cql_value, CqlDuration, CqlValue, HostValue,
};

fn text(s: &str) -> HostValue {
    HostValue::Text(s.to_string())
}

fn round_trip(v: HostValue) -> HostValue {
    let c = py_to_cql_value(&v).expect("encodable");
    cql_value_to_py(&c)
}

#[test]
fn round_trip_scalars() {
    let cases = vec![
        HostValue::Bool(true),
        HostValue::Bool(false),
        HostValue::Int(0),
        HostValue::Int(-7),
        HostValue::Int(2147483647),
        HostValue::Int(-2147483648),
        HostValue::Int(2147483648),
        HostValue::Int(i64::MAX),
        HostValue::Int(i64::MIN),
        text(""),
        text("héllo"),
        HostValue::Bytes(vec![]),
        HostValue::Bytes(vec![0, 1, 255]),
    ];
    for v in cases {
        let expected = format!("{:?}", v);
        let back = round_trip(v);
        assert_eq!(format!("{:?}", back), expected);
    }
}

#[test]
fn integers_pick_narrow_or_wide_form() {
    assert_eq!(py_to_cql_value(&HostValue::Int(5)), Ok(CqlValue::Int(5)));
    assert_eq!(py_to_cql_value(&HostValue::Int(2147483647)), Ok(CqlValue::Int(2147483647)));
    assert_eq!(py_to_cql_value(&HostValue::Int(-2147483648)), Ok(CqlValue::Int(-2147483648)));
    assert_eq!(py_to_cql_value(&HostValue::Int(2147483648)), Ok(CqlValue::BigInt(2147483648)));
    assert_eq!(py_to_cql_value(&HostValue::Int(-2147483649)), Ok(CqlValue::BigInt(-2147483649)));
}

#[test]
fn floats_keep_their_width() {
    let single = 1.5f32.to_bits();
    let double = 0.1f64.to_bits();
    assert_eq!(py_to_cql_value(&HostValue::Single(single)), Ok(CqlValue::Float(single)));
    assert_eq!(py_to_cql_value(&HostValue::Double(double)), Ok(CqlValue::Double(double)));
    assert_eq!(cql_value_to_py(&CqlValue::Float(single)), HostValue::Single(single));
}

#[test]
fn null_encodes_to_empty_and_back() {
    assert_eq!(py_to_cql_value(&HostValue::Null), Ok(CqlValue::Empty));
    assert_eq!(cql_value_to_py(&CqlValue::Empty), HostValue::Null);
}

#[test]
fn nested_collections_encode_recursively() {
    let v = HostValue::List(vec![
        HostValue::Int(1),
        HostValue::Dict(vec![(text("k"), HostValue::Int(3000000000))]),
    ]);
    let expected = CqlValue::List(vec![
        CqlValue::Int(1),
        CqlValue::MapOf(vec![(CqlValue::Text("k".to_string()), CqlValue::BigInt(3000000000))]),
    ]);
    assert_eq!(py_to_cql_value(&v), Ok(expected));
}

#[test]
fn unsupported_type_is_named() {
    let v = HostValue::List(vec![HostValue::Int(1), HostValue::Other("set".to_string())]);
    let err = py_to_cql_value(&v).unwrap_err();
    assert_eq!(err.host_type, "set");
    assert_eq!(err.message(), "Cannot convert Python type set to CQL value");
}

#[test]
fn first_unsupported_value_is_named() {
    let v = HostValue::Dict(vec![
        (text("a"), HostValue::Int(1)),
        (HostValue::Other("tuple".to_string()), HostValue::Other("set".to_string())),
        (text("b"), HostValue::Other("object".to_string())),
    ]);
    assert_eq!(py_to_cql_value(&v).unwrap_err().host_type, "tuple");
    let w = HostValue::List(vec![
        HostValue::List(vec![HostValue::Int(2), HostValue::Other("frozenset".to_string())]),
        HostValue::Other("object".to_string()),
    ]);
    assert_eq!(py_to_cql_value(&w).unwrap_err().host_type, "frozenset");
}

#[test]
fn decode_scalar_variants() {
    assert_eq!(cql_value_to_py(&CqlValue::SmallInt(-3)), HostValue::Int(-3));
    assert_eq!(cql_value_to_py(&CqlValue::TinyInt(7)), HostValue::Int(7));
    assert_eq!(cql_value_to_py(&CqlValue::Counter(42)), HostValue::Int(42));
    assert_eq!(cql_value_to_py(&CqlValue::Timestamp(1700000000000)), HostValue::Int(1700000000000));
    assert_eq!(cql_value_to_py(&CqlValue::Date(2147483648)), HostValue::Int(2147483648));
    assert_eq!(cql_value_to_py(&CqlValue::Time(123)), HostValue::Int(123));
    assert_eq!(cql_value_to_py(&CqlValue::Ascii("a".to_string())), text("a"));
    let id = "123e4567-e89b-12d3-a456-426614174000";
    assert_eq!(cql_value_to_py(&CqlValue::Uuid(id.to_string())), text(id));
    assert_eq!(cql_value_to_py(&CqlValue::Inet("127.0.0.1".to_string())), text("127.0.0.1"));
    assert_eq!(cql_value_to_py(&CqlValue::Varint("12".to_string())), text("12"));
}

#[test]
fn decode_duration_to_record() {
    let d = CqlValue::Duration(CqlDuration { months: 1, days: -2, nanoseconds: 3 });
    let expected = HostValue::Dict(vec![
        (text("months"), HostValue::Int(1)),
        (text("days"), HostValue::Int(-2)),
        (text("nanoseconds"), HostValue::Int(3)),
    ]);
    assert_eq!(cql_value_to_py(&d), expected);
}

#[test]
fn decode_tuple_keeps_null_holes() {
    let t = CqlValue::Tuple(vec![Some(CqlValue::Int(1)), None, Some(CqlValue::Boolean(true))]);
    let expected = HostValue::List(vec![HostValue::Int(1), HostValue::Null, HostValue::Bool(true)]);
    assert_eq!(cql_value_to_py(&t), expected);
}

#[test]
fn decode_udt_to_named_mapping() {
    let u = CqlValue::UserDefinedType {
        keyspace: "ks".to_string(),
        udt_name: "address".to_string(),
        fields: vec![
            ("street".to_string(), Some(CqlValue::Text("Main".to_string()))),
            ("zip".to_string(), None),
        ],
    };
    let expected = HostValue::Dict(vec![(text("street"), text("Main")), (text("zip"), HostValue::Null)]);
    assert_eq!(cql_value_to_py(&u), expected);
}

#[test]
fn decode_set_and_map() {
    let s = CqlValue::SetOf(vec![CqlValue::Int(1), CqlValue::Int(2)]);
    assert_eq!(cql_value_to_py(&s), HostValue::List(vec![HostValue::Int(1), HostValue::Int(2)]));
    let m = CqlValue::MapOf(vec![(CqlValue::Text("a".to_string()), CqlValue::BigInt(9))]);
    assert_eq!(cql_value_to_py(&m), HostValue::Dict(vec![(text("a"), HostValue::Int(9))]));
}

#[test]
fn named_values_encode_in_order() {
    let d = vec![("b".to_string(), HostValue::Int(1)), ("a".to_string(), text("x"))];
    let out = py_dict_to_values(Some(&d)).unwrap();
    assert_eq!(
        out,
        vec![("b".to_string(), CqlValue::Int(1)), ("a".to_string(), CqlValue::Text("x".to_string()))]
    );
    assert_eq!(py_dict_to_values(None).unwrap(), vec![]);
    let bad = vec![("k".to_string(), HostValue::Other("object".to_string()))];
    assert_eq!(py_dict_to_values(Some(&bad)).unwrap_err().host_type, "object");
}
