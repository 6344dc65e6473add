use rsylla::params::{encode_named, py_dict_to_serialized_values, NamedParam};
use rsylla::session::batch_values;
use rsylla::value::HostValue;

fn text(s: &str) -> HostValue {
    HostValue::Text(s.to_string())
}

#[test]
fn integer_map_is_kept() {
    let m = HostValue::Dict(vec![(text("a"), HostValue::Int(1)), (text("b"), HostValue::Int(2))]);
    assert_eq!(
        encode_named(&m),
        Some(NamedParam::IntMap(vec![("a".to_string(), 1), ("b".to_string(), 2)]))
    );
}

#[test]
fn text_map_is_kept() {
    let m = HostValue::Dict(vec![(text("a"), text("x")), (text("b"), text("y"))]);
    assert_eq!(
        encode_named(&m),
        Some(NamedParam::TextMap(vec![
            ("a".to_string(), "x".to_string()),
            ("b".to_string(), "y".to_string())
        ]))
    );
}

#[test]
fn mixed_map_becomes_empty_integer_map() {
    let m = HostValue::Dict(vec![(text("a"), HostValue::Int(1)), (text("b"), text("y"))]);
    assert_eq!(encode_named(&m), Some(NamedParam::IntMap(vec![])));
}

#[test]
fn empty_map_is_an_empty_integer_map() {
    assert_eq!(encode_named(&HostValue::Dict(vec![])), Some(NamedParam::IntMap(vec![])));
}

#[test]
fn list_keeps_only_texts() {
    let l = HostValue::List(vec![text("a"), HostValue::Int(1), text("b"), HostValue::Null]);
    assert_eq!(
        encode_named(&l),
        Some(NamedParam::TextList(vec!["a".to_string(), "b".to_string()]))
    );
}

#[test]
fn keyed_scalars() {
    assert_eq!(encode_named(&HostValue::Null), Some(NamedParam::Null));
    assert_eq!(encode_named(&HostValue::Bool(true)), Some(NamedParam::Bool(true)));
    assert_eq!(encode_named(&HostValue::Int(-2147483648)), Some(NamedParam::Int(-2147483648)));
    assert_eq!(encode_named(&HostValue::Int(2147483648)), Some(NamedParam::BigInt(2147483648)));
    assert_eq!(encode_named(&text("s")), Some(NamedParam::Text("s".to_string())));
    assert_eq!(encode_named(&HostValue::Bytes(vec![9])), Some(NamedParam::Blob(vec![9])));
    assert_eq!(encode_named(&HostValue::Other("object".to_string())), None);
}

#[test]
fn serialized_values_keep_order_and_names() {
    let d = vec![("z".to_string(), HostValue::Int(1)), ("a".to_string(), text("v"))];
    let out = py_dict_to_serialized_values(Some(&d)).unwrap();
    assert_eq!(
        out,
        vec![
            ("z".to_string(), NamedParam::Int(1)),
            ("a".to_string(), NamedParam::Text("v".to_string()))
        ]
    );
    assert_eq!(py_dict_to_serialized_values(None).unwrap(), vec![]);
}

#[test]
fn serialization_error_names_first_bad_key() {
    let d = vec![
        ("ok".to_string(), HostValue::Int(1)),
        ("bad".to_string(), HostValue::Other("set".to_string())),
        ("worse".to_string(), HostValue::Other("frozenset".to_string())),
    ];
    let e = py_dict_to_serialized_values(Some(&d)).unwrap_err();
    assert_eq!(e.key, "bad");
    assert_eq!(e.host_type, "set");
    assert_eq!(e.message(), "Cannot serialize Python type for key 'bad': set");
}

#[test]
fn short_value_sets_are_padded_with_empty_sets() {
    let sets = vec![Some(vec![("a".to_string(), HostValue::Int(1))])];
    let out = batch_values(3, &sets).unwrap();
    assert_eq!(out.len(), 3);
    assert_eq!(out[0], vec![("a".to_string(), NamedParam::Int(1))]);
    assert!(out[1].is_empty());
    assert!(out[2].is_empty());
}

#[test]
fn non_mapping_value_set_is_empty() {
    let sets = vec![None, Some(vec![("b".to_string(), HostValue::Bool(false))])];
    let out = batch_values(2, &sets).unwrap();
    assert!(out[0].is_empty());
    assert_eq!(out[1], vec![("b".to_string(), NamedParam::Bool(false))]);
}

#[test]
fn extra_value_sets_are_kept() {
    let sets = vec![None, None, Some(vec![("c".to_string(), HostValue::Null)])];
    let out = batch_values(1, &sets).unwrap();
    assert_eq!(out.len(), 3);
    assert_eq!(out[2], vec![("c".to_string(), NamedParam::Null)]);
}

#[test]
fn batch_error_comes_from_first_failing_set() {
    let sets = vec![
        None,
        Some(vec![("first".to_string(), HostValue::Other("set".to_string()))]),
        Some(vec![("second".to_string(), HostValue::Other("object".to_string()))]),
    ];
    let e = batch_values(3, &sets).unwrap_err();
    assert_eq!(e.key, "first");
    assert_eq!(e.host_type, "set");
}

#[test]
fn batch_value_set_error_propagates() {
    let sets = vec![Some(vec![("x".to_string(), HostValue::Other("object".to_string()))])];
    assert_eq!(batch_values(1, &sets).unwrap_err().key, "x");
}
