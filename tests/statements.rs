use rsylla::batch::{batch_type_from_lower, Batch, BatchStatement, BatchType};
use rsylla::options::{
    consistency_from_upper, parse_consistency, parse_serial_consistency,
    serial_consistency_from_upper, Consistency, OptionError, SerialConsistency,
};
use rsylla::query::{PreparedStatement, Query};
use rsylla::options::StatementOptions;

#[test]
fn consistency_parsing_ignores_case_and_underscore_alias() {
    assert_eq!(parse_consistency("local_quorum"), parse_consistency("LOCALQUORUM"));
    assert_eq!(parse_consistency("local_quorum"), Ok(Consistency::LocalQuorum));
    assert_eq!(parse_consistency("Each_Quorum"), Ok(Consistency::EachQuorum));
    assert_eq!(parse_consistency("localone"), Ok(Consistency::LocalOne));
    assert_eq!(parse_consistency("any"), Ok(Consistency::Any));
    assert_eq!(parse_consistency("Three"), Ok(Consistency::Three));
    assert_eq!(parse_serial_consistency("local_serial"), Ok(SerialConsistency::LocalSerial));
    assert_eq!(parse_serial_consistency("SERIAL"), Ok(SerialConsistency::Serial));
}

#[test]
fn invalid_consistency_is_named() {
    let e = parse_consistency("most").unwrap_err();
    assert_eq!(e, OptionError::InvalidConsistency("most".to_string()));
    assert_eq!(e.message(), "Invalid consistency level: most");
    let e = parse_serial_consistency("quorum").unwrap_err();
    assert_eq!(e.message(), "Invalid serial consistency level: quorum");
}

#[test]
fn case_follows_unicode_upper_casing() {
    assert_eq!(parse_serial_consistency("\u{17f}erial"), Ok(SerialConsistency::Serial));
    assert_eq!(parse_serial_consistency("ser\u{131}al"), Ok(SerialConsistency::Serial));
    assert_eq!(parse_consistency("qUoRuM"), Ok(Consistency::Quorum));
}

#[test]
fn upper_cased_names() {
    assert_eq!(consistency_from_upper("LOCALQUORUM"), Some(Consistency::LocalQuorum));
    assert_eq!(consistency_from_upper("LOCAL_QUORUM"), Some(Consistency::LocalQuorum));
    assert_eq!(consistency_from_upper("local_quorum"), None);
    assert_eq!(consistency_from_upper("ALL"), Some(Consistency::All));
    assert_eq!(serial_consistency_from_upper("LOCALSERIAL"), Some(SerialConsistency::LocalSerial));
    assert_eq!(serial_consistency_from_upper("SERIALS"), None);
}

#[test]
fn lower_cased_batch_types() {
    assert_eq!(batch_type_from_lower("unlogged"), Some(BatchType::Unlogged));
    assert_eq!(batch_type_from_lower("Logged"), None);
}

#[test]
fn query_setters_update_and_return_copy() {
    let mut q = Query::new("SELECT * FROM t");
    assert_eq!(q.options, StatementOptions::new());
    let copy = q.with_consistency("quorum").unwrap();
    assert_eq!(q.options.consistency, Some(Consistency::Quorum));
    assert_eq!(copy, q);
    let copy = q.with_page_size(100);
    assert_eq!(copy.options.page_size, Some(100));
    q.with_timestamp(17);
    q.with_timeout(250);
    q.with_tracing(true);
    q.with_serial_consistency("local_serial").unwrap();
    assert_eq!(q.options.timestamp, Some(17));
    assert_eq!(q.options.timeout_ms, Some(250));
    assert!(q.options.tracing);
    assert_eq!(q.options.serial_consistency, Some(SerialConsistency::LocalSerial));
    assert!(!q.is_idempotent());
    q.set_idempotent(true);
    assert!(q.is_idempotent());
    assert_eq!(q.get_contents(), "SELECT * FROM t");
}

#[test]
fn failed_query_setter_leaves_query_unchanged() {
    let mut q = Query::new("q");
    assert!(q.with_consistency("nope").is_err());
    assert_eq!(q.options, StatementOptions::new());
}

#[test]
fn prepared_setters_copy_on_write() {
    let p = PreparedStatement::new(vec![1, 2, 3], "SELECT 1".to_string(), StatementOptions::new());
    let p2 = p.with_consistency("ONE").unwrap();
    assert_eq!(p.options.consistency, None);
    assert_eq!(p2.options.consistency, Some(Consistency::One));
    assert_eq!(p2.get_id(), vec![1, 2, 3]);
    assert_eq!(p2.get_statement(), "SELECT 1");
    let p3 = p2.set_idempotent(true).with_tracing(true).with_page_size(5).with_timestamp(9);
    assert!(p3.is_idempotent());
    assert!(!p2.is_idempotent());
    assert_eq!(p3.options.page_size, Some(5));
    assert_eq!(p3.options.timestamp, Some(9));
    assert!(p3.options.tracing);
    let p4 = p3.with_serial_consistency("serial").unwrap();
    assert_eq!(p4.options.serial_consistency, Some(SerialConsistency::Serial));
}

#[test]
fn batch_type_names() {
    assert_eq!(Batch::new("logged").unwrap().batch_type, BatchType::Logged);
    assert_eq!(Batch::new("UNLOGGED").unwrap().batch_type, BatchType::Unlogged);
    assert_eq!(Batch::new("Counter").unwrap().batch_type, BatchType::Counter);
}

#[test]
fn unknown_batch_type_names_valid_set() {
    let e = Batch::new("unknown").unwrap_err();
    assert_eq!(e.given, "unknown");
    let m = e.message();
    assert!(m.contains("'logged'"));
    assert!(m.contains("'unlogged'"));
    assert!(m.contains("'counter'"));
    assert!(m.contains("unknown"));
}

#[test]
fn batch_captures_statements_by_value() {
    let mut b = Batch::new("logged").unwrap();
    let mut q = Query::new("INSERT INTO t (a) VALUES (1)");
    b.append_statement("DELETE FROM t");
    b.append_query(&q);
    q.with_consistency("all").unwrap();
    let p = PreparedStatement::new(vec![7], "UPDATE t".to_string(), StatementOptions::new());
    b.append_prepared(&p);
    assert_eq!(b.statements_count(), 3);
    assert_eq!(b.statements[0], BatchStatement::Text("DELETE FROM t".to_string()));
    match &b.statements[1] {
        BatchStatement::Query(inner) => assert_eq!(inner.options.consistency, None),
        other => panic!("unexpected {:?}", other),
    }
    let copy = b.with_consistency("two").unwrap();
    assert_eq!(copy, b);
    assert_eq!(b.options.consistency, Some(Consistency::Two));
    b.with_serial_consistency("serial").unwrap();
    b.with_timestamp(5);
    b.with_timeout(10);
    b.with_tracing(true);
    b.set_idempotent(true);
    assert!(b.is_idempotent());
    assert_eq!(b.options.timeout_ms, Some(10));
    assert_eq!(b.statements_count(), 3);
}
