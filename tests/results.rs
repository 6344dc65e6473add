use rsylla::error::{RemoteOperation, ScyllaError};
use rsylla::result::{QueryResult, Row};
use rsylla::session::{Compression, ConfigError, SessionBuilder};
use rsylla::value::{CqlValue, HostValue};

fn sample_row() -> Row {
    Row::new(vec![
        Some(CqlValue::Int(5)),
        Some(CqlValue::Text("hi".to_string())),
        Some(CqlValue::Empty),
    ])
}

fn result_with(n: usize) -> QueryResult {
    let rows = (0..n).map(|i| Row::new(vec![Some(CqlValue::Int(i as i32))])).collect();
    QueryResult::new(Some(rows), vec![], None, vec![])
}

#[test]
fn row_as_dict_uses_positional_keys() {
    let d = sample_row().as_dict();
    assert_eq!(
        d,
        vec![
            ("col_0".to_string(), HostValue::Int(5)),
            ("col_1".to_string(), HostValue::Text("hi".to_string())),
            ("col_2".to_string(), HostValue::Null),
        ]
    );
}

#[test]
fn row_keys_past_ten_columns() {
    let row = Row::new((0..12).map(|_| None).collect());
    let d = row.as_dict();
    assert_eq!(d[10].0, "col_10");
    assert_eq!(d[11].0, "col_11");
    assert_eq!(d[11].1, HostValue::Null);
}

#[test]
fn negative_index_wraps_around() {
    let row = sample_row();
    assert_eq!(row.get(-1), row.get(2));
    assert_eq!(row.get(-3), Ok(HostValue::Int(5)));
    assert_eq!(row.get(1), Ok(HostValue::Text("hi".to_string())));
    assert_eq!(row.len(), 3);
}

#[test]
fn out_of_range_index_is_named() {
    let row = sample_row();
    let e = row.get(3).unwrap_err();
    assert_eq!(e.index, 3);
    assert_eq!(e.message(), "Column index 3 out of range");
    assert_eq!(row.get(-4).unwrap_err().message(), "Column index -4 out of range");
}

#[test]
fn row_columns_decode_missing_as_null() {
    let row = Row::new(vec![None, Some(CqlValue::Boolean(true))]);
    assert_eq!(row.columns(), vec![HostValue::Null, HostValue::Bool(true)]);
}

#[test]
fn single_row_needs_exactly_one() {
    assert_eq!(result_with(0).single_row().unwrap_err().count, 0);
    assert_eq!(result_with(2).single_row().unwrap_err().count, 2);
    assert_eq!(result_with(2).single_row().unwrap_err().message(), "Expected single row, got 2 rows");
    let one = result_with(1);
    assert_eq!(one.single_row().unwrap().columns, vec![Some(CqlValue::Int(0))]);
}

#[test]
fn first_row_of_empty_result_is_none() {
    assert!(result_with(0).first_row().is_none());
    let none = QueryResult::new(None, vec![], None, vec![]);
    assert!(none.first_row().is_none());
    assert!(!none.has_rows());
    assert_eq!(none.row_count(), 0);
    assert!(none.rows().is_empty());
    assert!(none.first_row_typed().is_none());
    let two = result_with(2);
    assert_eq!(two.first_row().unwrap().columns, vec![Some(CqlValue::Int(0))]);
    assert!(two.has_rows());
}

#[test]
fn typed_rows_and_cursor() {
    let mut r = result_with(2);
    let typed = r.rows_typed();
    assert_eq!(typed.len(), 2);
    assert_eq!(typed[1], vec![("col_0".to_string(), HostValue::Int(1))]);
    assert_eq!(r.next_row(), Some(0));
    assert_eq!(r.next_row(), Some(1));
    assert_eq!(r.next_row(), None);
    assert_eq!(r.row_count(), 2);
}

#[test]
fn metadata_is_kept() {
    let r = QueryResult::new(
        None,
        vec![],
        Some("a-trace".to_string()),
        vec!["w1".to_string(), "w2".to_string()],
    );
    assert_eq!(r.tracing_id(), Some("a-trace".to_string()));
    assert_eq!(r.warnings(), vec!["w1".to_string(), "w2".to_string()]);
    assert!(r.col_specs().is_empty());
}

#[test]
fn remote_error_message_embeds_cause() {
    let e = ScyllaError::new(RemoteOperation::Query, "timed out".to_string());
    assert_eq!(e.message(), "Query error: timed out");
    let e = ScyllaError::new(RemoteOperation::UseKeyspace, "no such keyspace".to_string());
    assert_eq!(e.message(), "Use keyspace error: no such keyspace");
}

#[test]
fn session_builder_settings() {
    let mut b = SessionBuilder::new();
    b.known_node("10.0.0.1:9042");
    let copy = b.known_nodes(vec!["10.0.0.2".to_string(), "10.0.0.3".to_string()]);
    assert_eq!(copy.known_nodes, vec!["10.0.0.1:9042", "10.0.0.2", "10.0.0.3"]);
    b.use_keyspace("ks", true);
    b.connection_timeout(500);
    b.user("alice", "SECRET-REDACTED");
    b.tcp_nodelay(true);
    b.tcp_keepalive(Some(1000));
    assert_eq!(b.keyspace, Some(("ks".to_string(), true)));
    assert_eq!(b.connection_timeout_ms, Some(500));
    assert_eq!(b.tcp_nodelay, Some(true));
    assert_eq!(b.tcp_keepalive_ms, Some(1000));
    assert!(b.pool_size(4).is_ok());
    assert_eq!(b.pool_size_per_host, Some(4));
}

#[test]
fn zero_pool_size_is_rejected() {
    let mut b = SessionBuilder::new();
    let e = b.pool_size(0).unwrap_err();
    assert_eq!(e, ConfigError::PoolSizeZero);
    assert_eq!(e.message(), "Pool size must be greater than 0");
    assert_eq!(b.pool_size_per_host, None);
}

#[test]
fn compression_names() {
    let mut b = SessionBuilder::new();
    assert_eq!(b.compression(Some("lz4")).unwrap().compression, Some(Compression::Lz4));
    assert_eq!(b.compression(Some("snappy")).unwrap().compression, Some(Compression::Snappy));
    assert_eq!(b.compression(None).unwrap().compression, None);
    let e = b.compression(Some("gzip")).unwrap_err();
    assert_eq!(e, ConfigError::InvalidCompression("gzip".to_string()));
    assert!(e.message().contains("'lz4', 'snappy', or None"));
}
