use lakeapi2sql::query::introspection_query;
use lakeapi2sql::result_set::ResultCollector;
use lakeapi2sql::result_set::ResultEvent;
use lakeapi2sql::types::CellValue;
use lakeapi2sql::types::ColumnType;
use lakeapi2sql::writer::ArrowBatchSqlWriter;
use lakeapi2sql::writer::WriterError;

#[test]
fn no_requested_columns_selects_everything() {
    let q = introspection_query(&"dbo.people".to_string(), &Vec::new());
    assert_eq!(q, "SELECT TOP 0 * FROM dbo.people");
}

#[test]
fn requested_columns_are_bracketed_and_joined() {
    let names = vec!["id".to_string(), "name".to_string(), "joined at".to_string()];
    let q = introspection_query(&"t".to_string(), &names);
    assert_eq!(q, "SELECT TOP 0 [id], [name], [joined at] FROM t");
}

#[test]
fn a_single_requested_column_has_no_separator() {
    let q = introspection_query(&"t".to_string(), &vec!["only".to_string()]);
    assert_eq!(q, "SELECT TOP 0 [only] FROM t");
}

#[test]
fn the_first_result_set_is_collected_and_the_second_stops() {
    let mut c = ResultCollector::new();
    let more = c.step(ResultEvent::Metadata {
        result_index: 0,
        columns: vec![("a".to_string(), ColumnType::Int4)],
    });
    assert!(more);
    assert!(c.step(ResultEvent::RowData { result_index: 0, cells: vec![CellValue::I32(Some(1))] }));
    assert!(c.step(ResultEvent::RowData { result_index: 0, cells: vec![CellValue::I32(None)] }));
    let stopped = c.step(ResultEvent::Metadata { result_index: 1, columns: Vec::new() });
    assert!(!stopped);
    assert_eq!(c.rows.len(), 2);
    assert_eq!(c.rows[0][0], CellValue::I32(Some(1)));
    match &c.meta {
        Some(cols) => {
            assert_eq!(cols.len(), 1);
            assert_eq!(cols[0].0, "a");
            assert_eq!(cols[0].1, ColumnType::Int4);
        }
        None => panic!("expected the first metadata to be kept"),
    }
}

#[test]
fn a_row_of_a_later_result_set_stops_collection() {
    let mut c = ResultCollector::new();
    assert!(c.step(ResultEvent::Metadata { result_index: 0, columns: Vec::new() }));
    let stopped = c.step(ResultEvent::RowData { result_index: 1, cells: Vec::new() });
    assert!(!stopped);
    assert!(c.rows.is_empty());
}

#[test]
fn the_batch_writer_keeps_its_configuration() {
    let w = ArrowBatchSqlWriter::new(
        vec!["a".to_string(), "b".to_string()],
        "dbo.t".to_string(),
        "a,b".to_string(),
        4096,
    );
    assert_eq!(w.schema_fields.len(), 2);
    assert_eq!(w.table, "dbo.t");
    assert_eq!(w.column_names_csv, "a,b");
    assert_eq!(w.chunk_size, 4096);
}

#[test]
fn the_writer_error_describes_itself() {
    let e = WriterError::WellSee;
    assert_eq!(e.message(), "arrow error");
    assert_eq!(e.clone(), WriterError::WellSee);
}
