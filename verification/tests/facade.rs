use duckdbconn::attachments::DuckDBAttachments;
use duckdbconn::connection::DuckDbConnection;
use duckdbconn::policy::UnsupportedTypeAction;
use duckdbconn::reconcile::DuckDbTypes;
use duckdbconn::schema::{DataType, Field, Schema};
use duckdbconn::table_ref::TableReference;
use std::sync::Arc;

#[test]
fn new_connection_rejects_unsupported_types_and_attaches_nothing() {
    let connection = DuckDbConnection::new();
    assert_eq!(connection.unsupported_type_action(), UnsupportedTypeAction::Error);
    assert!(connection.attachments().is_none());
}

#[test]
fn builders_set_one_thing_and_keep_the_other() {
    let set = Arc::new(DuckDBAttachments::with_token("main", "tok".to_string(), &[Arc::from("a.db")]));
    let connection = DuckDbConnection::new()
        .with_attachments(Some(Arc::clone(&set)))
        .with_unsupported_type_action(UnsupportedTypeAction::Ignore);
    assert_eq!(connection.unsupported_type_action(), UnsupportedTypeAction::Ignore);
    let kept = connection.attachments().as_ref().expect("the set is kept");
    assert_eq!(kept.search_path(), "main,attachment_tok_0");
    let connection = connection.with_attachments(None);
    assert!(connection.attachments().is_none());
    assert_eq!(connection.unsupported_type_action(), UnsupportedTypeAction::Ignore);
}

#[test]
fn metadata_statements() {
    let connection = DuckDbConnection::new();
    assert_eq!(
        connection.schemas(),
        "SELECT DISTINCT schema_name FROM information_schema.schemata WHERE schema_name NOT IN ('information_schema', 'pg_catalog')"
    );
    assert_eq!(
        connection.tables(),
        "SELECT table_name FROM information_schema.tables WHERE table_schema = ? AND table_type = 'BASE TABLE'"
    );
}

#[test]
fn schema_statement_quotes_tables_and_leaves_function_calls() {
    let connection = DuckDbConnection::new();
    let function = TableReference::bare("read_parquet('f.parquet')".to_string());
    assert_eq!(
        connection.get_schema(&function, "\"read_parquet('f.parquet')\""),
        "SELECT * FROM read_parquet('f.parquet') LIMIT 0"
    );
    let table = TableReference::bare("My Table".to_string());
    assert_eq!(
        connection.get_schema(&table, "\"My Table\""),
        "SELECT * FROM \"My Table\" LIMIT 0"
    );
    let qualified = TableReference::partial("main".to_string(), "f()".to_string());
    assert_eq!(
        connection.get_schema(&qualified, "main.\"f()\""),
        "SELECT * FROM main.\"f()\" LIMIT 0"
    );
}

#[test]
fn returned_schema_is_reconciled_under_the_session_policy() {
    let unsupported = DataType::List(Arc::new(Field::new(
        "item",
        DataType::List(Arc::new(Field::new("item", DataType::Int32, true))),
        true,
    )));
    let schema = Arc::new(Schema::new(vec![
        Arc::new(Field::new("id", DataType::Int64, false)),
        Arc::new(Field::new("nested", unsupported, true)),
    ]));
    assert!(DuckDbConnection::new().reconcile(&DuckDbTypes, &schema).is_err());
    let lenient = DuckDbConnection::new().with_unsupported_type_action(UnsupportedTypeAction::Warn);
    let rebuilt = lenient.reconcile(&DuckDbTypes, &schema).expect("the unsupported field is dropped");
    assert_eq!(rebuilt.len(), 1);
    assert_eq!(rebuilt.fields()[0].name(), "id");
}

#[test]
fn row_count_is_passed_on() {
    assert_eq!(DuckDbConnection::execute(0), 0);
    assert_eq!(DuckDbConnection::execute(42), 42);
}
