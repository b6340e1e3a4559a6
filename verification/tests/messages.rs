use duckdbconn::error::Error;
use duckdbconn::text::{decimal, digit_char};

#[test]
fn decimal_numerals() {
    assert_eq!(decimal(0), "0");
    assert_eq!(decimal(7), "7");
    assert_eq!(decimal(10), "10");
    assert_eq!(decimal(1234567890), "1234567890");
    assert_eq!(decimal(usize::MAX), usize::MAX.to_string());
    assert_eq!(digit_char(0), '0');
    assert_eq!(digit_char(9), '9');
}

#[test]
fn connection_error_message() {
    let error = Error::DuckDBConnectionError { source: "cannot open".to_string() };
    assert_eq!(
        error.to_string(),
        "DuckDB connection failed.\ncannot open\nFor details, refer to the DuckDB manual: https://duckdb.org/docs/"
    );
}

#[test]
fn query_error_message() {
    let error = Error::DuckDBQueryError { source: "syntax error".to_string() };
    assert_eq!(
        error.to_string(),
        "Query execution failed.\nsyntax error\nFor details, refer to the DuckDB manual: https://duckdb.org/docs/"
    );
}

#[test]
fn channel_error_message() {
    let error = Error::ChannelError { message: "channel closed".to_string() };
    assert_eq!(
        error.to_string(),
        "An unexpected error occurred.\nchannel closed\nVerify the configuration and try again."
    );
}

#[test]
fn attachment_error_message() {
    let error = Error::UnableToAttachDatabase {
        path: "/tmp/missing.db".to_string(),
        source: "No such file or directory".to_string(),
    };
    assert_eq!(
        error.to_string(),
        "Unable to attach DuckDB database /tmp/missing.db.\nNo such file or directory\nEnsure the DuckDB file path is valid."
    );
}
