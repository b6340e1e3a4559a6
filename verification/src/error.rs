//! The errors that the adapter reports, and their messages.

use crate::schema::DataType;
use vstd::prelude::*;

verus! {

/// A failure of one of the operations that every connection offers.
#[derive(Debug, PartialEq, Eq)]
pub enum ConnectionError {
    /// The table names of a schema could not be listed.
    UnableToGetTables { source: String },
    /// The schema names could not be listed.
    UnableToGetSchemas { source: String },
    /// The column schema of a table or statement could not be fetched.
    UnableToGetSchema { source: String },
    /// A field's type cannot be represented in the columnar model.
    UnsupportedDataType { data_type: DataType, field_name: String },
}

/// A failure of the engine session itself. `source` holds the message of the
/// underlying failure.
#[derive(Debug, PartialEq, Eq)]
pub enum Error {
    /// The engine could not be reached or configured.
    DuckDBConnectionError { source: String },
    /// A statement could not be prepared or executed.
    DuckDBQueryError { source: String },
    /// The relay between the worker and the consumer broke down.
    ChannelError { message: String },
    /// An auxiliary database file is missing or cannot be attached.
    UnableToAttachDatabase { path: String, source: String },
}

/// The mathematical content of an `Error`.
pub enum ErrorView {
    DuckDBConnectionError { source: Seq<char> },
    DuckDBQueryError { source: Seq<char> },
    ChannelError { message: Seq<char> },
    UnableToAttachDatabase { path: Seq<char>, source: Seq<char> },
}

impl View for Error {
    type V = ErrorView;

    open spec fn view(&self) -> ErrorView {
        match self {
            Error::DuckDBConnectionError { source } => ErrorView::DuckDBConnectionError {
                source: source@,
            },
            Error::DuckDBQueryError { source } => ErrorView::DuckDBQueryError { source: source@ },
            Error::ChannelError { message } => ErrorView::ChannelError { message: message@ },
            Error::UnableToAttachDatabase { path, source } => ErrorView::UnableToAttachDatabase {
                path: path@,
                source: source@,
            },
        }
    }
}

impl ErrorView {
    /// The message shown for the error.
    pub open spec fn message(self) -> Seq<char> {
        match self {
            ErrorView::DuckDBConnectionError { source } => "DuckDB connection failed.\n"@ + source
                + "\nFor details, refer to the DuckDB manual: https://duckdb.org/docs/"@,
            ErrorView::DuckDBQueryError { source } => "Query execution failed.\n"@ + source
                + "\nFor details, refer to the DuckDB manual: https://duckdb.org/docs/"@,
            ErrorView::ChannelError { message } => "An unexpected error occurred.\n"@ + message
                + "\nVerify the configuration and try again."@,
            ErrorView::UnableToAttachDatabase { path, source } =>
                "Unable to attach DuckDB database "@ + path + ".\n"@ + source
                + "\nEnsure the DuckDB file path is valid."@,
        }
    }
}

impl Error {
    /// The message shown for the error.
    pub fn to_string(&self) -> (r: String)
        ensures
            r@ == self@.message(),
    {
        let mut text = String::new();
        match self {
            Error::DuckDBConnectionError { source } => {
                text.append("DuckDB connection failed.\n");
                text.append(source.as_str());
                text.append("\nFor details, refer to the DuckDB manual: https://duckdb.org/docs/");
            },
            Error::DuckDBQueryError { source } => {
                text.append("Query execution failed.\n");
                text.append(source.as_str());
                text.append("\nFor details, refer to the DuckDB manual: https://duckdb.org/docs/");
            },
            Error::ChannelError { message } => {
                text.append("An unexpected error occurred.\n");
                text.append(message.as_str());
                text.append("\nVerify the configuration and try again.");
            },
            Error::UnableToAttachDatabase { path, source } => {
                text.append("Unable to attach DuckDB database ");
                text.append(path.as_str());
                text.append(".\n");
                text.append(source.as_str());
                text.append("\nEnsure the DuckDB file path is valid.");
            },
        }
        assert(text@ == self@.message());
        text
    }
}

} // verus!
