//! Connection adapter logic for an embedded analytical database: table-reference
//! classification, schema reconciliation, multi-catalog attachment and the
//! decisions of the blocking-to-streaming query bridge.

pub mod attachments;
pub mod bridge;
pub mod connection;
pub mod error;
pub mod policy;
pub mod reconcile;
pub mod schema;
pub mod table_ref;
pub mod text;
