//! The connection facade: its configuration and the statements it issues.

use crate::attachments::{attach_plan, detach_plan, step_views, DuckDBAttachments, Step, StepView};
use crate::error::ConnectionError;
use crate::policy::UnsupportedTypeAction;
use crate::reconcile::{reconciled, TypeMapper};
use crate::schema::Schema;
use crate::table_ref::{is_table_function, TableReference};
use std::sync::Arc;
use vstd::prelude::*;

verus! {

/// The adapter's view of one session with the engine: what to make visible
/// beside the primary catalog, and what to do with unsupported column types.
pub struct DuckDbConnection {
    attachments: Option<Arc<DuckDBAttachments>>,
    unsupported_type_action: UnsupportedTypeAction,
}

/// The statement that lists the user-visible schema names, without the
/// system and information schemas.
pub open spec fn schemas_statement() -> Seq<char> {
    "SELECT DISTINCT schema_name FROM information_schema.schemata \
     WHERE schema_name NOT IN ('information_schema', 'pg_catalog')"@
}

/// The statement that lists the base tables of the schema bound to its one
/// parameter.
pub open spec fn tables_statement() -> Seq<char> {
    "SELECT table_name FROM information_schema.tables \
     WHERE table_schema = ? AND table_type = 'BASE TABLE'"@
}

/// The statement that yields the columns of `table` and no row.
pub open spec fn schema_statement(table: Seq<char>) -> Seq<char> {
    "SELECT * FROM "@ + table + " LIMIT 0"@
}

/// The steps of attaching an optional attachment set: none without a set.
pub open spec fn optional_attach_plan(attachments: Option<Arc<DuckDBAttachments>>) -> Seq<
    StepView,
> {
    match attachments {
        Some(set) => attach_plan(set.catalog(), set.token(), set.paths()),
        None => Seq::empty(),
    }
}

/// The steps of detaching an optional attachment set: none without a set.
pub open spec fn optional_detach_plan(attachments: Option<Arc<DuckDBAttachments>>) -> Seq<
    StepView,
> {
    match attachments {
        Some(set) => detach_plan(set.token(), set.paths().len()),
        None => Seq::empty(),
    }
}

impl DuckDbConnection {
    /// The attachment set of the session, if it has one.
    pub closed spec fn attachment_set(&self) -> Option<Arc<DuckDBAttachments>> {
        self.attachments
    }

    /// The policy for unsupported column types.
    pub closed spec fn policy(&self) -> UnsupportedTypeAction {
        self.unsupported_type_action
    }

    /// A session without attachments that rejects unsupported column types.
    pub fn new() -> (r: Self)
        ensures
            r.attachment_set() is None,
            r.policy() == UnsupportedTypeAction::Error,
    {
        DuckDbConnection { attachments: None, unsupported_type_action: UnsupportedTypeAction::Error }
    }

    /// The session with the given policy for unsupported column types.
    pub fn with_unsupported_type_action(
        self,
        unsupported_type_action: UnsupportedTypeAction,
    ) -> (r: Self)
        ensures
            r.policy() == unsupported_type_action,
            r.attachment_set() == self.attachment_set(),
    {
        DuckDbConnection { attachments: self.attachments, unsupported_type_action }
    }

    /// The session with the given attachment set, or with none.
    pub fn with_attachments(self, attachments: Option<Arc<DuckDBAttachments>>) -> (r: Self)
        ensures
            r.attachment_set() == attachments,
            r.policy() == self.policy(),
    {
        DuckDbConnection { attachments, unsupported_type_action: self.unsupported_type_action }
    }

    /// The attachment set of the session, if it has one.
    pub fn attachments(&self) -> (r: &Option<Arc<DuckDBAttachments>>)
        ensures
            *r == self.attachment_set(),
    {
        &self.attachments
    }

    /// The policy for unsupported column types.
    pub fn unsupported_type_action(&self) -> (r: UnsupportedTypeAction)
        ensures
            r == self.policy(),
    {
        self.unsupported_type_action
    }

    /// The steps that attach the attachment set, if there is one, to a
    /// connection.
    pub fn attach(attachments: &Option<Arc<DuckDBAttachments>>) -> (r: Vec<Step>)
        ensures
            step_views(r@) == optional_attach_plan(*attachments),
    {
        match attachments {
            Some(set) => set.attach(),
            None => {
                let steps: Vec<Step> = Vec::new();
                assert(step_views(steps@) == Seq::<StepView>::empty());
                steps
            },
        }
    }

    /// The steps that detach the attachment set, if there is one, from a
    /// connection.
    pub fn detach(attachments: &Option<Arc<DuckDBAttachments>>) -> (r: Vec<Step>)
        ensures
            step_views(r@) == optional_detach_plan(*attachments),
    {
        match attachments {
            Some(set) => set.detach(),
            None => {
                let steps: Vec<Step> = Vec::new();
                assert(step_views(steps@) == Seq::<StepView>::empty());
                steps
            },
        }
    }

    /// The statement that lists the user-visible schema names.
    pub fn schemas(&self) -> (r: String)
        ensures
            r@ == schemas_statement(),
    {
        "SELECT DISTINCT schema_name FROM information_schema.schemata \
         WHERE schema_name NOT IN ('information_schema', 'pg_catalog')".to_owned()
    }

    /// The statement that lists the base tables of a schema; the schema's
    /// name is its one parameter.
    pub fn tables(&self) -> (r: String)
        ensures
            r@ == tables_statement(),
    {
        "SELECT table_name FROM information_schema.tables \
         WHERE table_schema = ? AND table_type = 'BASE TABLE'".to_owned()
    }

    /// The statement that yields the column schema of a table or table
    /// function. A function call stands in it as it is written; any other
    /// reference stands in its quoted form, which the caller supplies.
    pub fn get_schema(&self, table_reference: &TableReference, quoted: &str) -> (r: String)
        ensures
            r@ == schema_statement(
                if table_reference.table_function() {
                    table_reference.table_name()
                } else {
                    quoted@
                },
            ),
    {
        let mut sql = String::new();
        sql.append("SELECT * FROM ");
        if is_table_function(table_reference) {
            sql.append(table_reference.table());
        } else {
            sql.append(quoted);
        }
        sql.append(" LIMIT 0");
        sql
    }

    /// Reconciles a schema that the engine returned under the session's
    /// policy, with the given mapper for the engine's side.
    pub fn reconcile<M: TypeMapper>(&self, mapper: &M, schema: &Arc<Schema>) -> (r: Result<
        Arc<Schema>,
        ConnectionError,
    >)
        ensures
            reconciled(*mapper, schema@, self.policy(), r),
    {
        Self::reconcile_with(mapper, schema, self.unsupported_type_action)
    }

    /// The number of rows that a statement modified, as the engine counted
    /// them.
    pub fn execute(rows_modified: usize) -> (r: u64)
        ensures
            r == rows_modified,
    {
        rows_modified as u64
    }
}

} // verus!
