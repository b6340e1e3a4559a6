//! The policy that governs what happens to schema fields whose type cannot be
//! represented in the target columnar model.

use vstd::prelude::*;

verus! {

/// What to do when a schema holds a field of an unsupported type.
#[derive(Clone, Copy, Debug, PartialEq, Eq, Structural)]
pub enum UnsupportedTypeAction {
    /// Reject the whole schema with an error naming the first offending field.
    Error,
    /// Drop the offending fields; the caller reports each of them.
    Warn,
    /// Drop the offending fields without any diagnostic.
    Ignore,
}

impl UnsupportedTypeAction {
    /// Whether offending fields are removed rather than rejected.
    pub open spec fn drops(self) -> bool {
        self != UnsupportedTypeAction::Error
    }

    /// Whether offending fields are removed rather than rejected.
    pub fn drops_fields(&self) -> (r: bool)
        ensures
            r == self.drops(),
    {
        match self {
            UnsupportedTypeAction::Error => false,
            UnsupportedTypeAction::Warn => true,
            UnsupportedTypeAction::Ignore => true,
        }
    }
}

impl Default for UnsupportedTypeAction {
    fn default() -> (r: Self)
        ensures
            r == UnsupportedTypeAction::Error,
    {
        UnsupportedTypeAction::Error
    }
}

} // verus!
