//! The check of the persisted schema version before any request is served.

use vstd::prelude::*;

verus! {

/// The only schema version that is supported.
pub const SCHEMA_VERSION: i32 = 1;

/// What to do with a store at startup.
#[derive(Debug, Clone, Copy, PartialEq, Eq, Structural)]
pub enum SchemaAction {
    /// The store is new: create the tables and stamp the version.
    Create,
    /// The store has the supported version: serve.
    Proceed,
    /// The store has another version: stop.
    Refuse,
}

/// The action that a stored version calls for.
pub open spec fn action_for(version: int) -> SchemaAction {
    if version == 0 {
        SchemaAction::Create
    } else if version == SCHEMA_VERSION as int {
        SchemaAction::Proceed
    } else {
        SchemaAction::Refuse
    }
}

/// Decides what to do at startup from the stored schema version, where 0
/// stands for a store without one.
pub fn schema_action(version: i32) -> (r: SchemaAction)
    ensures
        r == action_for(version as int),
{
    if version == 0 {
        SchemaAction::Create
    } else if version == SCHEMA_VERSION {
        SchemaAction::Proceed
    } else {
        SchemaAction::Refuse
    }
}

} // verus!
