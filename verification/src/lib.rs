//! Decision and message logic of the embedded libSQL backend: error values and
//! their mapping onto service errors, default database path resolution,
//! migration planning, the reading of column cells, and the answers of the
//! local services.

use vstd::prelude::*;

pub mod error;
pub mod migrations;
pub mod paths;
pub mod rows;
pub mod services;
pub mod text;

verus! {

/// Event emitted when a local-backend entity is mutated.
///
/// Mirrors the event names used by the remote backend, so that a consumer maps
/// them one to one.
#[derive(Debug, Clone, PartialEq, Eq)]
pub struct ChangeEvent {
    /// Entity type (e.g. "task", "workflow", "step", "step_execution", ...)
    pub entity: String,
    /// Entity ID
    pub entity_id: String,
    /// Project ID
    pub project_id: String,
    /// Event name (e.g. "task_created", "task_updated", "workflow_created", ...)
    pub event: String,
}

} // verus!
