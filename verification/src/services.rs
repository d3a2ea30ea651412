//! The errors that the local task and workflow services answer with while
//! their operations are not implemented: an operation is refused with a
//! validation failure that names the service, and a workflow lookup reports the
//! workflow as not found.

use vstd::prelude::*;
use vstd::string::*;
use crate::error::{ServiceError, ServiceErrorView};

verus! {

/// The local services.
#[derive(Debug, Clone, Copy, PartialEq, Eq, Structural)]
pub enum LocalService {
    Task,
    Workflow,
}

/// The name of a local service in diagnostics.
pub open spec fn service_name(s: LocalService) -> Seq<char> {
    match s {
        LocalService::Task => "LocalTaskService"@,
        LocalService::Workflow => "LocalWorkflowService"@,
    }
}

/// The refusal of an operation of `service` that is not implemented yet.
pub fn not_yet_implemented(service: LocalService) -> (e: ServiceError)
    ensures
        e@ == ServiceErrorView::ValidationFailed(service_name(service) + ": not yet implemented"@),
{
    let name = match service {
        LocalService::Task => String::from_str("LocalTaskService"),
        LocalService::Workflow => String::from_str("LocalWorkflowService"),
    };
    ServiceError::ValidationFailed { message: name.concat(": not yet implemented") }
}

/// The answer to a lookup of the workflow `id`: it is not found.
pub fn workflow_not_found(id: &str) -> (e: ServiceError)
    ensures
        e@ == ServiceErrorView::WorkflowNotFound(id@),
{
    ServiceError::WorkflowNotFound { workflow_id: String::from_str(id) }
}

} // verus!
