//! Failover Cluster: errors, node, group and resource states, and Cluster
//! Shared Volume rules.

pub mod csv;
pub mod enumerate;
pub mod states;

use vstd::prelude::*;

verus! {

/// An error of a cluster operation.
#[derive(Debug)]
pub enum ClusError {
    OpenClusterFailed(String),
    OpenNodeFailed(String),
    OpenResourceFailed(String),
    OpenGroupFailed(String),
    OperationFailed(String),
    InvalidHandle,
    NotFound(String),
}

/// The message of each error.
pub open spec fn clus_error_message(e: ClusError) -> Seq<char> {
    match e {
        ClusError::OpenClusterFailed(s) => "Failed to open cluster: "@ + s@,
        ClusError::OpenNodeFailed(s) => "Failed to open cluster node: "@ + s@,
        ClusError::OpenResourceFailed(s) => "Failed to open cluster resource: "@ + s@,
        ClusError::OpenGroupFailed(s) => "Failed to open cluster group: "@ + s@,
        ClusError::OperationFailed(s) => "Cluster operation failed: "@ + s@,
        ClusError::InvalidHandle => "Invalid cluster handle"@,
        ClusError::NotFound(s) => "Resource not found: "@ + s@,
    }
}

impl ClusError {
    /// The human-readable message.
    pub fn to_string(&self) -> (r: String)
        ensures
            r@ == clus_error_message(*self),
    {
        match self {
            ClusError::OpenClusterFailed(s) => String::from_str("Failed to open cluster: ").concat(
                s.as_str(),
            ),
            ClusError::OpenNodeFailed(s) => String::from_str("Failed to open cluster node: ").concat(
                s.as_str(),
            ),
            ClusError::OpenResourceFailed(s) => String::from_str(
                "Failed to open cluster resource: ",
            ).concat(s.as_str()),
            ClusError::OpenGroupFailed(s) => String::from_str("Failed to open cluster group: ").concat(
                s.as_str(),
            ),
            ClusError::OperationFailed(s) => String::from_str("Cluster operation failed: ").concat(
                s.as_str(),
            ),
            ClusError::InvalidHandle => String::from_str("Invalid cluster handle"),
            ClusError::NotFound(s) => String::from_str("Resource not found: ").concat(s.as_str()),
        }
    }
}

} // verus!
