//! Errors reported by the Hyper-V management operations.

use vstd::prelude::*;

verus! {

/// An error of a Hyper-V management operation. Each variant carries the
/// detail that its message ends with.
#[derive(Debug)]
pub enum HvError {
    HcsInitFailed(String),
    VmNotFound(String),
    SwitchNotFound(String),
    VhdNotFound(String),
    SnapshotNotFound(String),
    OperationFailed(String),
    InvalidParameter(String),
    InvalidState(String),
    PermissionDenied(String),
    ConnectionFailed(String),
    Timeout(String),
    HcsError(String),
    WmiError(String),
    JsonError(String),
    IoError(String),
}

/// The fixed text that precedes the detail in an error's message.
pub open spec fn hv_error_prefix(e: HvError) -> Seq<char> {
    match e {
        HvError::HcsInitFailed(_) => "Failed to initialize HCS: "@,
        HvError::VmNotFound(_) => "VM not found: "@,
        HvError::SwitchNotFound(_) => "Virtual switch not found: "@,
        HvError::VhdNotFound(_) => "VHD not found: "@,
        HvError::SnapshotNotFound(_) => "Snapshot not found: "@,
        HvError::OperationFailed(_) => "Operation failed: "@,
        HvError::InvalidParameter(_) => "Invalid parameter: "@,
        HvError::InvalidState(_) => "VM is in invalid state for this operation: "@,
        HvError::PermissionDenied(_) => "Permission denied: "@,
        HvError::ConnectionFailed(_) => "Failed to connect to Hyper-V WMI: "@,
        HvError::Timeout(_) => "Timeout waiting for operation: "@,
        HvError::HcsError(_) => "HCS error: "@,
        HvError::WmiError(_) => "WMI error: "@,
        HvError::JsonError(_) => "JSON serialization error: "@,
        HvError::IoError(_) => "IO error: "@,
    }
}

/// The detail carried by an error.
pub open spec fn hv_error_detail(e: HvError) -> Seq<char> {
    match e {
        HvError::HcsInitFailed(s) => s@,
        HvError::VmNotFound(s) => s@,
        HvError::SwitchNotFound(s) => s@,
        HvError::VhdNotFound(s) => s@,
        HvError::SnapshotNotFound(s) => s@,
        HvError::OperationFailed(s) => s@,
        HvError::InvalidParameter(s) => s@,
        HvError::InvalidState(s) => s@,
        HvError::PermissionDenied(s) => s@,
        HvError::ConnectionFailed(s) => s@,
        HvError::Timeout(s) => s@,
        HvError::HcsError(s) => s@,
        HvError::WmiError(s) => s@,
        HvError::JsonError(s) => s@,
        HvError::IoError(s) => s@,
    }
}

impl HvError {
    /// The human-readable message: the variant's fixed text, then its detail.
    pub fn to_string(&self) -> (r: String)
        ensures
            r@ == hv_error_prefix(*self) + hv_error_detail(*self),
    {
        let (prefix, detail) = match self {
            HvError::HcsInitFailed(s) => ("Failed to initialize HCS: ", s),
            HvError::VmNotFound(s) => ("VM not found: ", s),
            HvError::SwitchNotFound(s) => ("Virtual switch not found: ", s),
            HvError::VhdNotFound(s) => ("VHD not found: ", s),
            HvError::SnapshotNotFound(s) => ("Snapshot not found: ", s),
            HvError::OperationFailed(s) => ("Operation failed: ", s),
            HvError::InvalidParameter(s) => ("Invalid parameter: ", s),
            HvError::InvalidState(s) => ("VM is in invalid state for this operation: ", s),
            HvError::PermissionDenied(s) => ("Permission denied: ", s),
            HvError::ConnectionFailed(s) => ("Failed to connect to Hyper-V WMI: ", s),
            HvError::Timeout(s) => ("Timeout waiting for operation: ", s),
            HvError::HcsError(s) => ("HCS error: ", s),
            HvError::WmiError(s) => ("WMI error: ", s),
            HvError::JsonError(s) => ("JSON serialization error: ", s),
            HvError::IoError(s) => ("IO error: ", s),
        };
        String::from_str(prefix).concat(detail.as_str())
    }
}

/// The error for a failed step: "<context>: <detail>", as an operation
/// failure.
pub fn operation_failed(context: &str, detail: &str) -> (r: HvError)
    ensures
        r matches HvError::OperationFailed(m) && m@ == context@ + ": "@ + detail@,
{
    HvError::OperationFailed(String::from_str(context).concat(": ").concat(detail))
}

} // verus!
