//! The Hyper-V WMI model: the `Msvm_*` records, the state codes they carry,
//! and the text of the WQL queries that fetch them.

pub mod hyperv;
pub mod msvm;
pub mod operations;

use vstd::prelude::*;

verus! {

/// Hyper-V WMI namespace.
pub const HYPERV_NAMESPACE: &'static str = "root\\virtualization\\v2";

/// CIM V2 namespace for general system info.
pub const CIMV2_NAMESPACE: &'static str = "root\\cimv2";

} // verus!
