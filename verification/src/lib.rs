//! Verified core of a Windows infrastructure management toolkit: number
//! utilities, a singly linked list, the decision logic behind Hyper-V and
//! Failover Cluster management (state mapping, command and query text,
//! output interpretation), and the REST service's configuration, replies
//! and request decisions.

pub mod api;
pub mod big_number;
pub mod clus;
pub mod disk;
pub mod error;
pub mod gpu;
pub mod hcs;
pub mod hello;
pub mod host;
pub mod linked_list;
pub mod math;
pub mod operations;
pub mod powershell;
pub mod snapshot;
pub mod switch;
pub mod text;
pub mod vhd;
pub mod wide;
pub mod vm;
pub mod wmi;
