//! The objects that requests carry in and responses carry out.

use vstd::prelude::*;
use crate::clus::states::{
    group_state_name, node_state_name, resource_state_name, GroupState, NodeState, ResourceState,
};
use crate::vm::{vm_state_name, VmState};

verus! {


// =============================================================================
// Cluster DTOs
// =============================================================================

#[derive(Debug, Clone, PartialEq, Eq)]
pub struct NodeDto {
    pub name: String,
    pub state: String,
}

#[derive(Debug, Clone, PartialEq, Eq)]
pub struct GroupDto {
    pub name: String,
    pub state: String,
    pub owner_node: Option<String>,
}

#[derive(Debug, Clone, PartialEq, Eq)]
pub struct ResourceDto {
    pub name: String,
    pub state: String,
    pub owner_node: Option<String>,
}

#[derive(Debug, Clone, PartialEq, Eq)]
pub struct CsvDto {
    pub name: String,
    pub state: String,
    pub owner_node: Option<String>,
    pub is_csv: bool,
}

#[derive(Debug, Clone, PartialEq, Eq)]
pub struct CsvPathQuery {
    pub path: String,
}

#[derive(Debug, Clone, PartialEq, Eq)]
pub struct MaintenanceModeRequest {
    pub enable: bool,
}

#[derive(Debug, Clone, PartialEq, Eq)]
pub struct ClusterNameQuery {
    pub name: Option<String>,
}

// =============================================================================
// Hyper-V DTOs
// =============================================================================

#[derive(Debug, Clone, PartialEq, Eq)]
pub struct VmDto {
    pub id: String,
    pub name: String,
    pub state: String,
    pub cpu_count: Option<u32>,
    pub memory_mb: Option<u64>,
    pub uptime_seconds: Option<u64>,
}

#[derive(Debug, Clone, PartialEq, Eq)]
pub struct CreateVmRequest {
    pub name: String,
    pub memory_mb: u64,
    pub cpu_count: Option<u32>,
    pub generation: Option<u32>,
    pub vhd_path: Option<String>,
}

#[derive(Debug, Clone, PartialEq, Eq)]
pub struct SwitchDto {
    pub name: String,
    pub id: String,
    pub switch_type: String,
}

#[derive(Debug, Clone, PartialEq, Eq)]
pub struct CreateSwitchRequest {
    pub name: String,
    pub switch_type: String,
    pub network_adapter: Option<String>,
    pub allow_management_os: Option<bool>,
}

#[derive(Debug, Clone, PartialEq, Eq)]
pub struct VhdDto {
    pub path: String,
    pub format: String,
    pub vhd_type: String,
    pub max_size_bytes: u64,
    pub file_size_bytes: u64,
    pub parent_path: Option<String>,
    pub is_attached: bool,
}

#[derive(Debug, Clone, PartialEq, Eq)]
pub struct CreateVhdRequest {
    pub path: String,
    pub size_bytes: u64,
    pub vhd_type: Option<String>,
    pub block_size_bytes: Option<u32>,
}

#[derive(Debug, Clone, PartialEq, Eq)]
pub struct VhdPathRequest {
    pub path: String,
}

#[derive(Debug, Clone, PartialEq, Eq)]
pub struct ResizeVhdRequest {
    pub path: String,
    pub size_bytes: u64,
}

#[derive(Debug, Clone, PartialEq, Eq)]
pub struct DiffVhdRequest {
    pub path: String,
    pub parent_path: String,
}

#[derive(Debug, Clone, PartialEq, Eq)]
pub struct InitVhdRequest {
    pub path: String,
    pub partition_style: Option<String>,
    pub file_system: Option<String>,
    pub label: Option<String>,
}

#[derive(Debug, Clone, PartialEq, Eq)]
pub struct SnapshotDto {
    pub name: String,
    pub id: String,
    pub vm_name: String,
    pub creation_time: Option<String>,
    pub parent_name: Option<String>,
}

#[derive(Debug, Clone, PartialEq, Eq)]
pub struct CreateSnapshotRequest {
    pub name: String,
    pub snapshot_type: Option<String>,
}

#[derive(Debug, Clone, PartialEq, Eq)]
pub struct GpuDto {
    pub device_instance_id: String,
    pub name: String,
    pub description: String,
    pub manufacturer: String,
    pub supports_partitioning: bool,
}

#[derive(Debug, Clone, PartialEq, Eq)]
pub struct GpuAdapterDto {
    pub vm_name: String,
    pub instance_path: Option<String>,
    pub min_partition_vram: u64,
    pub max_partition_vram: u64,
    pub optimal_partition_vram: u64,
}

#[derive(Debug, Clone, PartialEq, Eq)]
pub struct AddGpuRequest {
    pub instance_path: Option<String>,
}

#[derive(Debug, Clone, PartialEq, Eq)]
pub struct ConfigureGpuRequest {
    pub low_mmio_gb: u32,
    pub high_mmio_gb: u32,
}

#[derive(Debug, Clone, PartialEq, Eq)]
pub struct DdaSupportDto {
    pub is_supported: bool,
    pub is_server: bool,
    pub has_iommu: bool,
    pub cmdlet_available: bool,
    pub reason: Option<String>,
}

#[derive(Debug, Clone, PartialEq, Eq)]
pub struct AssignableDeviceDto {
    pub instance_id: String,
    pub name: String,
    pub location_path: String,
    pub is_assigned: bool,
    pub assigned_vm: Option<String>,
    pub is_dismounted: bool,
    pub status: String,
}

#[derive(Debug, Clone, PartialEq, Eq)]
pub struct DevicePathRequest {
    pub instance_id: String,
}

#[derive(Debug, Clone, PartialEq, Eq)]
pub struct DeviceLocationRequest {
    pub location_path: String,
}

#[derive(Debug, Clone, PartialEq, Eq)]
pub struct DiskDto {
    pub controller_type: String,
    pub controller_number: u32,
    pub controller_location: u32,
    pub path: Option<String>,
}

#[derive(Debug, Clone, PartialEq, Eq)]
pub struct AttachDiskRequest {
    pub vhd_path: String,
}

#[derive(Debug, Clone, PartialEq, Eq)]
pub struct DetachDiskRequest {
    pub controller_number: u32,
    pub controller_location: u32,
}

#[derive(Debug, Clone, PartialEq, Eq)]
pub struct MountIsoRequest {
    pub iso_path: String,
}

#[derive(Debug, Clone, PartialEq, Eq)]
pub struct BootOrderRequest {
    pub devices: Vec<String>,
}

#[derive(Debug, Clone, PartialEq, Eq)]
pub struct ExportVmRequest {
    pub path: String,
}

#[derive(Debug, Clone, PartialEq, Eq)]
pub struct HostInfoDto {
    pub computer_name: String,
    pub logical_processor_count: u32,
    pub memory_capacity_bytes: u64,
    pub vm_path: String,
    pub vhd_path: String,
}

#[derive(Debug, Clone, PartialEq, Eq)]
pub struct NetworkAdapterDto {
    pub name: String,
    pub description: String,
    pub mac_address: String,
    pub link_speed: String,
}

#[derive(Debug, Clone, PartialEq, Eq)]
pub struct WindowsEditionDto {
    pub index: u32,
    pub name: String,
    pub description: String,
    pub size_bytes: u64,
}

#[derive(Debug, Clone, PartialEq, Eq)]
pub struct IsoPathQuery {
    pub path: String,
}

#[derive(Debug, Clone, PartialEq, Eq)]
pub struct CreateVhdxFromIsoRequest {
    pub iso_path: String,
    pub vhdx_path: String,
    pub size_gb: u64,
    pub edition_index: u32,
}

impl NodeDto {
    /// A node as listed: its name and the name of its state.
    pub fn from_node(name: &str, state: NodeState) -> (r: NodeDto)
        ensures
            r.name@ == name@,
            r.state@ == node_state_name(state),
    {
        NodeDto { name: String::from_str(name), state: state.name() }
    }
}

/// The state and owner reported for a group or resource whose state query
/// may have failed: a failed query reads as unknown state 0 with no owner.
pub open spec fn group_state_or_unknown(q: Option<(GroupState, Option<String>)>) -> (
    GroupState,
    Option<String>,
) {
    match q {
        Some(p) => p,
        None => (GroupState::Unknown(0), None),
    }
}

/// As `group_state_or_unknown`, for resources.
pub open spec fn resource_state_or_unknown(q: Option<(ResourceState, Option<String>)>) -> (
    ResourceState,
    Option<String>,
) {
    match q {
        Some(p) => p,
        None => (ResourceState::Unknown(0), None),
    }
}

impl GroupDto {
    /// A group as listed, from its name and the result of its state query.
    pub fn from_group(name: &str, queried: Option<(GroupState, Option<String>)>) -> (r: GroupDto)
        ensures
            r.name@ == name@,
            r.state@ == group_state_name(group_state_or_unknown(queried).0),
            r.owner_node == group_state_or_unknown(queried).1,
    {
        let (state, owner) = match queried {
            Some(p) => p,
            None => (GroupState::Unknown(0), None),
        };
        GroupDto { name: String::from_str(name), state: state.name(), owner_node: owner }
    }
}

impl ResourceDto {
    /// A resource as listed, from its name and the result of its state
    /// query.
    pub fn from_resource(name: &str, queried: Option<(ResourceState, Option<String>)>) -> (r:
        ResourceDto)
        ensures
            r.name@ == name@,
            r.state@ == resource_state_name(resource_state_or_unknown(queried).0),
            r.owner_node == resource_state_or_unknown(queried).1,
    {
        let (state, owner) = match queried {
            Some(p) => p,
            None => (ResourceState::Unknown(0), None),
        };
        ResourceDto { name: String::from_str(name), state: state.name(), owner_node: owner }
    }
}

impl CsvDto {
    /// A cluster shared volume as listed, from its resource's name and the
    /// result of its state query.
    pub fn from_resource(name: &str, queried: Option<(ResourceState, Option<String>)>) -> (r:
        CsvDto)
        ensures
            r.name@ == name@,
            r.state@ == resource_state_name(resource_state_or_unknown(queried).0),
            r.owner_node == resource_state_or_unknown(queried).1,
            r.is_csv,
    {
        let d = ResourceDto::from_resource(name, queried);
        CsvDto { name: d.name, state: d.state, owner_node: d.owner_node, is_csv: true }
    }
}

impl VmDto {
    /// A VM as listed: the state's name when it could be read, else empty;
    /// no uptime.
    pub fn from_vm(
        id: &str,
        name: &str,
        state: Option<VmState>,
        cpu_count: Option<u32>,
        memory_mb: Option<u64>,
    ) -> (r: VmDto)
        ensures
            r.id@ == id@,
            r.name@ == name@,
            r.state@ == (match state {
                Some(s) => vm_state_name(s),
                None => Seq::empty(),
            }),
            r.cpu_count == cpu_count,
            r.memory_mb == memory_mb,
            r.uptime_seconds is None,
    {
        let state_text = match state {
            Some(s) => String::from_str(s.name()),
            None => String::new(),
        };
        VmDto {
            id: String::from_str(id),
            name: String::from_str(name),
            state: state_text,
            cpu_count,
            memory_mb,
            uptime_seconds: None,
        }
    }
}

impl SnapshotDto {
    /// A snapshot as listed: the creation time and the parent's name when
    /// they could be read.
    pub fn from_snapshot(
        name: &str,
        id: &str,
        vm_name: &str,
        creation_time: Option<String>,
        parent_name: Option<Option<String>>,
    ) -> (r: SnapshotDto)
        ensures
            r.name@ == name@,
            r.id@ == id@,
            r.vm_name@ == vm_name@,
            r.creation_time == creation_time,
            r.parent_name == (match parent_name {
                Some(p) => p,
                None => None,
            }),
    {
        SnapshotDto {
            name: String::from_str(name),
            id: String::from_str(id),
            vm_name: String::from_str(vm_name),
            creation_time,
            parent_name: match parent_name {
                Some(p) => p,
                None => None,
            },
        }
    }
}

} // verus!
