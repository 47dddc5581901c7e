//! What the handlers decide from a request before they act: defaults, the
//! choice among named kinds, and the refusal of malformed requests.

use vstd::prelude::*;
use crate::api::dto::CreateSwitchRequest;
use crate::api::response::{api_error, ApiError, STATUS_BAD_REQUEST};
use crate::disk::{FileSystem, PartitionStyle};
use crate::snapshot::SnapshotType;
use crate::text::{lowercase, str_eq, to_lowercase};
use crate::vhd::VhdType;
use crate::vm::VmGeneration;

verus! {

/// Whether `v` holds the text `name`.
pub open spec fn names(v: Option<String>, name: Seq<char>) -> bool {
    v matches Some(s) && s@ == name
}

fn holds(v: &Option<String>, name: &str) -> (r: bool)
    ensures
        r == names(*v, name@),
{
    match v {
        Some(s) => str_eq(s.as_str(), name),
        None => false,
    }
}

/// The generation of a new VM: 1 asks for generation 1; any other number,
/// and no number (which means 2), give generation 2.
pub fn vm_generation_choice(generation: Option<u32>) -> (r: VmGeneration)
    ensures
        r == (if generation == Some(1u32) {
            VmGeneration::Gen1
        } else {
            VmGeneration::Gen2
        }),
{
    let g = match generation {
        Some(g) => g,
        None => 2,
    };
    if g == 1 {
        VmGeneration::Gen1
    } else {
        VmGeneration::Gen2
    }
}

/// The processor count of a new VM: the one asked for, else 2.
pub fn cpu_count_choice(cpu_count: Option<u32>) -> (r: u32)
    ensures
        r == (match cpu_count {
            Some(n) => n,
            None => 2,
        }),
{
    match cpu_count {
        Some(n) => n,
        None => 2,
    }
}

/// The kind of a new snapshot: "Production" and "ProductionOnly" ask for a
/// production snapshot; anything else, or nothing, gives a standard one.
pub fn snapshot_type_choice(snapshot_type: &Option<String>) -> (r: SnapshotType)
    ensures
        r == (if names(*snapshot_type, "Production"@) || names(
            *snapshot_type,
            "ProductionOnly"@,
        ) {
            SnapshotType::Production
        } else {
            SnapshotType::Standard
        }),
{
    if holds(snapshot_type, "Production") || holds(snapshot_type, "ProductionOnly") {
        SnapshotType::Production
    } else {
        SnapshotType::Standard
    }
}

/// The type of a new virtual disk: "Fixed" or "Differencing" as named;
/// anything else, or nothing, gives a dynamic disk.
pub fn vhd_type_choice(vhd_type: &Option<String>) -> (r: VhdType)
    ensures
        r == (if names(*vhd_type, "Fixed"@) {
            VhdType::Fixed
        } else if names(*vhd_type, "Differencing"@) {
            VhdType::Differencing
        } else {
            VhdType::Dynamic
        }),
{
    if holds(vhd_type, "Fixed") {
        VhdType::Fixed
    } else if holds(vhd_type, "Differencing") {
        VhdType::Differencing
    } else {
        VhdType::Dynamic
    }
}

/// The partition style for initializing a disk: "Mbr" or "MBR" give MBR;
/// anything else, or nothing, gives GPT.
pub fn partition_style_choice(partition_style: &Option<String>) -> (r: PartitionStyle)
    ensures
        r == (if names(*partition_style, "Mbr"@) || names(*partition_style, "MBR"@) {
            PartitionStyle::Mbr
        } else {
            PartitionStyle::Gpt
        }),
{
    if holds(partition_style, "Mbr") || holds(partition_style, "MBR") {
        PartitionStyle::Mbr
    } else {
        PartitionStyle::Gpt
    }
}

/// The file system for initializing a disk: "ReFS"/"refs", "FAT32"/"fat32"
/// and "ExFAT"/"exfat" as named; anything else, or nothing, gives NTFS.
pub fn file_system_choice(file_system: &Option<String>) -> (r: FileSystem)
    ensures
        r == (if names(*file_system, "ReFS"@) || names(*file_system, "refs"@) {
            FileSystem::ReFs
        } else if names(*file_system, "FAT32"@) || names(*file_system, "fat32"@) {
            FileSystem::Fat32
        } else if names(*file_system, "ExFAT"@) || names(*file_system, "exfat"@) {
            FileSystem::ExFat
        } else {
            FileSystem::Ntfs
        }),
{
    if holds(file_system, "ReFS") || holds(file_system, "refs") {
        FileSystem::ReFs
    } else if holds(file_system, "FAT32") || holds(file_system, "fat32") {
        FileSystem::Fat32
    } else if holds(file_system, "ExFAT") || holds(file_system, "exfat") {
        FileSystem::ExFat
    } else {
        FileSystem::Ntfs
    }
}

/// How a requested switch is to be created.
#[derive(Debug, Clone, PartialEq, Eq)]
pub enum SwitchPlan {
    /// Bound to a physical adapter, shared with the host or not.
    External { network_adapter: String, allow_management_os: bool },
    /// Connecting the VMs and the host.
    Internal,
    /// Connecting the VMs only.
    Private,
}

/// The message refusing an external switch without an adapter.
pub open spec fn missing_adapter_message() -> Seq<char> {
    "network_adapter required for external switch"@
}

/// The message refusing an unknown switch type.
pub open spec fn invalid_switch_type_message() -> Seq<char> {
    "Invalid switch_type"@
}

/// Whether `e` is a bad-request reply with `message`.
pub open spec fn is_bad_request(e: ApiError, message: Seq<char>) -> bool {
    &&& e.status == STATUS_BAD_REQUEST
    &&& !e.body.success
    &&& e.body.data is None
    &&& e.body.error matches Some(m) && m@ == message
}

/// The plan for a switch whose type name, already lowercased, is `kind`:
/// "external" needs an adapter (and shares it with the host unless told
/// otherwise), "internal" and "private" need nothing more, and any other
/// name is refused.
pub open spec fn switch_plan_holds(
    kind: Seq<char>,
    network_adapter: Option<String>,
    allow_management_os: Option<bool>,
    r: Result<SwitchPlan, ApiError>,
) -> bool {
    if kind == "external"@ {
        match network_adapter {
            Some(a) => r matches Ok(SwitchPlan::External { network_adapter, allow_management_os: allow })
                && network_adapter@ == a@ && allow == (match allow_management_os {
                Some(b) => b,
                None => true,
            }),
            None => r matches Err(e) && is_bad_request(e, missing_adapter_message()),
        }
    } else if kind == "internal"@ {
        r == Ok::<SwitchPlan, ApiError>(SwitchPlan::Internal)
    } else if kind == "private"@ {
        r == Ok::<SwitchPlan, ApiError>(SwitchPlan::Private)
    } else {
        r matches Err(e) && is_bad_request(e, invalid_switch_type_message())
    }
}

/// Plans a switch from its lowercased type name and the request's other
/// fields.
pub fn switch_plan_for_kind(
    kind: &str,
    network_adapter: Option<String>,
    allow_management_os: Option<bool>,
) -> (r: Result<SwitchPlan, ApiError>)
    ensures
        switch_plan_holds(kind@, network_adapter, allow_management_os, r),
{
    if str_eq(kind, "external") {
        match network_adapter {
            Some(a) => {
                let allow = match allow_management_os {
                    Some(b) => b,
                    None => true,
                };
                Ok(SwitchPlan::External { network_adapter: a, allow_management_os: allow })
            },
            None => Err(
                api_error(STATUS_BAD_REQUEST, "network_adapter required for external switch"),
            ),
        }
    } else if str_eq(kind, "internal") {
        Ok(SwitchPlan::Internal)
    } else if str_eq(kind, "private") {
        Ok(SwitchPlan::Private)
    } else {
        Err(api_error(STATUS_BAD_REQUEST, "Invalid switch_type"))
    }
}

/// Plans the switch that a creation request asks for; its type name is
/// compared without regard to case.
pub fn switch_plan(req: &CreateSwitchRequest) -> (r: Result<SwitchPlan, ApiError>)
    ensures
        switch_plan_holds(
            lowercase(req.switch_type@),
            req.network_adapter,
            req.allow_management_os,
            r,
        ),
{
    let kind = to_lowercase(req.switch_type.as_str());
    switch_plan_for_kind(kind.as_str(), req.network_adapter.clone(), req.allow_management_os)
}

} // verus!
