//! Records read from the `Msvm_*` WMI classes.

use vstd::prelude::*;
use crate::wmi::hyperv::EnabledState;

verus! {

/// A Hyper-V VM as read from `Msvm_ComputerSystem`.
#[derive(Debug, Clone)]
pub struct MsvmVm {
    /// VM name (ElementName)
    pub name: String,
    /// VM GUID (Name property)
    pub id: String,
    /// Enabled state
    pub enabled_state: EnabledState,
    /// Health state
    pub health_state: u32,
    /// Number of processors
    pub processor_count: Option<u32>,
    /// Memory in MB
    pub memory_mb: Option<u64>,
    /// VM generation (1 or 2)
    pub generation: Option<u32>,
    /// Creation time
    pub creation_time: Option<String>,
    /// Notes/description
    pub notes: Option<String>,
    /// WMI object path for operations
    pub path: String,
}

/// The human-readable name of an enabled state.
pub open spec fn state_string_of(s: EnabledState) -> Seq<char> {
    match s {
        EnabledState::Enabled => "Running"@,
        EnabledState::Disabled => "Off"@,
        EnabledState::Paused => "Paused"@,
        EnabledState::Suspended => "Saved"@,
        EnabledState::Starting => "Starting"@,
        EnabledState::Starting2 => "Starting"@,
        EnabledState::Stopping => "Stopping"@,
        EnabledState::Saving => "Saving"@,
        EnabledState::Pausing => "Pausing"@,
        EnabledState::Resuming => "Resuming"@,
        EnabledState::ShuttingDown => "Shutting Down"@,
        _ => "Unknown"@,
    }
}

impl MsvmVm {
    /// Whether the VM is running.
    pub fn is_running(&self) -> (r: bool)
        ensures
            r == (self.enabled_state == EnabledState::Enabled),
    {
        match self.enabled_state {
            EnabledState::Enabled => true,
            _ => false,
        }
    }

    /// Whether the VM is off.
    pub fn is_off(&self) -> (r: bool)
        ensures
            r == (self.enabled_state == EnabledState::Disabled),
    {
        match self.enabled_state {
            EnabledState::Disabled => true,
            _ => false,
        }
    }

    /// A human-readable state name.
    pub fn state_string(&self) -> (r: &'static str)
        ensures
            r@ == state_string_of(self.enabled_state),
    {
        match self.enabled_state {
            EnabledState::Enabled => "Running",
            EnabledState::Disabled => "Off",
            EnabledState::Paused => "Paused",
            EnabledState::Suspended => "Saved",
            EnabledState::Starting | EnabledState::Starting2 => "Starting",
            EnabledState::Stopping => "Stopping",
            EnabledState::Saving => "Saving",
            EnabledState::Pausing => "Pausing",
            EnabledState::Resuming => "Resuming",
            EnabledState::ShuttingDown => "Shutting Down",
            _ => "Unknown",
        }
    }
}

/// A virtual switch as read from `Msvm_VirtualEthernetSwitch`.
#[derive(Debug, Clone)]
pub struct MsvmSwitch {
    pub name: String,
    pub id: String,
    pub switch_type: Option<String>,
    pub health_state: u32,
    pub path: String,
}

/// A snapshot as read from `Msvm_VirtualSystemSettingData`.
#[derive(Debug, Clone)]
pub struct MsvmSnapshot {
    pub name: String,
    pub id: String,
    pub vm_id: String,
    pub creation_time: Option<String>,
    pub notes: Option<String>,
    pub path: String,
}

/// VM settings as read from `Msvm_VirtualSystemSettingData`.
#[derive(Debug, Clone)]
pub struct MsvmVmSettings {
    pub instance_id: String,
    pub name: String,
    pub generation: Option<u32>,
    pub notes: Option<String>,
    pub bios_guid: Option<String>,
    pub config_path: Option<String>,
    pub path: String,
}

/// The generation recorded for a `VirtualSystemSubType` value: 2 for 2,
/// otherwise 1.
pub fn generation_from_subtype(subtype: Option<u32>) -> (r: Option<u32>)
    ensures
        r == match subtype {
            Some(v) => Some(if v == 2 { 2u32 } else { 1u32 }),
            None => None,
        },
{
    match subtype {
        Some(v) => Some(if v == 2 { 2 } else { 1 }),
        None => None,
    }
}

/// Memory settings as read from `Msvm_MemorySettingData`.
#[derive(Debug, Clone)]
pub struct MsvmMemorySettings {
    pub virtual_quantity_mb: u64,
    pub dynamic_memory_enabled: bool,
    pub minimum_mb: Option<u64>,
    pub maximum_mb: Option<u64>,
    pub target_memory_buffer: Option<u32>,
}

/// Processor settings as read from `Msvm_ProcessorSettingData`.
#[derive(Debug, Clone)]
pub struct MsvmProcessorSettings {
    pub virtual_quantity: u32,
    pub limit: Option<u32>,
    pub reservation: Option<u32>,
    pub weight: Option<u32>,
}

/// A network adapter as read from `Msvm_SyntheticEthernetPortSettingData`.
#[derive(Debug, Clone)]
pub struct MsvmNetworkAdapter {
    pub name: String,
    pub mac_address: Option<String>,
    pub static_mac_address: bool,
    pub switch_path: Option<String>,
    pub path: String,
}

/// A hard disk as read from `Msvm_StorageAllocationSettingData`.
#[derive(Debug, Clone)]
pub struct MsvmHardDisk {
    pub name: String,
    pub vhd_path: Option<String>,
    pub controller_number: Option<u32>,
    pub controller_location: Option<u32>,
    pub path: String,
}

/// A DVD drive as read from `Msvm_ResourceAllocationSettingData`.
#[derive(Debug, Clone)]
pub struct MsvmDvdDrive {
    pub name: String,
    pub iso_path: Option<String>,
    pub path: String,
}

} // verus!
