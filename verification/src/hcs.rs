//! Host Compute Service (HCS) records and VM configuration documents.

use vstd::prelude::*;

verus! {

/// Default timeout for HCS operations, in milliseconds (5 minutes).
pub const DEFAULT_TIMEOUT_MS: u32 = 300000;

/// HCS compute system info from enumeration.
#[derive(Debug, Clone)]
pub struct ComputeSystemInfo {
    pub id: String,
    pub name: Option<String>,
    pub owner: Option<String>,
    pub system_type: Option<String>,
    pub state: Option<String>,
    pub runtime_os_type: Option<String>,
}

/// The query used to enumerate compute systems when none is given.
pub fn enumeration_query(query: Option<&str>) -> (r: &str)
    ensures
        match query {
            Some(q) => r@ == q@,
            None => r@ == "{\"Owners\": null}"@,
        },
{
    match query {
        Some(q) => q,
        None => "{\"Owners\": null}",
    }
}

/// HCS VM configuration schema.
#[derive(Debug, Clone)]
pub struct VmConfiguration {
    pub schema_version: SchemaVersion,
    pub owner: String,
    pub should_terminate_on_last_handle_closed: bool,
    pub virtual_machine: VirtualMachineConfig,
}

/// Schema version of a configuration document.
#[derive(Debug, Clone, Copy)]
pub struct SchemaVersion {
    pub major: u32,
    pub minor: u32,
}

/// The virtual machine section of a configuration document.
#[derive(Debug, Clone)]
pub struct VirtualMachineConfig {
    pub stop_on_reset: bool,
    pub chipset: ChipsetConfig,
    pub compute_topology: ComputeTopologyConfig,
    pub devices: Option<DevicesConfig>,
}

/// Chipset configuration.
#[derive(Debug, Clone)]
pub struct ChipsetConfig {
    pub uefi: Option<UefiConfig>,
}

/// UEFI configuration.
#[derive(Debug, Clone)]
pub struct UefiConfig {
    pub boot_this: Option<BootConfig>,
}

/// Boot device configuration.
#[derive(Debug, Clone)]
pub struct BootConfig {
    pub device_type: String,
    pub device_path: String,
}

/// Memory and processors.
#[derive(Debug, Clone, Copy)]
pub struct ComputeTopologyConfig {
    pub memory: MemoryConfig,
    pub processor: ProcessorConfig,
}

/// Memory size.
#[derive(Debug, Clone, Copy)]
pub struct MemoryConfig {
    pub size_in_mb: u64,
}

/// Processor count.
#[derive(Debug, Clone, Copy)]
pub struct ProcessorConfig {
    pub count: u32,
}

/// Devices of a configuration document. Network adapters are kept as JSON
/// text.
#[derive(Debug, Clone)]
pub struct DevicesConfig {
    pub scsi: Option<ScsiConfig>,
    pub network_adapters: Option<String>,
    pub gpu: Option<GpuConfiguration>,
}

/// GPU configuration for an HCS VM.
#[derive(Debug, Clone)]
pub struct GpuConfiguration {
    pub assignment_mode: GpuAssignmentMode,
    pub assignment_request: Option<GpuAssignmentRequest>,
    pub allow_vendor_extension: Option<bool>,
}

/// GPU assignment mode.
#[derive(Debug, Clone, Copy, PartialEq, Eq, Structural)]
pub enum GpuAssignmentMode {
    /// GPU disabled
    Disabled,
    /// Default GPU assignment
    Default,
    /// Specific GPU list assignment
    List,
    /// Mirror host GPU configuration
    Mirror,
}

/// GPU assignment request.
#[derive(Debug, Clone)]
pub struct GpuAssignmentRequest {
    pub gpus: Option<Vec<GpuDevice>>,
}

/// GPU device configuration.
#[derive(Debug, Clone)]
pub struct GpuDevice {
    pub device_instance_path: String,
    pub min_partition: Option<u64>,
    pub max_partition: Option<u64>,
    pub optimal_partition: Option<u64>,
}

/// SCSI attachments, keyed by attachment slot name; no key occurs twice.
#[derive(Debug, Clone)]
pub struct ScsiConfig {
    pub attachments: Vec<(String, ScsiAttachment)>,
}

/// One SCSI attachment.
#[derive(Debug, Clone)]
pub struct ScsiAttachment {
    pub attachment_type: String,
    pub path: String,
}

impl VmConfiguration {
    /// A generation 2 (UEFI) VM configuration owned by `name`, schema 2.1,
    /// terminated when its last handle closes and stopped on reset, with
    /// no devices.
    pub fn new_gen2(name: &str, memory_mb: u64, cpu_count: u32) -> (r: Self)
        ensures
            r.schema_version.major == 2 && r.schema_version.minor == 1,
            r.owner@ == name@,
            r.should_terminate_on_last_handle_closed,
            r.virtual_machine.stop_on_reset,
            r.virtual_machine.chipset.uefi matches Some(u) && u.boot_this is None,
            r.virtual_machine.compute_topology.memory.size_in_mb == memory_mb,
            r.virtual_machine.compute_topology.processor.count == cpu_count,
            r.virtual_machine.devices is None,
    {
        VmConfiguration {
            schema_version: SchemaVersion { major: 2, minor: 1 },
            owner: String::from_str(name),
            should_terminate_on_last_handle_closed: true,
            virtual_machine: VirtualMachineConfig {
                stop_on_reset: true,
                chipset: ChipsetConfig { uefi: Some(UefiConfig { boot_this: None }) },
                compute_topology: ComputeTopologyConfig {
                    memory: MemoryConfig { size_in_mb: memory_mb },
                    processor: ProcessorConfig { count: cpu_count },
                },
                devices: None,
            },
        }
    }

    /// The configuration with its devices replaced by one SCSI attachment,
    /// slot "0", holding the virtual hard disk at `vhd_path`.
    pub fn with_vhd(self, vhd_path: &str) -> (r: Self)
        ensures
            r.schema_version == self.schema_version,
            r.owner == self.owner,
            r.should_terminate_on_last_handle_closed == self.should_terminate_on_last_handle_closed,
            r.virtual_machine.stop_on_reset == self.virtual_machine.stop_on_reset,
            r.virtual_machine.chipset == self.virtual_machine.chipset,
            r.virtual_machine.compute_topology == self.virtual_machine.compute_topology,
            ({
                &&& r.virtual_machine.devices matches Some(d)
                &&& d.network_adapters is None
                &&& d.gpu is None
                &&& d.scsi matches Some(scsi)
                &&& scsi.attachments@.len() == 1
                &&& scsi.attachments@[0].0@ == "0"@
                &&& scsi.attachments@[0].1.attachment_type@ == "VirtualHardDisk"@
                &&& scsi.attachments@[0].1.path@ == vhd_path@
            }),
    {
        let mut attachments: Vec<(String, ScsiAttachment)> = Vec::new();
        attachments.push(
            (
                String::from_str("0"),
                ScsiAttachment {
                    attachment_type: String::from_str("VirtualHardDisk"),
                    path: String::from_str(vhd_path),
                },
            ),
        );
        let mut config = self;
        config.virtual_machine.devices = Some(
            DevicesConfig {
                scsi: Some(ScsiConfig { attachments }),
                network_adapters: None,
                gpu: None,
            },
        );
        config
    }
}

} // verus!
