//! GPU partitioning (GPU-P) and discrete device assignment (DDA): records,
//! support rules and the PowerShell commands behind them.

use vstd::prelude::*;
use crate::clus::enumerate::ERROR_NO_MORE_ITEMS;
use crate::error::{operation_failed, HvError};
use crate::powershell::{
    action_result, decoded_records, json_kind, listing_json, listing_json_or_empty,
    CommandOutput, JsonOutput,
};
use crate::text::{
    chars_of, contains_seq, contains_str, decimal_seq, lowercase, push_char, push_decimal,
    split_char, split_pieces, str_eq, to_lowercase, trim, trim_seq,
};

verus! {

/// Information about a GPU device on the host.
#[derive(Debug, Clone)]
pub struct GpuInfo {
    /// Device instance ID (used for GPU-P assignment)
    pub device_instance_id: String,
    /// Friendly name
    pub name: String,
    /// Device description
    pub description: String,
    /// Manufacturer
    pub manufacturer: String,
    /// Hardware IDs
    pub hardware_ids: Vec<String>,
    /// Driver information
    pub driver: Option<String>,
    /// Location information
    pub location: Option<String>,
    /// Whether this GPU supports partitioning (GPU-P)
    pub supports_partitioning: bool,
}

/// GPU partition adapter configuration for a VM. Sizes are in bytes;
/// capacities are 0 to 100.
#[derive(Debug, Clone)]
pub struct GpuPartitionAdapter {
    pub vm_name: String,
    pub instance_path: Option<String>,
    pub min_partition_vram: Option<u64>,
    pub max_partition_vram: Option<u64>,
    pub optimal_partition_vram: Option<u64>,
    pub min_partition_encode: Option<u64>,
    pub max_partition_encode: Option<u64>,
    pub optimal_partition_encode: Option<u64>,
    pub min_partition_decode: Option<u64>,
    pub max_partition_decode: Option<u64>,
    pub optimal_partition_decode: Option<u64>,
    pub min_partition_compute: Option<u64>,
    pub max_partition_compute: Option<u64>,
    pub optimal_partition_compute: Option<u64>,
}

impl Default for GpuPartitionAdapter {
    /// An adapter with no VM name and no setting.
    fn default() -> (r: Self)
        ensures
            r.vm_name@ == Seq::<char>::empty(),
            r.instance_path is None,
            r.min_partition_vram is None,
            r.max_partition_vram is None,
            r.optimal_partition_vram is None,
            r.min_partition_encode is None,
            r.max_partition_encode is None,
            r.optimal_partition_encode is None,
            r.min_partition_decode is None,
            r.max_partition_decode is None,
            r.optimal_partition_decode is None,
            r.min_partition_compute is None,
            r.max_partition_compute is None,
            r.optimal_partition_compute is None,
    {
        GpuPartitionAdapter {
            vm_name: String::new(),
            instance_path: None,
            min_partition_vram: None,
            max_partition_vram: None,
            optimal_partition_vram: None,
            min_partition_encode: None,
            max_partition_encode: None,
            optimal_partition_encode: None,
            min_partition_decode: None,
            max_partition_decode: None,
            optimal_partition_decode: None,
            min_partition_compute: None,
            max_partition_compute: None,
            optimal_partition_compute: None,
        }
    }
}

/// The command adding a GPU partition adapter to a VM, optionally bound
/// to one GPU.
pub fn add_gpu_partition_adapter_command(vm_name: &str, instance_path: Option<&str>) -> (r:
    String)
    ensures
        r@ == "Add-VMGpuPartitionAdapter -VMName '"@ + vm_name@ + "'"@ + match instance_path {
            Some(p) => " -InstancePath '"@ + p@ + "'"@,
            None => Seq::empty(),
        },
{
    let cmd = String::from_str("Add-VMGpuPartitionAdapter -VMName '").concat(vm_name).concat("'");
    match instance_path {
        Some(p) => cmd.concat(" -InstancePath '").concat(p).concat("'"),
        None => cmd,
    }
}

/// The command removing a VM's GPU partition adapter.
pub fn remove_gpu_partition_adapter_command(vm_name: &str) -> (r: String)
    ensures
        r@ == "Remove-VMGpuPartitionAdapter -VMName '"@ + vm_name@ + "'"@,
{
    String::from_str("Remove-VMGpuPartitionAdapter -VMName '").concat(vm_name).concat("'")
}

/// The command setting the cache types and MMIO space GPU-P needs.
pub fn configure_vm_for_gpu_command(vm_name: &str, low_mmio_gb: u32, high_mmio_gb: u32) -> (r:
    String)
    ensures
        r@ == "\n        Set-VM -Name '"@ + vm_name@
            + "' -GuestControlledCacheTypes $true -LowMemoryMappedIoSpace "@ + decimal_seq(
            low_mmio_gb as nat,
        ) + "GB -HighMemoryMappedIoSpace "@ + decimal_seq(high_mmio_gb as nat) + "GB\n        "@,
{
    let mut cmd = String::from_str("\n        Set-VM -Name '").concat(vm_name).concat(
        "' -GuestControlledCacheTypes $true -LowMemoryMappedIoSpace ",
    );
    push_decimal(&mut cmd, low_mmio_gb as u64);
    cmd.append("GB -HighMemoryMappedIoSpace ");
    push_decimal(&mut cmd, high_mmio_gb as u64);
    cmd.append("GB\n        ");
    cmd
}

/// Information about a device that can be assigned via DDA.
#[derive(Debug, Clone)]
pub struct AssignableDevice {
    /// Device instance path
    pub instance_id: String,
    /// Device friendly name
    pub name: String,
    /// Location path (required for DDA assignment)
    pub location_path: String,
    /// Whether the device is currently assigned to a VM
    pub is_assigned: bool,
    /// VM name if assigned
    pub assigned_vm: Option<String>,
    /// Whether the device is dismounted from host
    pub is_dismounted: bool,
    /// Device status
    pub status: String,
}

/// A device as the device listing prints it; every field may be missing.
#[derive(Debug, Clone)]
pub struct DeviceRecord {
    pub instance_id: Option<String>,
    pub name: Option<String>,
    pub location_path: Option<String>,
    pub is_assigned: Option<bool>,
    pub assigned_vm: Option<String>,
    pub is_dismounted: Option<bool>,
    pub status: Option<String>,
}

/// The text of an optional field, empty when missing.
pub open spec fn text_or_empty(v: Option<String>) -> Seq<char> {
    match v {
        Some(s) => s@,
        None => Seq::empty(),
    }
}

/// The value of an optional flag, or `default`.
pub open spec fn flag_or(v: Option<bool>, default: bool) -> bool {
    match v {
        Some(b) => b,
        None => default,
    }
}

fn string_or_empty(v: Option<String>) -> (r: String)
    ensures
        r@ == text_or_empty(v),
{
    match v {
        Some(s) => s,
        None => String::new(),
    }
}

/// Whether `r` is the device that `d` lists. Missing texts are empty;
/// missing flags take `assumed`: the host listing assumes neither assigned
/// nor dismounted (false), a VM's own listing assumes both (true).
pub open spec fn device_of_record(d: DeviceRecord, assumed: bool, r: AssignableDevice) -> bool {
    &&& r.instance_id@ == text_or_empty(d.instance_id)
    &&& r.name@ == text_or_empty(d.name)
    &&& r.location_path@ == text_or_empty(d.location_path)
    &&& r.is_assigned == flag_or(d.is_assigned, assumed)
    &&& r.assigned_vm == d.assigned_vm
    &&& r.is_dismounted == flag_or(d.is_dismounted, assumed)
    &&& r.status@ == text_or_empty(d.status)
}

impl AssignableDevice {
    /// A device from a listing record.
    pub fn from_record(d: &DeviceRecord, assumed: bool) -> (r: AssignableDevice)
        ensures
            device_of_record(*d, assumed, r),
    {
        AssignableDevice {
            instance_id: string_or_empty(d.instance_id.clone()),
            name: string_or_empty(d.name.clone()),
            location_path: string_or_empty(d.location_path.clone()),
            is_assigned: match d.is_assigned {
                Some(b) => b,
                None => assumed,
            },
            assigned_vm: d.assigned_vm.clone(),
            is_dismounted: match d.is_dismounted {
                Some(b) => b,
                None => assumed,
            },
            status: string_or_empty(d.status.clone()),
        }
    }
}

/// The devices of a listing, in its order, with missing flags `assumed`.
pub fn devices_from_records(records: &Vec<DeviceRecord>, assumed: bool) -> (r: Vec<
    AssignableDevice,
>)
    ensures
        r.len() == records.len(),
        forall|i: int| 0 <= i < r.len() ==> device_of_record(#[trigger] records[i], assumed, r[i]),
{
    let mut out: Vec<AssignableDevice> = Vec::new();
    let mut i: usize = 0;
    while i < records.len()
        invariant
            i <= records.len(),
            out.len() == i,
            forall|j: int| 0 <= j < i ==> device_of_record(#[trigger] records[j], assumed, out[j]),
        decreases records.len() - i,
    {
        out.push(AssignableDevice::from_record(&records[i], assumed));
        i = i + 1;
    }
    out
}

/// DDA assignment mode.
#[derive(Debug, Clone, Copy, PartialEq, Eq, Structural)]
pub enum DdaAssignmentMode {
    /// Direct assignment - device is exclusively assigned to VM
    Direct,
    /// Instance path assignment
    InstancePath,
    /// Location path assignment
    LocationPath,
}

/// Information about DDA support on this host.
#[derive(Debug, Clone)]
pub struct DdaSupportInfo {
    /// Whether DDA is fully supported
    pub is_supported: bool,
    /// Whether this is Windows Server
    pub is_server: bool,
    /// Whether IOMMU is detected
    pub has_iommu: bool,
    /// Whether DDA cmdlets are available
    pub cmdlet_available: bool,
    /// Reason if not supported
    pub reason: Option<String>,
}

impl DdaSupportInfo {
    /// The support verdict for the host's answers: DDA needs Windows
    /// Server, a hardware IOMMU (Intel VT-d or AMD-Vi) and the DDA cmdlets;
    /// the reason names the first one missing, in that order, and there is
    /// a reason exactly when DDA is not supported.
    pub fn from_checks(is_server: bool, has_iommu: bool, cmdlet_available: bool) -> (r: Self)
        ensures
            r.is_supported == (is_server && has_iommu && cmdlet_available),
            r.is_server == is_server,
            r.has_iommu == has_iommu,
            r.cmdlet_available == cmdlet_available,
            r.reason is None <==> r.is_supported,
            !is_server ==> (r.reason matches Some(m) && m@ == "DDA requires Windows Server"@),
            is_server && !has_iommu ==> (r.reason matches Some(m) && m@
                == "DDA requires a hardware IOMMU (Intel VT-d or AMD-Vi)"@),
            is_server && has_iommu && !cmdlet_available ==> (r.reason matches Some(m) && m@
                == "DDA cmdlets not available"@),
    {
        DdaSupportInfo {
            is_supported: is_server && has_iommu && cmdlet_available,
            is_server,
            has_iommu,
            cmdlet_available,
            reason: if !is_server {
                Some(String::from_str("DDA requires Windows Server"))
            } else if !has_iommu {
                Some(String::from_str("DDA requires a hardware IOMMU (Intel VT-d or AMD-Vi)"))
            } else if !cmdlet_available {
                Some(String::from_str("DDA cmdlets not available"))
            } else {
                None
            },
        }
    }
}

/// The device's PCI location path from the location query: a query that
/// could not be started ("Failed to get location path: <why>"), a failed
/// query and an empty answer are errors.
pub fn location_path_from_output(instance_id: &str, run: &Result<CommandOutput, String>) -> (r: Result<
    String,
    HvError,
>)
    ensures
        match run {
            Err(why) => r matches Err(HvError::OperationFailed(m)) && m@
                == "Failed to get location path"@ + ": "@ + why@,
            Ok(out) => {
                &&& !out.success ==> (r matches Err(HvError::OperationFailed(m)) && m@
                    == "Failed to get device location path"@)
                &&& out.success && trim_seq(out.stdout@).len() == 0 ==> (r matches Err(
                    HvError::OperationFailed(m),
                ) && m@ == "No PCI location path found for device: "@ + instance_id@)
                &&& out.success && trim_seq(out.stdout@).len() > 0 ==> (r matches Ok(p) && p@
                    == trim_seq(out.stdout@))
            },
        },
{
    let out = match run {
        Ok(out) => out,
        Err(why) => {
            return Err(operation_failed("Failed to get location path", why.as_str()));
        },
    };
    if !out.success {
        return Err(HvError::OperationFailed(String::from_str("Failed to get device location path")));
    }
    let path = trim(out.stdout.as_str());
    let cs = chars_of(path.as_str());
    if cs.len() == 0 {
        return Err(
            HvError::OperationFailed(
                String::from_str("No PCI location path found for device: ").concat(instance_id),
            ),
        );
    }
    Ok(path)
}

/// The command dismounting a device from the host.
pub fn dismount_device_command(location_path: &str) -> (r: String)
    ensures
        r@ == "Dismount-VMHostAssignableDevice -LocationPath '"@ + location_path@ + "' -Force"@,
{
    String::from_str("Dismount-VMHostAssignableDevice -LocationPath '").concat(location_path).concat(
        "' -Force",
    )
}

/// The command mounting a device back to the host.
pub fn mount_device_command(location_path: &str) -> (r: String)
    ensures
        r@ == "Mount-VMHostAssignableDevice -LocationPath '"@ + location_path@ + "'"@,
{
    String::from_str("Mount-VMHostAssignableDevice -LocationPath '").concat(location_path).concat(
        "'",
    )
}

/// The command assigning a device to a VM.
pub fn add_assignable_device_command(vm_name: &str, location_path: &str) -> (r: String)
    ensures
        r@ == "Add-VMAssignableDevice -VMName '"@ + vm_name@ + "' -LocationPath '"@
            + location_path@ + "'"@,
{
    String::from_str("Add-VMAssignableDevice -VMName '").concat(vm_name).concat(
        "' -LocationPath '",
    ).concat(location_path).concat("'")
}

/// The command removing a device from a VM.
pub fn remove_assignable_device_command(vm_name: &str, location_path: &str) -> (r: String)
    ensures
        r@ == "Remove-VMAssignableDevice -VMName '"@ + vm_name@ + "' -LocationPath '"@
            + location_path@ + "'"@,
{
    String::from_str("Remove-VMAssignableDevice -VMName '").concat(vm_name).concat(
        "' -LocationPath '",
    ).concat(location_path).concat("'")
}

/// The steps of moving a device between VMs: first remove it from the
/// source VM, then assign it to the target VM. The second step runs only
/// after the first succeeded.
pub fn move_assignable_device(source_vm: &str, target_vm: &str, location_path: &str) -> (r:
    Vec<String>)
    ensures
        r@.len() == 2,
        r@[0]@ == "Remove-VMAssignableDevice -VMName '"@ + source_vm@ + "' -LocationPath '"@
            + location_path@ + "'"@,
        r@[1]@ == "Add-VMAssignableDevice -VMName '"@ + target_vm@ + "' -LocationPath '"@
            + location_path@ + "'"@,
{
    let mut steps: Vec<String> = Vec::new();
    steps.push(remove_assignable_device_command(source_vm, location_path));
    steps.push(add_assignable_device_command(target_vm, location_path));
    steps
}

/// The command setting a VM's stop action and cache types for DDA; the
/// stop action defaults to "TurnOff".
pub fn configure_vm_for_dda_command(vm_name: &str, automatic_stop_action: Option<&str>) -> (r:
    String)
    ensures
        r@ == "\n                Set-VM -Name '"@ + vm_name@ + "' -AutomaticStopAction "@
            + match automatic_stop_action {
            Some(a) => a@,
            None => "TurnOff"@,
        } + "\n                Set-VM -Name '"@ + vm_name@
            + "' -GuestControlledCacheTypes $true\n                "@,
{
    let stop_action = match automatic_stop_action {
        Some(a) => a,
        None => "TurnOff",
    };
    String::from_str("\n                Set-VM -Name '").concat(vm_name).concat(
        "' -AutomaticStopAction ",
    ).concat(stop_action).concat("\n                Set-VM -Name '").concat(vm_name).concat(
        "' -GuestControlledCacheTypes $true\n                ",
    )
}

/// The command setting a VM's MMIO space (low in MB, high in GB).
pub fn set_vm_mmio_space_command(vm_name: &str, low_mmio_mb: u64, high_mmio_gb: u64) -> (r:
    String)
    ensures
        r@ == "Set-VM -Name '"@ + vm_name@ + "' -LowMemoryMappedIoSpace "@ + decimal_seq(
            low_mmio_mb as nat,
        ) + "MB -HighMemoryMappedIoSpace "@ + decimal_seq(high_mmio_gb as nat) + "GB"@,
{
    let mut cmd = String::from_str("Set-VM -Name '").concat(vm_name).concat(
        "' -LowMemoryMappedIoSpace ",
    );
    push_decimal(&mut cmd, low_mmio_mb);
    cmd.append("MB -HighMemoryMappedIoSpace ");
    push_decimal(&mut cmd, high_mmio_gb);
    cmd.append("GB");
    cmd
}

/// The PowerShell script that lists the GPU partition adapters of a VM as JSON.
pub fn gpu_partition_adapters_query(vm_name: &str) -> (r: String)
    ensures
        r@ == "\n                Get-VMGpuPartitionAdapter -VMName '"@ + vm_name@ + "' | ForEach-Object {\n                    [PSCustomObject]@{\n                        VMName = $_.VMName\n                        InstancePath = $_.InstancePath\n                        MinPartitionVRAM = $_.MinPartitionVRAM\n                        MaxPartitionVRAM = $_.MaxPartitionVRAM\n                        OptimalPartitionVRAM = $_.OptimalPartitionVRAM\n                        MinPartitionEncode = $_.MinPartitionEncode\n                        MaxPartitionEncode = $_.MaxPartitionEncode\n                        OptimalPartitionEncode = $_.OptimalPartitionEncode\n                        MinPartitionDecode = $_.MinPartitionDecode\n                        MaxPartitionDecode = $_.MaxPartitionDecode\n                        OptimalPartitionDecode = $_.OptimalPartitionDecode\n                        MinPartitionCompute = $_.MinPartitionCompute\n                        MaxPartitionCompute = $_.MaxPartitionCompute\n                        OptimalPartitionCompute = $_.OptimalPartitionCompute\n                    }\n                } | ConvertTo-Json -Compress\n                "@,
{
    String::from_str("\n                Get-VMGpuPartitionAdapter -VMName '").concat(vm_name).concat("' | ForEach-Object {\n                    [PSCustomObject]@{\n                        VMName = $_.VMName\n                        InstancePath = $_.InstancePath\n                        MinPartitionVRAM = $_.MinPartitionVRAM\n                        MaxPartitionVRAM = $_.MaxPartitionVRAM\n                        OptimalPartitionVRAM = $_.OptimalPartitionVRAM\n                        MinPartitionEncode = $_.MinPartitionEncode\n                        MaxPartitionEncode = $_.MaxPartitionEncode\n                        OptimalPartitionEncode = $_.OptimalPartitionEncode\n                        MinPartitionDecode = $_.MinPartitionDecode\n                        MaxPartitionDecode = $_.MaxPartitionDecode\n                        OptimalPartitionDecode = $_.OptimalPartitionDecode\n                        MinPartitionCompute = $_.MinPartitionCompute\n                        MaxPartitionCompute = $_.MaxPartitionCompute\n                        OptimalPartitionCompute = $_.OptimalPartitionCompute\n                    }\n                } | ConvertTo-Json -Compress\n                ")
}

/// The PowerShell script that lists the partitionable GPUs as JSON.
pub fn partitionable_gpus_query() -> (r: &'static str)
    ensures
        r@ == "\n            Get-VMPartitionableGpu | ForEach-Object {\n                [PSCustomObject]@{\n                    Name = $_.Name\n                    ValidPartitionCounts = $_.ValidPartitionCounts -join ','\n                }\n            } | ConvertTo-Json -Compress\n            "@,
{
    "\n            Get-VMPartitionableGpu | ForEach-Object {\n                [PSCustomObject]@{\n                    Name = $_.Name\n                    ValidPartitionCounts = $_.ValidPartitionCounts -join ','\n                }\n            } | ConvertTo-Json -Compress\n            "
}

/// The PowerShell script that lists the devices dismounted from the host and those assigned to VMs, as JSON.
pub fn assignable_devices_query() -> (r: &'static str)
    ensures
        r@ == "\n            $devices = @()\n\n            # Get host assignable devices\n            $hostDevices = Get-VMHostAssignableDevice -ErrorAction SilentlyContinue\n\n            if ($hostDevices) {\n                foreach ($dev in $hostDevices) {\n                    $devices += [PSCustomObject]@{\n                        InstanceId = $dev.InstanceId\n                        Name = $dev.Name\n                        LocationPath = $dev.LocationPath\n                        IsAssigned = $false\n                        AssignedVM = $null\n                        IsDismounted = $true\n                        Status = 'Dismounted'\n                    }\n                }\n            }\n\n            # Get devices assigned to VMs\n            $vms = Get-VM -ErrorAction SilentlyContinue\n            foreach ($vm in $vms) {\n                $vmDevices = Get-VMAssignableDevice -VM $vm -ErrorAction SilentlyContinue\n                foreach ($dev in $vmDevices) {\n                    $devices += [PSCustomObject]@{\n                        InstanceId = $dev.InstanceId\n                        Name = $dev.Name\n                        LocationPath = $dev.LocationPath\n                        IsAssigned = $true\n                        AssignedVM = $vm.Name\n                        IsDismounted = $true\n                        Status = 'Assigned'\n                    }\n                }\n            }\n\n            $devices | ConvertTo-Json -Compress\n            "@,
{
    "\n            $devices = @()\n\n            # Get host assignable devices\n            $hostDevices = Get-VMHostAssignableDevice -ErrorAction SilentlyContinue\n\n            if ($hostDevices) {\n                foreach ($dev in $hostDevices) {\n                    $devices += [PSCustomObject]@{\n                        InstanceId = $dev.InstanceId\n                        Name = $dev.Name\n                        LocationPath = $dev.LocationPath\n                        IsAssigned = $false\n                        AssignedVM = $null\n                        IsDismounted = $true\n                        Status = 'Dismounted'\n                    }\n                }\n            }\n\n            # Get devices assigned to VMs\n            $vms = Get-VM -ErrorAction SilentlyContinue\n            foreach ($vm in $vms) {\n                $vmDevices = Get-VMAssignableDevice -VM $vm -ErrorAction SilentlyContinue\n                foreach ($dev in $vmDevices) {\n                    $devices += [PSCustomObject]@{\n                        InstanceId = $dev.InstanceId\n                        Name = $dev.Name\n                        LocationPath = $dev.LocationPath\n                        IsAssigned = $true\n                        AssignedVM = $vm.Name\n                        IsDismounted = $true\n                        Status = 'Assigned'\n                    }\n                }\n            }\n\n            $devices | ConvertTo-Json -Compress\n            "
}

/// The PowerShell script that lists the devices assigned to a VM as JSON.
pub fn vm_assignable_devices_query(vm_name: &str) -> (r: String)
    ensures
        r@ == "\n                Get-VMAssignableDevice -VMName '"@ + vm_name@ + "' | ForEach-Object {\n                    [PSCustomObject]@{\n                        InstanceId = $_.InstanceId\n                        Name = $_.Name\n                        LocationPath = $_.LocationPath\n                        IsAssigned = $true\n                        AssignedVM = '"@ + vm_name@ + "'\n                        IsDismounted = $true\n                        Status = 'Assigned'\n                    }\n                } | ConvertTo-Json -Compress\n                "@,
{
    String::from_str("\n                Get-VMAssignableDevice -VMName '").concat(vm_name).concat("' | ForEach-Object {\n                    [PSCustomObject]@{\n                        InstanceId = $_.InstanceId\n                        Name = $_.Name\n                        LocationPath = $_.LocationPath\n                        IsAssigned = $true\n                        AssignedVM = '").concat(vm_name).concat("'\n                        IsDismounted = $true\n                        Status = 'Assigned'\n                    }\n                } | ConvertTo-Json -Compress\n                ")
}

/// A GPU partition adapter as the adapter listing prints it; every field
/// may be missing.
#[derive(Debug, Clone)]
pub struct GpuPartitionAdapterRecord {
    pub vm_name: Option<String>,
    pub instance_path: Option<String>,
    pub min_partition_vram: Option<u64>,
    pub max_partition_vram: Option<u64>,
    pub optimal_partition_vram: Option<u64>,
    pub min_partition_encode: Option<u64>,
    pub max_partition_encode: Option<u64>,
    pub optimal_partition_encode: Option<u64>,
    pub min_partition_decode: Option<u64>,
    pub max_partition_decode: Option<u64>,
    pub optimal_partition_decode: Option<u64>,
    pub min_partition_compute: Option<u64>,
    pub max_partition_compute: Option<u64>,
    pub optimal_partition_compute: Option<u64>,
}

/// Whether `r` is the adapter that `a` lists: a missing VM name is empty,
/// every other field is kept as it is.
pub open spec fn adapter_of_record(a: GpuPartitionAdapterRecord, r: GpuPartitionAdapter) -> bool {
    &&& r.vm_name@ == text_or_empty(a.vm_name)
    &&& r.instance_path == a.instance_path
    &&& r.min_partition_vram == a.min_partition_vram
    &&& r.max_partition_vram == a.max_partition_vram
    &&& r.optimal_partition_vram == a.optimal_partition_vram
    &&& r.min_partition_encode == a.min_partition_encode
    &&& r.max_partition_encode == a.max_partition_encode
    &&& r.optimal_partition_encode == a.optimal_partition_encode
    &&& r.min_partition_decode == a.min_partition_decode
    &&& r.max_partition_decode == a.max_partition_decode
    &&& r.optimal_partition_decode == a.optimal_partition_decode
    &&& r.min_partition_compute == a.min_partition_compute
    &&& r.max_partition_compute == a.max_partition_compute
    &&& r.optimal_partition_compute == a.optimal_partition_compute
}

impl GpuPartitionAdapter {
    /// An adapter from a listing record.
    pub fn from_record(a: &GpuPartitionAdapterRecord) -> (r: GpuPartitionAdapter)
        ensures
            adapter_of_record(*a, r),
    {
        GpuPartitionAdapter {
            vm_name: string_or_empty(a.vm_name.clone()),
            instance_path: a.instance_path.clone(),
            min_partition_vram: a.min_partition_vram,
            max_partition_vram: a.max_partition_vram,
            optimal_partition_vram: a.optimal_partition_vram,
            min_partition_encode: a.min_partition_encode,
            max_partition_encode: a.max_partition_encode,
            optimal_partition_encode: a.optimal_partition_encode,
            min_partition_decode: a.min_partition_decode,
            max_partition_decode: a.max_partition_decode,
            optimal_partition_decode: a.optimal_partition_decode,
            min_partition_compute: a.min_partition_compute,
            max_partition_compute: a.max_partition_compute,
            optimal_partition_compute: a.optimal_partition_compute,
        }
    }
}

/// The adapters of a listing, in its order.
pub fn adapters_from_records(records: &Vec<GpuPartitionAdapterRecord>) -> (r: Vec<
    GpuPartitionAdapter,
>)
    ensures
        r.len() == records.len(),
        forall|i: int| 0 <= i < r.len() ==> adapter_of_record(#[trigger] records[i], r[i]),
{
    let mut out: Vec<GpuPartitionAdapter> = Vec::new();
    let mut i: usize = 0;
    while i < records.len()
        invariant
            i <= records.len(),
            out.len() == i,
            forall|j: int| 0 <= j < i ==> adapter_of_record(#[trigger] records[j], out[j]),
        decreases records.len() - i,
    {
        out.push(GpuPartitionAdapter::from_record(&records[i]));
        i = i + 1;
    }
    out
}

/// " -<name> <value>" when a value is given.
pub open spec fn optional_arg(name: Seq<char>, v: Option<u64>) -> Seq<char> {
    match v {
        Some(n) => " -"@ + name + " "@ + decimal_seq(n as nat),
        None => Seq::empty(),
    }
}

fn push_optional_arg(cmd: &mut String, name: &str, v: Option<u64>)
    ensures
        final(cmd)@ == old(cmd)@ + optional_arg(name@, v),
{
    if let Some(n) = v {
        cmd.append(" -");
        cmd.append(name);
        cmd.append(" ");
        push_decimal(cmd, n);
    }
    assert(final(cmd)@ =~= old(cmd)@ + optional_arg(name@, v));
}

/// The settings of a GPU partition adapter, each optional.
#[derive(Debug, Clone, Copy, Default)]
pub struct GpuPartitionSettings {
    pub min_vram: Option<u64>,
    pub max_vram: Option<u64>,
    pub optimal_vram: Option<u64>,
    pub min_encode: Option<u64>,
    pub max_encode: Option<u64>,
    pub optimal_encode: Option<u64>,
    pub min_decode: Option<u64>,
    pub max_decode: Option<u64>,
    pub optimal_decode: Option<u64>,
    pub min_compute: Option<u64>,
    pub max_compute: Option<u64>,
    pub optimal_compute: Option<u64>,
}

/// The arguments of the settings that are given, in a fixed order.
pub open spec fn settings_args(p: GpuPartitionSettings) -> Seq<char> {
    optional_arg("MinPartitionVRAM"@, p.min_vram) + optional_arg("MaxPartitionVRAM"@, p.max_vram)
        + optional_arg("OptimalPartitionVRAM"@, p.optimal_vram) + optional_arg(
        "MinPartitionEncode"@,
        p.min_encode,
    ) + optional_arg("MaxPartitionEncode"@, p.max_encode) + optional_arg(
        "OptimalPartitionEncode"@,
        p.optimal_encode,
    ) + optional_arg("MinPartitionDecode"@, p.min_decode) + optional_arg(
        "MaxPartitionDecode"@,
        p.max_decode,
    ) + optional_arg("OptimalPartitionDecode"@, p.optimal_decode) + optional_arg(
        "MinPartitionCompute"@,
        p.min_compute,
    ) + optional_arg("MaxPartitionCompute"@, p.max_compute) + optional_arg(
        "OptimalPartitionCompute"@,
        p.optimal_compute,
    )
}

/// The command that sets the given properties of a VM's GPU partition
/// adapter; the properties not given are left as they are.
pub fn set_gpu_partition_adapter_command(vm_name: &str, p: &GpuPartitionSettings) -> (r: String)
    ensures
        r@ == "Set-VMGpuPartitionAdapter -VMName '"@ + vm_name@ + "'"@ + settings_args(*p),
{
    let mut cmd = String::from_str("Set-VMGpuPartitionAdapter -VMName '").concat(vm_name).concat(
        "'",
    );
    let ghost start = cmd@;
    push_optional_arg(&mut cmd, "MinPartitionVRAM", p.min_vram);
    push_optional_arg(&mut cmd, "MaxPartitionVRAM", p.max_vram);
    push_optional_arg(&mut cmd, "OptimalPartitionVRAM", p.optimal_vram);
    push_optional_arg(&mut cmd, "MinPartitionEncode", p.min_encode);
    push_optional_arg(&mut cmd, "MaxPartitionEncode", p.max_encode);
    push_optional_arg(&mut cmd, "OptimalPartitionEncode", p.optimal_encode);
    push_optional_arg(&mut cmd, "MinPartitionDecode", p.min_decode);
    push_optional_arg(&mut cmd, "MaxPartitionDecode", p.max_decode);
    push_optional_arg(&mut cmd, "OptimalPartitionDecode", p.optimal_decode);
    push_optional_arg(&mut cmd, "MinPartitionCompute", p.min_compute);
    push_optional_arg(&mut cmd, "MaxPartitionCompute", p.max_compute);
    push_optional_arg(&mut cmd, "OptimalPartitionCompute", p.optimal_compute);
    assert(cmd@ =~= start + settings_args(*p));
    cmd
}

/// The pieces, without the empty ones.
pub open spec fn nonempty_pieces(pieces: Seq<Seq<char>>) -> Seq<Seq<char>>
    decreases pieces.len(),
{
    if pieces.len() == 0 {
        Seq::empty()
    } else {
        let rest = nonempty_pieces(pieces.drop_last());
        if pieces.last().len() > 0 {
            rest.push(pieces.last())
        } else {
            rest
        }
    }
}

/// The hardware IDs in a device property holding NUL-separated IDs.
pub fn hardware_ids_from_text(text: &str) -> (r: Vec<String>)
    ensures
        r@.map_values(|x: String| x@) == nonempty_pieces(split_pieces(text@, '\0')),
{
    let pieces = split_char(text, '\0');
    let ghost all = pieces@.map_values(|x: String| x@);
    let mut out: Vec<String> = Vec::new();
    let mut rest = pieces;
    let total: usize = rest.len();
    let ghost n = all.len();
    let mut k: usize = 0;
    assert(all.take(0) =~= Seq::<Seq<char>>::empty());
    while rest.len() > 0
        invariant
            n == all.len(),
            n == total,
            k <= n,
            rest.len() + k == n,
            rest@.map_values(|x: String| x@) == all.subrange(k as int, n as int),
            out@.map_values(|x: String| x@) == nonempty_pieces(all.take(k as int)),
        decreases rest.len(),
    {
        let ghost before = out@.map_values(|x: String| x@);
        let ghost restv = rest@.map_values(|x: String| x@);
        let ghost old_rest = rest@;
        assert(restv[0] == all[k as int]);
        let p = rest.remove(0);
        assert(p@ == all[k as int]);
        assert(rest@ =~= old_rest.subrange(1, old_rest.len() as int));
        assert forall|j: int| 0 <= j < rest@.len() implies rest@[j]@ == all[k + 1 + j] by {
            assert(rest@[j] == old_rest[j + 1]);
            assert(restv[j + 1] == old_rest[j + 1]@);
        }
        assert(rest@.map_values(|x: String| x@) =~= all.subrange(k + 1, n as int));
        assert(all.take(k + 1).drop_last() =~= all.take(k as int));
        assert(all.take(k + 1).last() == all[k as int]);
        let cs = chars_of(p.as_str());
        if cs.len() > 0 {
            out.push(p);
            assert(out@.map_values(|x: String| x@) =~= before.push(all[k as int]));
        }
        k = k + 1;
    }
    assert(all.take(n as int) =~= all);
    out
}

/// A device's properties as the device registry reports them; each may be
/// missing.
#[derive(Debug, Clone)]
pub struct DeviceProperties {
    pub instance_id: Option<String>,
    pub friendly_name: Option<String>,
    pub description: Option<String>,
    pub manufacturer: Option<String>,
    /// The NUL-separated hardware IDs.
    pub hardware_ids: Option<String>,
    pub driver: Option<String>,
    pub location: Option<String>,
}

/// The display name of a device: its friendly name, else its description,
/// else "Unknown GPU".
pub open spec fn gpu_display_name(p: DeviceProperties) -> Seq<char> {
    match p.friendly_name {
        Some(n) => n@,
        None => match p.description {
            Some(d) => d@,
            None => "Unknown GPU"@,
        },
    }
}

/// What the GPU walk does at one device index of the display-adapter set.
#[derive(Debug, Clone, Copy, PartialEq, Eq, Structural)]
pub enum DeviceWalkStep {
    /// No more devices: the walk ends.
    Stop,
    /// The device could not be enumerated: it is skipped.
    Skip,
    /// The device was enumerated: its properties are read.
    Read,
}

/// The step at an index whose enumeration failed with the Win32 error
/// `error`, or succeeded (`None`): "no more items" ends the walk, any other
/// error skips the device.
pub fn device_walk_step(error: Option<u32>) -> (r: DeviceWalkStep)
    ensures
        r == match error {
            None => DeviceWalkStep::Read,
            Some(c) => if c == ERROR_NO_MORE_ITEMS {
                DeviceWalkStep::Stop
            } else {
                DeviceWalkStep::Skip
            },
        },
{
    match error {
        None => DeviceWalkStep::Read,
        Some(c) => if c == ERROR_NO_MORE_ITEMS {
            DeviceWalkStep::Stop
        } else {
            DeviceWalkStep::Skip
        },
    }
}

/// The check of the display-adapter device set before the walk: an invalid
/// set is an error.
pub fn device_info_set_result(is_invalid: bool) -> (r: Result<(), HvError>)
    ensures
        is_invalid ==> (r matches Err(HvError::OperationFailed(m)) && m@
            == "Failed to get device info set"@),
        !is_invalid ==> r is Ok,
{
    if is_invalid {
        Err(HvError::OperationFailed(String::from_str("Failed to get device info set")))
    } else {
        Ok(())
    }
}

/// The name of a GPU is its friendly name whenever it has one; its
/// description only when it has no friendly name; "Unknown GPU" only when
/// it has neither.
pub proof fn lemma_gpu_name_precedence(p: DeviceProperties)
    ensures
        p.friendly_name is Some ==> gpu_display_name(p) == p.friendly_name->0@,
        p.friendly_name is None && p.description is Some ==> gpu_display_name(p)
            == p.description->0@,
        p.friendly_name is None && p.description is None ==> gpu_display_name(p)
            == "Unknown GPU"@,
{
}

impl GpuInfo {
    /// A GPU from its registry properties and whether it supports
    /// partitioning. Missing texts are empty, missing hardware IDs none.
    pub fn from_properties(p: DeviceProperties, supports_partitioning: bool) -> (r: GpuInfo)
        ensures
            r.device_instance_id@ == text_or_empty(p.instance_id),
            r.name@ == gpu_display_name(p),
            p.friendly_name is Some ==> r.name@ == p.friendly_name->0@,
            p.friendly_name is None && p.description is Some ==> r.name@ == p.description->0@,
            p.friendly_name is None && p.description is None ==> r.name@ == "Unknown GPU"@,
            r.description@ == text_or_empty(p.description),
            r.manufacturer@ == text_or_empty(p.manufacturer),
            r.hardware_ids@.map_values(|x: String| x@) == (match p.hardware_ids {
                Some(h) => nonempty_pieces(split_pieces(h@, '\0')),
                None => Seq::empty(),
            }),
            r.driver == p.driver,
            r.location == p.location,
            r.supports_partitioning == supports_partitioning,
    {
        let name = match &p.friendly_name {
            Some(n) => n.clone(),
            None => match &p.description {
                Some(d) => d.clone(),
                None => String::from_str("Unknown GPU"),
            },
        };
        let hardware_ids = match &p.hardware_ids {
            Some(h) => hardware_ids_from_text(h.as_str()),
            None => {
                let v: Vec<String> = Vec::new();
                assert(v@.map_values(|x: String| x@) =~= Seq::<Seq<char>>::empty());
                v
            },
        };
        GpuInfo {
            device_instance_id: string_or_empty(p.instance_id),
            name,
            description: string_or_empty(p.description),
            manufacturer: string_or_empty(p.manufacturer),
            hardware_ids,
            driver: p.driver,
            location: p.location,
            supports_partitioning,
        }
    }
}

/// `s` with each backslash doubled.
pub open spec fn double_backslashes(s: Seq<char>) -> Seq<char>
    decreases s.len(),
{
    if s.len() == 0 {
        Seq::empty()
    } else if s.last() == '\\' {
        double_backslashes(s.drop_last()) + seq!['\\', '\\']
    } else {
        double_backslashes(s.drop_last()).push(s.last())
    }
}

/// `s` with each backslash doubled, for a PowerShell `-like` pattern.
pub fn escape_backslashes(s: &str) -> (r: String)
    ensures
        r@ == double_backslashes(s@),
{
    let cs = chars_of(s);
    let mut out = String::new();
    let mut i: usize = 0;
    while i < cs.len()
        invariant
            cs@ == s@,
            i <= cs.len(),
            out@ == double_backslashes(s@.take(i as int)),
        decreases cs.len() - i,
    {
        let c = cs[i];
        assert(s@.take(i + 1).drop_last() =~= s@.take(i as int));
        if c == '\\' {
            push_char(&mut out, '\\');
            push_char(&mut out, '\\');
            assert(out@ =~= double_backslashes(s@.take(i + 1)));
        } else {
            push_char(&mut out, c);
        }
        i = i + 1;
    }
    assert(s@.take(cs.len() as int) =~= s@);
    out
}

/// The text between the device ID and the rest of the partitioning query.
pub open spec fn partitioning_query_text(pattern_id: Seq<char>) -> Seq<char> {
    "\n                $gpu = Get-WmiObject -Class Msvm_Physical3dGraphicsProcessor -Namespace 'root\\virtualization\\v2' |\n                    Where-Object { $_.Name -like '*"@
        + pattern_id
        + "*' }\n                if ($gpu -and $gpu.EnabledForVirtualization) { 'true' } else { 'false' }\n                "@
}

/// The PowerShell script that asks whether the physical GPU whose name
/// contains the device ID is enabled for virtualization.
pub fn gpu_partitioning_query(device_instance_id: &str) -> (r: String)
    ensures
        r@ == partitioning_query_text(double_backslashes(device_instance_id@)),
{
    let id = escape_backslashes(device_instance_id);
    String::from_str(
        "\n                $gpu = Get-WmiObject -Class Msvm_Physical3dGraphicsProcessor -Namespace 'root\\virtualization\\v2' |\n                    Where-Object { $_.Name -like '*",
    ).concat(id.as_str()).concat(
        "*' }\n                if ($gpu -and $gpu.EnabledForVirtualization) { 'true' } else { 'false' }\n                ",
    )
}

/// Whether the partitioning query's output says yes: the command succeeded
/// and printed "true", in any case, around whitespace.
pub fn partitioning_supported(out: &CommandOutput) -> (r: bool)
    ensures
        r == (out.success && lowercase(trim_seq(out.stdout@)) == "true"@),
{
    if !out.success {
        return false;
    }
    let t = trim(out.stdout.as_str());
    let lower = to_lowercase(t.as_str());
    str_eq(lower.as_str(), "true")
}

/// A GPU as the partitionable-GPU listing prints it.
#[derive(Debug, Clone)]
pub struct PartitionableGpuRecord {
    pub name: Option<String>,
    pub valid_partition_counts: Option<String>,
}

/// The names that the listing gives, in order.
pub open spec fn listed_names(rs: Seq<PartitionableGpuRecord>) -> Seq<Seq<char>>
    decreases rs.len(),
{
    if rs.len() == 0 {
        Seq::empty()
    } else {
        let rest = listed_names(rs.drop_last());
        match rs.last().name {
            Some(n) => rest.push(n@),
            None => rest,
        }
    }
}

/// Whether a GPU is among the listed ones: some listed name contains its
/// device ID, or its name contains some listed name.
pub open spec fn is_listed(g: GpuInfo, names: Seq<Seq<char>>) -> bool {
    exists|i: int|
        0 <= i < names.len() && (contains_seq(#[trigger] names[i], g.device_instance_id@)
            || contains_seq(g.name@, names[i]))
}

/// `g`, marked as supporting partitioning.
pub open spec fn marked_partitionable(g: GpuInfo) -> GpuInfo {
    GpuInfo { supports_partitioning: true, ..g }
}

/// The listed GPUs among `gpus`, in order, each marked as supporting
/// partitioning.
pub open spec fn listed_gpus(gpus: Seq<GpuInfo>, names: Seq<Seq<char>>) -> Seq<GpuInfo>
    decreases gpus.len(),
{
    if gpus.len() == 0 {
        Seq::empty()
    } else {
        let rest = listed_gpus(gpus.drop_last(), names);
        if is_listed(gpus.last(), names) {
            rest.push(marked_partitionable(gpus.last()))
        } else {
            rest
        }
    }
}

/// The names of the listing's records.
pub fn names_of_records(records: &Vec<PartitionableGpuRecord>) -> (r: Vec<String>)
    ensures
        r@.map_values(|x: String| x@) == listed_names(records@),
{
    let mut out: Vec<String> = Vec::new();
    let mut i: usize = 0;
    while i < records.len()
        invariant
            i <= records.len(),
            out@.map_values(|x: String| x@) == listed_names(records@.take(i as int)),
        decreases records.len() - i,
    {
        assert(records@.take(i + 1).drop_last() =~= records@.take(i as int));
        let ghost before = out@.map_values(|x: String| x@);
        match &records[i].name {
            Some(n) => {
                out.push(n.clone());
                assert(out@.map_values(|x: String| x@) =~= before.push(n@));
            },
            None => {},
        }
        i = i + 1;
    }
    assert(records@.take(records.len() as int) =~= records@);
    out
}

fn listed(g: &GpuInfo, names: &Vec<String>) -> (r: bool)
    ensures
        r == is_listed(*g, names@.map_values(|x: String| x@)),
{
    let ghost ns = names@.map_values(|x: String| x@);
    let mut i: usize = 0;
    while i < names.len()
        invariant
            ns == names@.map_values(|x: String| x@),
            i <= names.len(),
            forall|j: int|
                0 <= j < i ==> !(contains_seq(#[trigger] ns[j], g.device_instance_id@)
                    || contains_seq(g.name@, ns[j])),
        decreases names.len() - i,
    {
        if contains_str(names[i].as_str(), g.device_instance_id.as_str()) || contains_str(
            g.name.as_str(),
            names[i].as_str(),
        ) {
            assert(ns[i as int] == names@[i as int]@);
            return true;
        }
        i = i + 1;
    }
    false
}

/// The GPUs that the partitionable-GPU listing names, marked as supporting
/// partitioning, in the order of `gpus`.
pub fn select_partitionable(gpus: Vec<GpuInfo>, records: &Vec<PartitionableGpuRecord>) -> (r: Vec<
    GpuInfo,
>)
    ensures
        r@ == listed_gpus(gpus@, listed_names(records@)),
{
    let names = names_of_records(records);
    let ghost ns = listed_names(records@);
    let ghost all = gpus@;
    let ghost n = all.len();
    let mut rest = gpus;
    let total: usize = rest.len();
    let mut out: Vec<GpuInfo> = Vec::new();
    let mut k: usize = 0;
    assert(all.take(0) =~= Seq::<GpuInfo>::empty());
    while rest.len() > 0
        invariant
            n == all.len(),
            n == total,
            ns == names@.map_values(|x: String| x@),
            k <= n,
            rest.len() + k == n,
            rest@ == all.subrange(k as int, n as int),
            out@ == listed_gpus(all.take(k as int), ns),
        decreases rest.len(),
    {
        assert(rest@[0] == all[k as int]);
        let mut g = rest.remove(0);
        assert(rest@ =~= all.subrange(k + 1, n as int));
        assert(all.take(k + 1).drop_last() =~= all.take(k as int));
        assert(all.take(k + 1).last() == all[k as int]);
        if listed(&g, &names) {
            g.supports_partitioning = true;
            out.push(g);
        }
        k = k + 1;
    }
    assert(all.take(n as int) =~= all);
    out
}

/// The GPUs that support partitioning, in order.
pub open spec fn capable_gpus(gpus: Seq<GpuInfo>) -> Seq<GpuInfo> {
    gpus.filter(|g: GpuInfo| g.supports_partitioning)
}

/// Keeps the GPUs that support partitioning.
pub fn partitioning_capable(gpus: Vec<GpuInfo>) -> (r: Vec<GpuInfo>)
    ensures
        r@ == capable_gpus(gpus@),
{
    let ghost all = gpus@;
    let ghost n = all.len();
    let mut rest = gpus;
    let total: usize = rest.len();
    let mut out: Vec<GpuInfo> = Vec::new();
    let mut k: usize = 0;
    assert(all.take(0) =~= Seq::<GpuInfo>::empty());
    while rest.len() > 0
        invariant
            n == all.len(),
            n == total,
            k <= n,
            rest.len() + k == n,
            rest@ == all.subrange(k as int, n as int),
            out@ == capable_gpus(all.take(k as int)),
        decreases rest.len(),
    {
        assert(rest@[0] == all[k as int]);
        let g = rest.remove(0);
        assert(rest@ =~= all.subrange(k + 1, n as int));
        assert(all.take(k + 1).drop_last() =~= all.take(k as int));
        proof {
            all.take(k as int).lemma_filter_push(
                all[k as int],
                |g: GpuInfo| g.supports_partitioning,
            );
        }
        assert(all.take(k + 1) =~= all.take(k as int).push(all[k as int]));
        if g.supports_partitioning {
            out.push(g);
        }
        k = k + 1;
    }
    assert(all.take(n as int) =~= all);
    out
}

/// Every GPU that the partitionable-GPU listing selects is one of the
/// given GPUs, is named by the listing, and is marked as supporting
/// partitioning; none is added.
pub proof fn lemma_listed_gpus_are_marked(gpus: Seq<GpuInfo>, names: Seq<Seq<char>>)
    ensures
        listed_gpus(gpus, names).len() <= gpus.len(),
        forall|i: int|
            0 <= i < listed_gpus(gpus, names).len() ==> (#[trigger] listed_gpus(gpus, names)[i]).supports_partitioning,
        forall|i: int|
            0 <= i < listed_gpus(gpus, names).len() ==> exists|j: int|
                0 <= j < gpus.len() && is_listed(gpus[j], names) && #[trigger] listed_gpus(gpus, names)[i]
                    == marked_partitionable(gpus[j]),
    decreases gpus.len(),
{
    if gpus.len() > 0 {
        let init = gpus.drop_last();
        lemma_listed_gpus_are_marked(init, names);
        let rest = listed_gpus(init, names);
        let r = listed_gpus(gpus, names);
        assert forall|i: int| 0 <= i < r.len() implies exists|j: int|
            0 <= j < gpus.len() && is_listed(gpus[j], names) && #[trigger] r[i]
                == marked_partitionable(gpus[j]) by {
            if i < rest.len() {
                let j = choose|j: int|
                    0 <= j < init.len() && is_listed(init[j], names) && rest[i]
                        == marked_partitionable(init[j]);
                assert(r[i] == rest[i]);
                assert(gpus[j] == init[j]);
            } else {
                assert(r[i] == marked_partitionable(gpus.last()));
                assert(gpus[gpus.len() - 1] == gpus.last());
            }
        }
    }
}

/// Every GPU kept as partitioning-capable supports partitioning.
pub proof fn lemma_capable_gpus_support_partitioning(gpus: Seq<GpuInfo>)
    ensures
        capable_gpus(gpus).len() <= gpus.len(),
        forall|i: int|
            0 <= i < capable_gpus(gpus).len() ==> (#[trigger] capable_gpus(gpus)[i]).supports_partitioning,
{
    gpus.filter_lemma(|g: GpuInfo| g.supports_partitioning);
}

/// The PowerShell script that copies the host's GPU driver folders (from
/// `host_driver_store`, by default the system driver store) and driver
/// libraries into the Windows installation on a VM's virtual disk.
pub fn copy_gpu_drivers_script(vm_vhd_path: &str, host_driver_store: Option<&str>) -> (r: String)
    ensures
        r@ == "\n        # Get GPU driver folders\n        $driverFolders = Get-ChildItem '"@ + (match host_driver_store { Some(d) => d@, None => "C:\\Windows\\System32\\DriverStore\\FileRepository"@ }) + "' | Where-Object { $_.Name -like 'nv*' -or $_.Name -like 'amd*' -or $_.Name -like 'igdlh*' }\n\n        if ($driverFolders.Count -eq 0) {\n            Write-Error \"No GPU drivers found in driver store\"\n            exit 1\n        }\n\n        # Mount VHD\n        $vhd = Mount-VHD -Path '"@ + vm_vhd_path@ + "' -Passthru\n        $disk = $vhd | Get-Disk\n        $partition = $disk | Get-Partition | Where-Object { $_.Type -eq 'Basic' } | Select-Object -First 1\n        $driveLetter = $partition.DriveLetter\n\n        if (-not $driveLetter) {\n            $partition | Add-PartitionAccessPath -AssignDriveLetter\n            $driveLetter = ($partition | Get-Partition).DriveLetter\n        }\n\n        $destPath = \"${driveLetter}:\\Windows\\System32\\DriverStore\\FileRepository\"\n\n        foreach ($folder in $driverFolders) {\n            $destFolder = Join-Path $destPath $folder.Name\n            if (-not (Test-Path $destFolder)) {\n                Copy-Item -Path $folder.FullName -Destination $destFolder -Recurse -Force\n            }\n        }\n\n        # Also copy System32 driver files\n        $sys32Drivers = @('nvapi64.dll', 'nvd3dumx.dll', 'aticfx64.dll', 'igdumdim64.dll')\n        foreach ($driver in $sys32Drivers) {\n            $src = Join-Path 'C:\\Windows\\System32' $driver\n            if (Test-Path $src) {\n                $dest = \"${driveLetter}:\\Windows\\System32\\$driver\"\n                Copy-Item -Path $src -Destination $dest -Force -ErrorAction SilentlyContinue\n            }\n        }\n\n        Dismount-VHD -Path '"@ + vm_vhd_path@ + "'\n        Write-Output \"GPU drivers copied successfully\"\n        "@,
{
    let driver_store = match host_driver_store {
        Some(d) => d,
        None => "C:\\Windows\\System32\\DriverStore\\FileRepository",
    };
    String::from_str("\n        # Get GPU driver folders\n        $driverFolders = Get-ChildItem '").concat(driver_store).concat("' | Where-Object { $_.Name -like 'nv*' -or $_.Name -like 'amd*' -or $_.Name -like 'igdlh*' }\n\n        if ($driverFolders.Count -eq 0) {\n            Write-Error \"No GPU drivers found in driver store\"\n            exit 1\n        }\n\n        # Mount VHD\n        $vhd = Mount-VHD -Path '").concat(vm_vhd_path).concat("' -Passthru\n        $disk = $vhd | Get-Disk\n        $partition = $disk | Get-Partition | Where-Object { $_.Type -eq 'Basic' } | Select-Object -First 1\n        $driveLetter = $partition.DriveLetter\n\n        if (-not $driveLetter) {\n            $partition | Add-PartitionAccessPath -AssignDriveLetter\n            $driveLetter = ($partition | Get-Partition).DriveLetter\n        }\n\n        $destPath = \"${driveLetter}:\\Windows\\System32\\DriverStore\\FileRepository\"\n\n        foreach ($folder in $driverFolders) {\n            $destFolder = Join-Path $destPath $folder.Name\n            if (-not (Test-Path $destFolder)) {\n                Copy-Item -Path $folder.FullName -Destination $destFolder -Recurse -Force\n            }\n        }\n\n        # Also copy System32 driver files\n        $sys32Drivers = @('nvapi64.dll', 'nvd3dumx.dll', 'aticfx64.dll', 'igdumdim64.dll')\n        foreach ($driver in $sys32Drivers) {\n            $src = Join-Path 'C:\\Windows\\System32' $driver\n            if (Test-Path $src) {\n                $dest = \"${driveLetter}:\\Windows\\System32\\$driver\"\n                Copy-Item -Path $src -Destination $dest -Force -ErrorAction SilentlyContinue\n            }\n        }\n\n        Dismount-VHD -Path '").concat(vm_vhd_path).concat("'\n        Write-Output \"GPU drivers copied successfully\"\n        ")
}

/// The step after removing a device from the source VM during a move: a
/// removal that could not be started ("Failed to remove assignable device:
/// <why>") or that failed ("Failed to remove assignable device from VM:
/// <stderr>") ends the move with its error and nothing is added; a
/// successful one is followed by the command adding the device to the
/// target VM.
pub fn move_after_removal(target_vm: &str, location_path: &str, removal: &Result<CommandOutput, String>) -> (r:
    Result<String, HvError>)
    ensures
        match removal {
            Err(why) => r matches Err(HvError::OperationFailed(m)) && m@
                == "Failed to remove assignable device"@ + ": "@ + why@,
            Ok(out) => {
                &&& out.success ==> (r matches Ok(cmd) && cmd@ == "Add-VMAssignableDevice -VMName '"@
                    + target_vm@ + "' -LocationPath '"@ + location_path@ + "'"@)
                &&& !out.success ==> (r matches Err(HvError::OperationFailed(m)) && m@
                    == "Failed to remove assignable device from VM: "@ + out.stderr@)
            },
        },
{
    proof {
        reveal_strlit("Failed to remove assignable device from VM");
        reveal_strlit(": ");
        reveal_strlit("Failed to remove assignable device from VM: ");
        assert("Failed to remove assignable device from VM"@ + ": "@
            =~= "Failed to remove assignable device from VM: "@);
    }
    let out = match removal {
        Ok(out) => out,
        Err(why) => {
            return Err(operation_failed("Failed to remove assignable device", why.as_str()));
        },
    };
    match action_result(out, "Failed to remove assignable device from VM") {
        Ok(()) => Ok(add_assignable_device_command(target_vm, location_path)),
        Err(e) => Err(e),
    }
}

/// The end of a move, after the addition to the target VM ran: done when it
/// succeeded; otherwise its error ("Failed to add assignable device: <why>"
/// when it could not be started, "Failed to add assignable device to VM:
/// <stderr>" when it failed), with no rollback: the device stays removed
/// from the source.
pub fn move_after_addition(addition: &Result<CommandOutput, String>) -> (r: Result<(), HvError>)
    ensures
        match addition {
            Err(why) => r matches Err(HvError::OperationFailed(m)) && m@
                == "Failed to add assignable device"@ + ": "@ + why@,
            Ok(out) => {
                &&& out.success ==> r is Ok
                &&& !out.success ==> (r matches Err(HvError::OperationFailed(m)) && m@
                    == "Failed to add assignable device to VM: "@ + out.stderr@)
            },
        },
{
    proof {
        reveal_strlit("Failed to add assignable device to VM");
        reveal_strlit(": ");
        reveal_strlit("Failed to add assignable device to VM: ");
        assert("Failed to add assignable device to VM"@ + ": "@
            =~= "Failed to add assignable device to VM: "@);
    }
    match addition {
        Ok(out) => action_result(out, "Failed to add assignable device to VM"),
        Err(why) => Err(operation_failed("Failed to add assignable device", why.as_str())),
    }
}

/// The GPU partition adapters that the adapter listing reported: a
/// command that could not be started, or that failed, is an error; no
/// JSON lists none; JSON that did not decode is a JSON error ("Failed to
/// parse adapters: <why>" for an array, "Failed to parse adapter: <why>"
/// for a single object); otherwise the decoded records, in order.
pub fn gpu_partition_adapters_listing(
    run: &Result<CommandOutput, String>,
    decoded: Result<Vec<GpuPartitionAdapterRecord>, String>,
) -> (r: Result<Vec<GpuPartitionAdapter>, HvError>)
    ensures
        match run {
            Err(why) => r matches Err(HvError::OperationFailed(m)) && m@
                == "Failed to get GPU partition adapters"@ + ": "@ + why@,
            Ok(out) => {
                &&& !out.success ==> (r matches Err(HvError::OperationFailed(m)) && m@
                    == "Failed to get GPU partition adapters"@ + ": "@ + out.stderr@)
                &&& out.success && json_kind(out.stdout@) == 0 ==> (r matches Ok(v) && v.len() == 0)
                &&& out.success && json_kind(out.stdout@) != 0 ==> match decoded {
                    Ok(rs) => r matches Ok(v) && v.len() == rs.len() && forall|i: int|
                        0 <= i < v.len() ==> adapter_of_record(#[trigger] rs[i], v[i]),
                    Err(why) => r matches Err(HvError::JsonError(m)) && m@ == (if json_kind(
                        out.stdout@,
                    ) == 1 {
                        "Failed to parse adapters: "@
                    } else {
                        "Failed to parse adapter: "@
                    }) + why@,
                }
            },
        },
{
    let out = match run {
        Ok(out) => out,
        Err(why) => {
            return Err(operation_failed("Failed to get GPU partition adapters", why.as_str()));
        },
    };
    let json = match listing_json(out, "Failed to get GPU partition adapters") {
        Ok(j) => j,
        Err(e) => {
            return Err(e);
        },
    };
    match json {
        JsonOutput::Empty => Ok(Vec::new()),
        JsonOutput::Array(_) => match decoded {
            Ok(rs) => Ok(adapters_from_records(&rs)),
            Err(why) => Err(
                HvError::JsonError(String::from_str("Failed to parse adapters: ").concat(why.as_str())),
            ),
        },
        JsonOutput::Single(_) => match decoded {
            Ok(rs) => Ok(adapters_from_records(&rs)),
            Err(why) => Err(
                HvError::JsonError(String::from_str("Failed to parse adapter: ").concat(why.as_str())),
            ),
        },
    }
}

/// The devices that a device listing reported, with missing flags
/// `assumed` (false for the host listing, true for a VM's): a command that
/// could not be started is an error ("Failed to get assignable devices:
/// <why>" for the host listing, "Failed to get VM assignable devices:
/// <why>" for a VM's); a failed command, no JSON, or JSON that did not
/// decode list none; otherwise the decoded records, in order.
pub fn devices_listing(run: &Result<CommandOutput, String>, decoded: Option<Vec<DeviceRecord>>, assumed: bool) -> (r:
    Result<Vec<AssignableDevice>, HvError>)
    ensures
        match run {
            Err(why) => r matches Err(HvError::OperationFailed(m)) && m@ == (if assumed {
                "Failed to get VM assignable devices"@
            } else {
                "Failed to get assignable devices"@
            }) + ": "@ + why@,
            Ok(out) => {
                &&& !out.success ==> (r matches Ok(v) && v.len() == 0)
                &&& out.success && json_kind(out.stdout@) == 0 ==> (r matches Ok(v) && v.len() == 0)
                &&& out.success && json_kind(out.stdout@) != 0 ==> (r matches Ok(v) && v.len()
                    == decoded_records(decoded).len() && forall|i: int|
                    0 <= i < v.len() ==> device_of_record(
                        #[trigger] decoded_records(decoded)[i],
                        assumed,
                        v[i],
                    ))
            },
        },
{
    let out = match run {
        Ok(out) => out,
        Err(why) => {
            let context = if assumed {
                "Failed to get VM assignable devices"
            } else {
                "Failed to get assignable devices"
            };
            return Err(operation_failed(context, why.as_str()));
        },
    };
    let json = listing_json_or_empty(out);
    match json {
        JsonOutput::Empty => Ok(Vec::new()),
        _ => match &decoded {
            Some(rs) => Ok(devices_from_records(rs, assumed)),
            None => Ok(Vec::new()),
        },
    }
}

/// The partitionable GPUs, from the partitionable-GPU listing and the
/// enumerated GPUs: a listing that could not be started is an error
/// ("Failed to query partitionable GPUs: <why>"); when the listing command
/// failed, the enumerated GPUs that support partitioning; no JSON lists
/// none; otherwise the enumerated GPUs that the decoded records name (none
/// when the JSON did not decode), marked as supporting partitioning.
pub fn partitionable_gpus_listing(
    run: &Result<CommandOutput, String>,
    decoded: Option<Vec<PartitionableGpuRecord>>,
    gpus: Vec<GpuInfo>,
) -> (r: Result<Vec<GpuInfo>, HvError>)
    ensures
        match run {
            Err(why) => r matches Err(HvError::OperationFailed(m)) && m@
                == "Failed to query partitionable GPUs"@ + ": "@ + why@,
            Ok(out) => {
                &&& !out.success ==> (r matches Ok(v) && v@ == capable_gpus(gpus@))
                &&& out.success && json_kind(out.stdout@) == 0 ==> (r matches Ok(v) && v.len() == 0)
                &&& out.success && json_kind(out.stdout@) != 0 ==> (r matches Ok(v) && v@
                    == listed_gpus(gpus@, listed_names(decoded_records(decoded))))
            },
        },
{
    let out = match run {
        Ok(out) => out,
        Err(why) => {
            return Err(operation_failed("Failed to query partitionable GPUs", why.as_str()));
        },
    };
    if !out.success {
        return Ok(partitioning_capable(gpus));
    }
    let json = listing_json_or_empty(out);
    match json {
        JsonOutput::Empty => Ok(Vec::new()),
        _ => match &decoded {
            Some(rs) => Ok(select_partitionable(gpus, rs)),
            None => {
                let none: Vec<PartitionableGpuRecord> = Vec::new();
                assert(listed_names(none@) =~= Seq::<Seq<char>>::empty());
                Ok(select_partitionable(gpus, &none))
            },
        },
    }
}

} // verus!
