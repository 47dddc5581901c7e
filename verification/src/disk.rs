//! VM disks and drives: records, defaults, and the PowerShell commands that
//! attach, detach and prepare them.

use vstd::prelude::*;
use crate::error::{operation_failed, HvError};
use crate::powershell::{
    decoded_records, json_kind, listing_json, listing_json_or_empty, CommandOutput,
    JsonOutput,
};
use crate::text::{decimal_seq, push_decimal, str_eq};

verus! {

/// DVD drive information for a VM.
#[derive(Debug, Clone)]
pub struct DvdDrive {
    /// VM name
    pub vm_name: String,
    /// Controller type (IDE or SCSI)
    pub controller_type: String,
    /// Controller number
    pub controller_number: u32,
    /// Controller location
    pub controller_location: u32,
    /// Path to mounted ISO (if any)
    pub path: Option<String>,
}

/// Hard disk drive information for a VM.
#[derive(Debug, Clone)]
pub struct HardDiskDrive {
    /// VM name
    pub vm_name: String,
    /// Controller type (IDE or SCSI)
    pub controller_type: String,
    /// Controller number
    pub controller_number: u32,
    /// Controller location
    pub controller_location: u32,
    /// Path to VHD/VHDX file
    pub path: Option<String>,
}

/// A drive as the drive listing prints it; every field may be missing.
#[derive(Debug, Clone)]
pub struct DriveRecord {
    pub vm_name: Option<String>,
    pub controller_type: Option<String>,
    pub controller_number: Option<u32>,
    pub controller_location: Option<u32>,
    pub path: Option<String>,
}

/// The value of an optional text field, or `default`.
pub open spec fn text_or(v: Option<String>, default: Seq<char>) -> Seq<char> {
    match v {
        Some(s) => s@,
        None => default,
    }
}

/// The value of an optional number, or `default`.
pub open spec fn number_or(v: Option<u32>, default: u32) -> u32 {
    match v {
        Some(n) => n,
        None => default,
    }
}

pub(crate) fn string_or_empty(v: Option<String>) -> (r: String)
    ensures
        r@ == text_or(v, Seq::empty()),
{
    match v {
        Some(s) => s,
        None => String::new(),
    }
}

pub(crate) fn string_or(v: Option<String>, default: &str) -> (r: String)
    ensures
        r@ == text_or(v, default@),
{
    match v {
        Some(s) => s,
        None => String::from_str(default),
    }
}

/// Whether `r` is the DVD drive that `d` lists: the VM name defaults to
/// empty, the controller type to "SCSI", controller numbers to 0.
pub open spec fn dvd_of_record(d: DriveRecord, r: DvdDrive) -> bool {
    &&& r.vm_name@ == text_or(d.vm_name, Seq::empty())
    &&& r.controller_type@ == text_or(d.controller_type, "SCSI"@)
    &&& r.controller_number == number_or(d.controller_number, 0)
    &&& r.controller_location == number_or(d.controller_location, 0)
    &&& r.path == d.path
}

/// Whether `r` is the hard disk drive that `d` lists, with the same
/// defaults as a DVD drive.
pub open spec fn hard_disk_of_record(d: DriveRecord, r: HardDiskDrive) -> bool {
    &&& r.vm_name@ == text_or(d.vm_name, Seq::empty())
    &&& r.controller_type@ == text_or(d.controller_type, "SCSI"@)
    &&& r.controller_number == number_or(d.controller_number, 0)
    &&& r.controller_location == number_or(d.controller_location, 0)
    &&& r.path == d.path
}

impl DvdDrive {
    /// A DVD drive from a listing record.
    pub fn from_record(d: &DriveRecord) -> (r: DvdDrive)
        ensures
            dvd_of_record(*d, r),
    {
        DvdDrive {
            vm_name: string_or_empty(d.vm_name.clone()),
            controller_type: string_or(d.controller_type.clone(), "SCSI"),
            controller_number: match d.controller_number {
                Some(n) => n,
                None => 0,
            },
            controller_location: match d.controller_location {
                Some(n) => n,
                None => 0,
            },
            path: d.path.clone(),
        }
    }
}

impl HardDiskDrive {
    /// A hard disk drive from a listing record.
    pub fn from_record(d: &DriveRecord) -> (r: HardDiskDrive)
        ensures
            hard_disk_of_record(*d, r),
    {
        HardDiskDrive {
            vm_name: string_or_empty(d.vm_name.clone()),
            controller_type: string_or(d.controller_type.clone(), "SCSI"),
            controller_number: match d.controller_number {
                Some(n) => n,
                None => 0,
            },
            controller_location: match d.controller_location {
                Some(n) => n,
                None => 0,
            },
            path: d.path.clone(),
        }
    }
}

/// The DVD drives of a listing, in its order.
pub fn dvd_drives_from_records(records: &Vec<DriveRecord>) -> (r: Vec<DvdDrive>)
    ensures
        r.len() == records.len(),
        forall|i: int| 0 <= i < r.len() ==> dvd_of_record(#[trigger] records[i], r[i]),
{
    let mut out: Vec<DvdDrive> = Vec::new();
    let mut i: usize = 0;
    while i < records.len()
        invariant
            i <= records.len(),
            out.len() == i,
            forall|j: int| 0 <= j < i ==> dvd_of_record(#[trigger] records[j], out[j]),
        decreases records.len() - i,
    {
        out.push(DvdDrive::from_record(&records[i]));
        i = i + 1;
    }
    out
}

/// The hard disk drives of a listing, in its order.
pub fn hard_disk_drives_from_records(records: &Vec<DriveRecord>) -> (r: Vec<HardDiskDrive>)
    ensures
        r.len() == records.len(),
        forall|i: int| 0 <= i < r.len() ==> hard_disk_of_record(#[trigger] records[i], r[i]),
{
    let mut out: Vec<HardDiskDrive> = Vec::new();
    let mut i: usize = 0;
    while i < records.len()
        invariant
            i <= records.len(),
            out.len() == i,
            forall|j: int| 0 <= j < i ==> hard_disk_of_record(#[trigger] records[j], out[j]),
        decreases records.len() - i,
    {
        out.push(HardDiskDrive::from_record(&records[i]));
        i = i + 1;
    }
    out
}

/// " -ControllerNumber N" and " -ControllerLocation L" for the values that
/// are given.
pub open spec fn controller_args(number: Option<u32>, location: Option<u32>) -> Seq<char> {
    (match number {
        Some(n) => " -ControllerNumber "@ + decimal_seq(n as nat),
        None => Seq::empty(),
    }) + (match location {
        Some(l) => " -ControllerLocation "@ + decimal_seq(l as nat),
        None => Seq::empty(),
    })
}

fn push_controller_args(cmd: &mut String, number: Option<u32>, location: Option<u32>)
    ensures
        final(cmd)@ == old(cmd)@ + controller_args(number, location),
{
    if let Some(num) = number {
        cmd.append(" -ControllerNumber ");
        push_decimal(cmd, num as u64);
    }
    if let Some(loc) = location {
        cmd.append(" -ControllerLocation ");
        push_decimal(cmd, loc as u64);
    }
    assert(final(cmd)@ =~= old(cmd)@ + controller_args(number, location));
}

/// The command adding a DVD drive to a VM.
pub fn add_dvd_drive_command(
    vm_name: &str,
    controller_number: Option<u32>,
    controller_location: Option<u32>,
) -> (r: String)
    ensures
        r@ == "Add-VMDvdDrive -VMName '"@ + vm_name@ + "'"@ + controller_args(
            controller_number,
            controller_location,
        ),
{
    let mut cmd = String::from_str("Add-VMDvdDrive -VMName '").concat(vm_name).concat("'");
    push_controller_args(&mut cmd, controller_number, controller_location);
    cmd
}

/// The command mounting an ISO in a VM's DVD drive.
pub fn mount_iso_command(
    vm_name: &str,
    iso_path: &str,
    controller_number: Option<u32>,
    controller_location: Option<u32>,
) -> (r: String)
    ensures
        r@ == "Set-VMDvdDrive -VMName '"@ + vm_name@ + "' -Path '"@ + iso_path@ + "'"@
            + controller_args(controller_number, controller_location),
{
    let mut cmd = String::from_str("Set-VMDvdDrive -VMName '").concat(vm_name).concat(
        "' -Path '",
    ).concat(iso_path).concat("'");
    push_controller_args(&mut cmd, controller_number, controller_location);
    cmd
}

/// The command ejecting the ISO from a VM's DVD drive.
pub fn eject_iso_command(
    vm_name: &str,
    controller_number: Option<u32>,
    controller_location: Option<u32>,
) -> (r: String)
    ensures
        r@ == "Set-VMDvdDrive -VMName '"@ + vm_name@ + "' -Path $null"@ + controller_args(
            controller_number,
            controller_location,
        ),
{
    let mut cmd = String::from_str("Set-VMDvdDrive -VMName '").concat(vm_name).concat(
        "' -Path $null",
    );
    push_controller_args(&mut cmd, controller_number, controller_location);
    cmd
}

/// The command removing a DVD drive from a VM.
pub fn remove_dvd_drive_command(vm_name: &str, controller_number: u32, controller_location: u32) -> (r:
    String)
    ensures
        r@ == "Remove-VMDvdDrive -VMName '"@ + vm_name@ + "'"@ + controller_args(
            Some(controller_number),
            Some(controller_location),
        ),
{
    let mut cmd = String::from_str("Remove-VMDvdDrive -VMName '").concat(vm_name).concat("'");
    push_controller_args(&mut cmd, Some(controller_number), Some(controller_location));
    cmd
}

/// The command attaching a VHD to a VM, with the optional controller type
/// and position.
pub fn add_hard_disk_drive_command(
    vm_name: &str,
    vhd_path: &str,
    controller_type: Option<&str>,
    controller_number: Option<u32>,
    controller_location: Option<u32>,
) -> (r: String)
    ensures
        r@ == "Add-VMHardDiskDrive -VMName '"@ + vm_name@ + "' -Path '"@ + vhd_path@ + "'"@
            + (match controller_type {
            Some(ct) => " -ControllerType "@ + ct@,
            None => Seq::empty(),
        }) + controller_args(controller_number, controller_location),
{
    let mut cmd = String::from_str("Add-VMHardDiskDrive -VMName '").concat(vm_name).concat(
        "' -Path '",
    ).concat(vhd_path).concat("'");
    if let Some(ct) = controller_type {
        cmd.append(" -ControllerType ");
        cmd.append(ct);
    }
    push_controller_args(&mut cmd, controller_number, controller_location);
    cmd
}

/// The command detaching a SCSI hard disk from a VM.
pub fn remove_hard_disk_drive_command(
    vm_name: &str,
    controller_number: u32,
    controller_location: u32,
) -> (r: String)
    ensures
        r@ == "Remove-VMHardDiskDrive -VMName '"@ + vm_name@ + "' -ControllerType SCSI"@
            + controller_args(Some(controller_number), Some(controller_location)),
{
    let mut cmd = String::from_str("Remove-VMHardDiskDrive -VMName '").concat(vm_name).concat(
        "' -ControllerType SCSI",
    );
    push_controller_args(&mut cmd, Some(controller_number), Some(controller_location));
    cmd
}

/// The PowerShell expression standing for a boot device: DVD/CD, VHD/
/// HardDrive and Network name the VM's first such device; anything else
/// is passed through as written.
pub open spec fn boot_device_expr(vm_name: Seq<char>, device: Seq<char>) -> Seq<char> {
    if device == "DVD"@ || device == "CD"@ {
        "$(Get-VMDvdDrive -VMName '"@ + vm_name + "' | Select-Object -First 1)"@
    } else if device == "VHD"@ || device == "HardDrive"@ {
        "$(Get-VMHardDiskDrive -VMName '"@ + vm_name + "' | Select-Object -First 1)"@
    } else if device == "Network"@ {
        "$(Get-VMNetworkAdapter -VMName '"@ + vm_name + "' | Select-Object -First 1)"@
    } else {
        device
    }
}

/// The boot device expressions joined with ", ".
pub open spec fn boot_devices_list(vm_name: Seq<char>, devices: Seq<Seq<char>>) -> Seq<char>
    decreases devices.len(),
{
    if devices.len() == 0 {
        Seq::empty()
    } else if devices.len() == 1 {
        boot_device_expr(vm_name, devices[0])
    } else {
        boot_devices_list(vm_name, devices.drop_last()) + ", "@ + boot_device_expr(
            vm_name,
            devices.last(),
        )
    }
}

fn boot_device(vm_name: &str, device: &str) -> (r: String)
    ensures
        r@ == boot_device_expr(vm_name@, device@),
{
    if str_eq(device, "DVD") || str_eq(device, "CD") {
        String::from_str("$(Get-VMDvdDrive -VMName '").concat(vm_name).concat(
            "' | Select-Object -First 1)",
        )
    } else if str_eq(device, "VHD") || str_eq(device, "HardDrive") {
        String::from_str("$(Get-VMHardDiskDrive -VMName '").concat(vm_name).concat(
            "' | Select-Object -First 1)",
        )
    } else if str_eq(device, "Network") {
        String::from_str("$(Get-VMNetworkAdapter -VMName '").concat(vm_name).concat(
            "' | Select-Object -First 1)",
        )
    } else {
        String::from_str(device)
    }
}

/// The command setting a (generation 2) VM's firmware boot order.
pub fn boot_order_command(vm_name: &str, boot_devices: &Vec<String>) -> (r: String)
    ensures
        r@ == "Set-VMFirmware -VMName '"@ + vm_name@ + "' -BootOrder "@ + boot_devices_list(
            vm_name@,
            boot_devices@.map_values(|d: String| d@),
        ),
{
    let ghost names = boot_devices@.map_values(|d: String| d@);
    let mut list = String::new();
    let mut i: usize = 0;
    while i < boot_devices.len()
        invariant
            names == boot_devices@.map_values(|d: String| d@),
            i <= boot_devices@.len(),
            list@ == boot_devices_list(vm_name@, names.take(i as int)),
        decreases boot_devices@.len() - i,
    {
        let expr = boot_device(vm_name, boot_devices[i].as_str());
        proof {
            assert(names.take(i + 1).drop_last() =~= names.take(i as int));
            assert(names.take(i + 1).last() == boot_devices@[i as int]@);
        }
        if i > 0 {
            list.append(", ");
        } else {
            assert(names.take(1) =~= seq![names[0]]);
        }
        list.append(expr.as_str());
        i = i + 1;
    }
    assert(names.take(i as int) =~= names);
    String::from_str("Set-VMFirmware -VMName '").concat(vm_name).concat("' -BootOrder ").concat(
        list.as_str(),
    )
}

/// Partition style for disk initialization.
#[derive(Debug, Clone, Copy, PartialEq, Eq, Structural)]
pub enum PartitionStyle {
    /// MBR partition table (legacy, max 2TB)
    Mbr,
    /// GPT partition table (modern, required for UEFI)
    Gpt,
}

impl PartitionStyle {
    /// The style's name for `Initialize-Disk`.
    pub fn as_str(&self) -> (r: &'static str)
        ensures
            r@ == match *self {
                PartitionStyle::Mbr => "MBR"@,
                PartitionStyle::Gpt => "GPT"@,
            },
    {
        match self {
            PartitionStyle::Mbr => "MBR",
            PartitionStyle::Gpt => "GPT",
        }
    }
}

/// File system type for formatting.
#[derive(Debug, Clone, Copy, PartialEq, Eq, Structural)]
pub enum FileSystem {
    Ntfs,
    ReFs,
    Fat32,
    ExFat,
}

impl FileSystem {
    /// The file system's name for `Format-Volume`.
    pub fn as_str(&self) -> (r: &'static str)
        ensures
            r@ == match *self {
                FileSystem::Ntfs => "NTFS"@,
                FileSystem::ReFs => "ReFS"@,
                FileSystem::Fat32 => "FAT32"@,
                FileSystem::ExFat => "exFAT"@,
            },
    {
        match self {
            FileSystem::Ntfs => "NTFS",
            FileSystem::ReFs => "ReFS",
            FileSystem::Fat32 => "FAT32",
            FileSystem::ExFat => "exFAT",
        }
    }
}

/// The command dismounting a VHD mounted for initialization.
pub fn dismount_vhd_command(vhd_path: &str) -> (r: String)
    ensures
        r@ == "Dismount-VHD -Path '"@ + vhd_path@ + "'"@,
{
    String::from_str("Dismount-VHD -Path '").concat(vhd_path).concat("'")
}

/// Windows edition found in an installation image.
#[derive(Debug, Clone)]
pub struct WindowsEdition {
    pub index: u32,
    pub name: String,
    pub description: String,
    pub size_bytes: u64,
}

/// An edition as the image listing prints it; every field may be missing.
#[derive(Debug, Clone)]
pub struct EditionRecord {
    pub index: Option<u32>,
    pub name: Option<String>,
    pub description: Option<String>,
    pub size_bytes: Option<u64>,
}

/// Whether `r` is the edition that `e` lists: index 1, empty texts and
/// size 0 stand in for missing fields.
pub open spec fn edition_of_record(e: EditionRecord, r: WindowsEdition) -> bool {
    &&& r.index == number_or(e.index, 1)
    &&& r.name@ == text_or(e.name, Seq::empty())
    &&& r.description@ == text_or(e.description, Seq::empty())
    &&& r.size_bytes == match e.size_bytes {
        Some(s) => s,
        None => 0u64,
    }
}

impl WindowsEdition {
    /// An edition from a listing record.
    pub fn from_record(e: &EditionRecord) -> (r: WindowsEdition)
        ensures
            edition_of_record(*e, r),
    {
        WindowsEdition {
            index: match e.index {
                Some(i) => i,
                None => 1,
            },
            name: string_or_empty(e.name.clone()),
            description: string_or_empty(e.description.clone()),
            size_bytes: match e.size_bytes {
                Some(s) => s,
                None => 0,
            },
        }
    }
}

/// The editions of an image listing, in its order.
pub fn editions_from_records(records: &Vec<EditionRecord>) -> (r: Vec<WindowsEdition>)
    ensures
        r.len() == records.len(),
        forall|i: int| 0 <= i < r.len() ==> edition_of_record(#[trigger] records[i], r[i]),
{
    let mut out: Vec<WindowsEdition> = Vec::new();
    let mut i: usize = 0;
    while i < records.len()
        invariant
            i <= records.len(),
            out.len() == i,
            forall|j: int| 0 <= j < i ==> edition_of_record(#[trigger] records[j], out[j]),
        decreases records.len() - i,
    {
        out.push(WindowsEdition::from_record(&records[i]));
        i = i + 1;
    }
    out
}

/// The size in bytes of a disk of `size_gb` GiB; `None` when it does not
/// fit in 64 bits.
pub fn gib_to_bytes(size_gb: u64) -> (r: Option<u64>)
    ensures
        size_gb * 1073741824 <= u64::MAX ==> r == Some((size_gb * 1073741824) as u64),
        size_gb * 1073741824 > u64::MAX ==> r is None,
{
    size_gb.checked_mul(1073741824)
}

/// The PowerShell script that lists the DVD drives of a VM as JSON.
pub fn dvd_drives_query(vm_name: &str) -> (r: String)
    ensures
        r@ == "\n                Get-VMDvdDrive -VMName '"@ + vm_name@ + "' | ForEach-Object {\n                    [PSCustomObject]@{\n                        VMName = $_.VMName\n                        ControllerType = $_.ControllerType.ToString()\n                        ControllerNumber = $_.ControllerNumber\n                        ControllerLocation = $_.ControllerLocation\n                        Path = $_.Path\n                    }\n                } | ConvertTo-Json -Compress\n                "@,
{
    String::from_str("\n                Get-VMDvdDrive -VMName '").concat(vm_name).concat("' | ForEach-Object {\n                    [PSCustomObject]@{\n                        VMName = $_.VMName\n                        ControllerType = $_.ControllerType.ToString()\n                        ControllerNumber = $_.ControllerNumber\n                        ControllerLocation = $_.ControllerLocation\n                        Path = $_.Path\n                    }\n                } | ConvertTo-Json -Compress\n                ")
}

/// The PowerShell script that lists the hard disk drives of a VM as JSON.
pub fn hard_disk_drives_query(vm_name: &str) -> (r: String)
    ensures
        r@ == "\n                Get-VMHardDiskDrive -VMName '"@ + vm_name@ + "' | ForEach-Object {\n                    [PSCustomObject]@{\n                        VMName = $_.VMName\n                        ControllerType = $_.ControllerType.ToString()\n                        ControllerNumber = $_.ControllerNumber\n                        ControllerLocation = $_.ControllerLocation\n                        Path = $_.Path\n                    }\n                } | ConvertTo-Json -Compress\n                "@,
{
    String::from_str("\n                Get-VMHardDiskDrive -VMName '").concat(vm_name).concat("' | ForEach-Object {\n                    [PSCustomObject]@{\n                        VMName = $_.VMName\n                        ControllerType = $_.ControllerType.ToString()\n                        ControllerNumber = $_.ControllerNumber\n                        ControllerLocation = $_.ControllerLocation\n                        Path = $_.Path\n                    }\n                } | ConvertTo-Json -Compress\n                ")
}

/// The PowerShell script that mounts an installation image, lists its editions as JSON and dismounts it.
pub fn windows_editions_query(iso_path: &str) -> (r: String)
    ensures
        r@ == "\n        # Mount ISO\n        $iso = Mount-DiskImage -ImagePath '"@ + iso_path@ + "' -PassThru\n        $driveLetter = ($iso | Get-Volume).DriveLetter + ':'\n        $wimPath = Join-Path $driveLetter 'sources\\install.wim'\n\n        if (-not (Test-Path $wimPath)) {\n            $wimPath = Join-Path $driveLetter 'sources\\install.esd'\n        }\n\n        if (-not (Test-Path $wimPath)) {\n            Dismount-DiskImage -ImagePath '"@ + iso_path@ + "'\n            Write-Error \"No install.wim or install.esd found in ISO\"\n            exit 1\n        }\n\n        # Get image info\n        $images = Get-WindowsImage -ImagePath $wimPath\n\n        $result = @()\n        foreach ($img in $images) {\n            $result += [PSCustomObject]@{\n                Index = $img.ImageIndex\n                Name = $img.ImageName\n                Description = $img.ImageDescription\n                SizeBytes = $img.ImageSize\n            }\n        }\n\n        # Dismount ISO\n        Dismount-DiskImage -ImagePath '"@ + iso_path@ + "'\n\n        $result | ConvertTo-Json -Compress\n        "@,
{
    String::from_str("\n        # Mount ISO\n        $iso = Mount-DiskImage -ImagePath '").concat(iso_path).concat("' -PassThru\n        $driveLetter = ($iso | Get-Volume).DriveLetter + ':'\n        $wimPath = Join-Path $driveLetter 'sources\\install.wim'\n\n        if (-not (Test-Path $wimPath)) {\n            $wimPath = Join-Path $driveLetter 'sources\\install.esd'\n        }\n\n        if (-not (Test-Path $wimPath)) {\n            Dismount-DiskImage -ImagePath '").concat(iso_path).concat("'\n            Write-Error \"No install.wim or install.esd found in ISO\"\n            exit 1\n        }\n\n        # Get image info\n        $images = Get-WindowsImage -ImagePath $wimPath\n\n        $result = @()\n        foreach ($img in $images) {\n            $result += [PSCustomObject]@{\n                Index = $img.ImageIndex\n                Name = $img.ImageName\n                Description = $img.ImageDescription\n                SizeBytes = $img.ImageSize\n            }\n        }\n\n        # Dismount ISO\n        Dismount-DiskImage -ImagePath '").concat(iso_path).concat("'\n\n        $result | ConvertTo-Json -Compress\n        ")
}

/// The name of a partition style, as the disk cmdlets take it.
pub open spec fn partition_style_name(p: PartitionStyle) -> Seq<char> {
    match p {
        PartitionStyle::Mbr => "MBR"@,
        PartitionStyle::Gpt => "GPT"@,
    }
}

/// The name of a file system, as the volume cmdlets take it.
pub open spec fn file_system_name(f: FileSystem) -> Seq<char> {
    match f {
        FileSystem::Ntfs => "NTFS"@,
        FileSystem::ReFs => "ReFS"@,
        FileSystem::Fat32 => "FAT32"@,
        FileSystem::ExFat => "exFAT"@,
    }
}

/// The PowerShell script that mounts a virtual disk, initializes it with one
/// partition formatted with `file_system` and labelled `label` (default
/// "Data"), and prints its drive letter.
pub fn initialize_vhd_script(vhd_path: &str, partition_style: PartitionStyle, file_system: FileSystem, label: Option<&str>) -> (r: String)
    ensures
        r@ == "\n        # Mount the VHD\n        $vhd = Mount-VHD -Path '"@ + vhd_path@ + "' -Passthru\n        $diskNumber = $vhd.DiskNumber\n\n        # Initialize the disk\n        Initialize-Disk -Number $diskNumber -PartitionStyle "@ + partition_style_name(partition_style) + "\n\n        # Create partition using all available space\n        $partition = New-Partition -DiskNumber $diskNumber -UseMaximumSize -AssignDriveLetter\n\n        # Format the partition\n        Format-Volume -Partition $partition -FileSystem "@ + file_system_name(file_system) + " -NewFileSystemLabel '"@ + (match label { Some(l) => l@, None => "Data"@ }) + "' -Confirm:$false\n\n        # Get the drive letter\n        $driveLetter = $partition.DriveLetter\n\n        # Output the drive letter\n        Write-Output $driveLetter\n        "@,
{
    let label_str = match label {
        Some(l) => l,
        None => "Data",
    };
    String::from_str("\n        # Mount the VHD\n        $vhd = Mount-VHD -Path '").concat(vhd_path).concat("' -Passthru\n        $diskNumber = $vhd.DiskNumber\n\n        # Initialize the disk\n        Initialize-Disk -Number $diskNumber -PartitionStyle ").concat(partition_style.as_str()).concat("\n\n        # Create partition using all available space\n        $partition = New-Partition -DiskNumber $diskNumber -UseMaximumSize -AssignDriveLetter\n\n        # Format the partition\n        Format-Volume -Partition $partition -FileSystem ").concat(file_system.as_str()).concat(" -NewFileSystemLabel '").concat(label_str).concat("' -Confirm:$false\n\n        # Get the drive letter\n        $driveLetter = $partition.DriveLetter\n\n        # Output the drive letter\n        Write-Output $driveLetter\n        ")
}

/// The PowerShell script that mounts a virtual disk, lays out the partitions
/// of a Windows boot disk (EFI, MSR, and an NTFS partition labelled
/// `windows_label`, default "Windows") and prints the Windows drive letter.
pub fn initialize_windows_vhd_script(vhd_path: &str, windows_label: Option<&str>) -> (r: String)
    ensures
        r@ == "\n        # Mount the VHD\n        $vhd = Mount-VHD -Path '"@ + vhd_path@ + "' -Passthru\n        $diskNumber = $vhd.DiskNumber\n\n        # Initialize as GPT\n        Initialize-Disk -Number $diskNumber -PartitionStyle GPT\n\n        # Create EFI System Partition (100MB)\n        $efiPartition = New-Partition -DiskNumber $diskNumber -Size 100MB -GptType '{c12a7328-f81f-11d2-ba4b-00a0c93ec93b}'\n        Format-Volume -Partition $efiPartition -FileSystem FAT32 -NewFileSystemLabel 'System' -Confirm:$false\n\n        # Create Microsoft Reserved Partition (16MB)\n        New-Partition -DiskNumber $diskNumber -Size 16MB -GptType '{e3c9e316-0b5c-4db8-817d-f92df00215ae}' | Out-Null\n\n        # Create Windows partition (remaining space)\n        $winPartition = New-Partition -DiskNumber $diskNumber -UseMaximumSize -AssignDriveLetter\n        Format-Volume -Partition $winPartition -FileSystem NTFS -NewFileSystemLabel '"@ + (match windows_label { Some(l) => l@, None => "Windows"@ }) + "' -Confirm:$false\n\n        # Output the Windows drive letter\n        Write-Output $winPartition.DriveLetter\n        "@,
{
    let label = match windows_label {
        Some(l) => l,
        None => "Windows",
    };
    String::from_str("\n        # Mount the VHD\n        $vhd = Mount-VHD -Path '").concat(vhd_path).concat("' -Passthru\n        $diskNumber = $vhd.DiskNumber\n\n        # Initialize as GPT\n        Initialize-Disk -Number $diskNumber -PartitionStyle GPT\n\n        # Create EFI System Partition (100MB)\n        $efiPartition = New-Partition -DiskNumber $diskNumber -Size 100MB -GptType '{c12a7328-f81f-11d2-ba4b-00a0c93ec93b}'\n        Format-Volume -Partition $efiPartition -FileSystem FAT32 -NewFileSystemLabel 'System' -Confirm:$false\n\n        # Create Microsoft Reserved Partition (16MB)\n        New-Partition -DiskNumber $diskNumber -Size 16MB -GptType '{e3c9e316-0b5c-4db8-817d-f92df00215ae}' | Out-Null\n\n        # Create Windows partition (remaining space)\n        $winPartition = New-Partition -DiskNumber $diskNumber -UseMaximumSize -AssignDriveLetter\n        Format-Volume -Partition $winPartition -FileSystem NTFS -NewFileSystemLabel '").concat(label).concat("' -Confirm:$false\n\n        # Output the Windows drive letter\n        Write-Output $winPartition.DriveLetter\n        ")
}

/// The PowerShell script that creates a dynamic VHDX of `size_gb` GiB, lays
/// out a Windows boot disk on it, applies edition `edition_index` of the
/// installation image and makes it bootable. The size in bytes must fit in
/// 64 bits.
pub fn create_vhdx_from_iso_script(iso_path: &str, vhdx_path: &str, size_gb: u64, edition_index: u32) -> (r: String)
    requires
        size_gb * 1073741824 <= u64::MAX,
    ensures
        r@ == "\n        $ErrorActionPreference = 'Stop'\n\n        # Create VHDX\n        $vhdx = New-VHD -Path '"@ + vhdx_path@ + "' -SizeBytes "@ + decimal_seq((size_gb * 1073741824) as nat) + " -Dynamic\n\n        # Mount VHDX\n        $vhd = Mount-VHD -Path '"@ + vhdx_path@ + "' -Passthru\n        $diskNumber = $vhd.DiskNumber\n\n        # Initialize as GPT\n        Initialize-Disk -Number $diskNumber -PartitionStyle GPT\n\n        # Create EFI System Partition\n        $efiPartition = New-Partition -DiskNumber $diskNumber -Size 100MB -GptType '{c12a7328-f81f-11d2-ba4b-00a0c93ec93b}'\n        Format-Volume -Partition $efiPartition -FileSystem FAT32 -NewFileSystemLabel 'System' -Confirm:$false\n        $efiPartition | Add-PartitionAccessPath -AssignDriveLetter\n        $efiLetter = $efiPartition.DriveLetter\n\n        # Create MSR Partition\n        New-Partition -DiskNumber $diskNumber -Size 16MB -GptType '{e3c9e316-0b5c-4db8-817d-f92df00215ae}' | Out-Null\n\n        # Create Windows Partition\n        $winPartition = New-Partition -DiskNumber $diskNumber -UseMaximumSize\n        Format-Volume -Partition $winPartition -FileSystem NTFS -NewFileSystemLabel 'Windows' -Confirm:$false\n        $winPartition | Add-PartitionAccessPath -AssignDriveLetter\n        $winLetter = $winPartition.DriveLetter\n\n        # Mount ISO\n        $iso = Mount-DiskImage -ImagePath '"@ + iso_path@ + "' -PassThru\n        $isoLetter = ($iso | Get-Volume).DriveLetter + ':'\n\n        # Find WIM file\n        $wimPath = Join-Path $isoLetter 'sources\\install.wim'\n        if (-not (Test-Path $wimPath)) {\n            $wimPath = Join-Path $isoLetter 'sources\\install.esd'\n        }\n\n        # Apply Windows image\n        Write-Host \"Applying Windows image (this may take several minutes)...\"\n        Expand-WindowsImage -ImagePath $wimPath -Index "@ + decimal_seq(edition_index as nat) + " -ApplyPath \"${winLetter}:\\\"\n\n        # Configure boot files\n        Write-Host \"Configuring boot files...\"\n        bcdboot \"${winLetter}:\\Windows\" /s \"${efiLetter}:\" /f UEFI\n\n        # Cleanup\n        Dismount-DiskImage -ImagePath '"@ + iso_path@ + "'\n        Dismount-VHD -Path '"@ + vhdx_path@ + "'\n\n        Write-Host \"VHDX created successfully: "@ + vhdx_path@ + "\"\n        "@,
{
    let size_bytes = size_gb * 1073741824;
    { let mut s = { let mut s = String::from_str("\n        $ErrorActionPreference = 'Stop'\n\n        # Create VHDX\n        $vhdx = New-VHD -Path '").concat(vhdx_path).concat("' -SizeBytes "); push_decimal(&mut s, size_bytes); s }.concat(" -Dynamic\n\n        # Mount VHDX\n        $vhd = Mount-VHD -Path '").concat(vhdx_path).concat("' -Passthru\n        $diskNumber = $vhd.DiskNumber\n\n        # Initialize as GPT\n        Initialize-Disk -Number $diskNumber -PartitionStyle GPT\n\n        # Create EFI System Partition\n        $efiPartition = New-Partition -DiskNumber $diskNumber -Size 100MB -GptType '{c12a7328-f81f-11d2-ba4b-00a0c93ec93b}'\n        Format-Volume -Partition $efiPartition -FileSystem FAT32 -NewFileSystemLabel 'System' -Confirm:$false\n        $efiPartition | Add-PartitionAccessPath -AssignDriveLetter\n        $efiLetter = $efiPartition.DriveLetter\n\n        # Create MSR Partition\n        New-Partition -DiskNumber $diskNumber -Size 16MB -GptType '{e3c9e316-0b5c-4db8-817d-f92df00215ae}' | Out-Null\n\n        # Create Windows Partition\n        $winPartition = New-Partition -DiskNumber $diskNumber -UseMaximumSize\n        Format-Volume -Partition $winPartition -FileSystem NTFS -NewFileSystemLabel 'Windows' -Confirm:$false\n        $winPartition | Add-PartitionAccessPath -AssignDriveLetter\n        $winLetter = $winPartition.DriveLetter\n\n        # Mount ISO\n        $iso = Mount-DiskImage -ImagePath '").concat(iso_path).concat("' -PassThru\n        $isoLetter = ($iso | Get-Volume).DriveLetter + ':'\n\n        # Find WIM file\n        $wimPath = Join-Path $isoLetter 'sources\\install.wim'\n        if (-not (Test-Path $wimPath)) {\n            $wimPath = Join-Path $isoLetter 'sources\\install.esd'\n        }\n\n        # Apply Windows image\n        Write-Host \"Applying Windows image (this may take several minutes)...\"\n        Expand-WindowsImage -ImagePath $wimPath -Index "); push_decimal(&mut s, edition_index as u64); s }.concat(" -ApplyPath \"${winLetter}:\\\"\n\n        # Configure boot files\n        Write-Host \"Configuring boot files...\"\n        bcdboot \"${winLetter}:\\Windows\" /s \"${efiLetter}:\" /f UEFI\n\n        # Cleanup\n        Dismount-DiskImage -ImagePath '").concat(iso_path).concat("'\n        Dismount-VHD -Path '").concat(vhdx_path).concat("'\n\n        Write-Host \"VHDX created successfully: ").concat(vhdx_path).concat("\"\n        ")
}

/// The PowerShell script that creates a generation 2 VM booting from
/// `vhdx_path` with `memory_mb` MiB of startup memory and `cpu_count`
/// processors.
pub fn new_windows_vm_script(vm_name: &str, memory_mb: u64, vhdx_path: &str, cpu_count: u32) -> (r: String)
    ensures
        r@ == "\n        New-VM -Name '"@ + vm_name@ + "' -Generation 2 -MemoryStartupBytes "@ + decimal_seq(memory_mb as nat) + "MB -VHDPath '"@ + vhdx_path@ + "'\n        Set-VM -Name '"@ + vm_name@ + "' -ProcessorCount "@ + decimal_seq(cpu_count as nat) + "\n        "@,
{
    { let mut s = { let mut s = String::from_str("\n        New-VM -Name '").concat(vm_name).concat("' -Generation 2 -MemoryStartupBytes "); push_decimal(&mut s, memory_mb); s }.concat("MB -VHDPath '").concat(vhdx_path).concat("'\n        Set-VM -Name '").concat(vm_name).concat("' -ProcessorCount "); push_decimal(&mut s, cpu_count as u64); s }.concat("\n        ")
}

/// The DVD drives that the drive listing reported: a command that could
/// not be started, or that failed, is an error; no JSON, or JSON that did
/// not decode, lists none; otherwise the decoded records, in order.
pub fn dvd_drives_listing(run: &Result<CommandOutput, String>, decoded: Option<Vec<DriveRecord>>) -> (r: Result<Vec<DvdDrive>, HvError>)
    ensures
        match run {
            Err(why) => r matches Err(HvError::OperationFailed(m)) && m@ == "Failed to get DVD drives"@
                + ": "@ + why@,
            Ok(out) => {
                &&& !out.success ==> (r matches Err(HvError::OperationFailed(m)) && m@
                    == "Failed to get DVD drives"@ + ": "@ + out.stderr@)
                &&& out.success && json_kind(out.stdout@) == 0 ==> (r matches Ok(v) && v.len() == 0)
                &&& out.success && json_kind(out.stdout@) != 0 ==> (r matches Ok(v) && v.len()
                    == decoded_records(decoded).len() && forall|i: int|
                    0 <= i < v.len() ==> dvd_of_record(#[trigger] decoded_records(decoded)[i], v[i]))
            },
        },
{
    let out = match run {
        Ok(out) => out,
        Err(why) => {
            return Err(operation_failed("Failed to get DVD drives", why.as_str()));
        },
    };
    let json = match listing_json(out, "Failed to get DVD drives") {
        Ok(j) => j,
        Err(e) => {
            return Err(e);
        },
    };
    match json {
        JsonOutput::Empty => Ok(Vec::new()),
        _ => match &decoded {
            Some(rs) => Ok(dvd_drives_from_records(rs)),
            None => Ok(Vec::new()),
        },
    }
}

/// The hard disk drives that the drive listing reported: a command that
/// could not be started is an error; a failed command, no JSON, or JSON
/// that did not decode list none; otherwise the decoded records, in order.
pub fn hard_disk_drives_listing(run: &Result<CommandOutput, String>, decoded: Option<Vec<DriveRecord>>) -> (r: Result<Vec<HardDiskDrive>, HvError>)
    ensures
        match run {
            Err(why) => r matches Err(HvError::OperationFailed(m)) && m@
                == "Failed to get hard disk drives"@ + ": "@ + why@,
            Ok(out) => {
                &&& !out.success ==> (r matches Ok(v) && v.len() == 0)
                &&& out.success && json_kind(out.stdout@) == 0 ==> (r matches Ok(v) && v.len() == 0)
                &&& out.success && json_kind(out.stdout@) != 0 ==> (r matches Ok(v) && v.len()
                    == decoded_records(decoded).len() && forall|i: int|
                    0 <= i < v.len() ==> hard_disk_of_record(#[trigger] decoded_records(decoded)[i], v[i]))
            },
        },
{
    let out = match run {
        Ok(out) => out,
        Err(why) => {
            return Err(operation_failed("Failed to get hard disk drives", why.as_str()));
        },
    };
    let json = listing_json_or_empty(out);
    match json {
        JsonOutput::Empty => Ok(Vec::new()),
        _ => match &decoded {
            Some(rs) => Ok(hard_disk_drives_from_records(rs)),
            None => Ok(Vec::new()),
        },
    }
}

/// The editions that the image listing reported: a command that could not
/// be started, or that failed, is an error; no JSON, or JSON that did not
/// decode, lists none; otherwise the decoded records, in order.
pub fn editions_listing(run: &Result<CommandOutput, String>, decoded: Option<Vec<EditionRecord>>) -> (r: Result<Vec<WindowsEdition>, HvError>)
    ensures
        match run {
            Err(why) => r matches Err(HvError::OperationFailed(m)) && m@
                == "Failed to get Windows editions"@ + ": "@ + why@,
            Ok(out) => {
                &&& !out.success ==> (r matches Err(HvError::OperationFailed(m)) && m@
                    == "Failed to get Windows editions"@ + ": "@ + out.stderr@)
                &&& out.success && json_kind(out.stdout@) == 0 ==> (r matches Ok(v) && v.len() == 0)
                &&& out.success && json_kind(out.stdout@) != 0 ==> (r matches Ok(v) && v.len()
                    == decoded_records(decoded).len() && forall|i: int|
                    0 <= i < v.len() ==> edition_of_record(#[trigger] decoded_records(decoded)[i], v[i]))
            },
        },
{
    let out = match run {
        Ok(out) => out,
        Err(why) => {
            return Err(operation_failed("Failed to get Windows editions", why.as_str()));
        },
    };
    let json = match listing_json(out, "Failed to get Windows editions") {
        Ok(j) => j,
        Err(e) => {
            return Err(e);
        },
    };
    match json {
        JsonOutput::Empty => Ok(Vec::new()),
        _ => match &decoded {
            Some(rs) => Ok(editions_from_records(rs)),
            None => Ok(Vec::new()),
        },
    }
}

} // verus!
