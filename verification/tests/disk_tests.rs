use wininfra::disk::{
    create_vhdx_from_iso_script, initialize_vhd_script, initialize_windows_vhd_script,
    new_windows_vm_script,
    add_dvd_drive_command, add_hard_disk_drive_command, boot_order_command, dvd_drives_from_records,
    dvd_drives_query, editions_from_records, eject_iso_command, gib_to_bytes,
    hard_disk_drives_from_records, mount_iso_command, remove_hard_disk_drive_command,
    windows_editions_query, DriveRecord, EditionRecord, FileSystem, PartitionStyle,
};
use wininfra::host::{export_vm_command, import_vm_command};
use wininfra::switch::{connected_vms_command, network_adapter_command};

#[test]
fn drive_commands() {
    assert_eq!(add_dvd_drive_command("vm", None, None), "Add-VMDvdDrive -VMName 'vm'");
    assert_eq!(
        add_dvd_drive_command("vm", Some(1), Some(2)),
        "Add-VMDvdDrive -VMName 'vm' -ControllerNumber 1 -ControllerLocation 2"
    );
    assert_eq!(
        mount_iso_command("vm", "C:\\a.iso", None, Some(0)),
        "Set-VMDvdDrive -VMName 'vm' -Path 'C:\\a.iso' -ControllerLocation 0"
    );
    assert_eq!(eject_iso_command("vm", None, None), "Set-VMDvdDrive -VMName 'vm' -Path $null");
    assert_eq!(
        add_hard_disk_drive_command("vm", "d.vhdx", Some("SCSI"), None, None),
        "Add-VMHardDiskDrive -VMName 'vm' -Path 'd.vhdx' -ControllerType SCSI"
    );
    assert_eq!(
        remove_hard_disk_drive_command("vm", 0, 1),
        "Remove-VMHardDiskDrive -VMName 'vm' -ControllerType SCSI -ControllerNumber 0 -ControllerLocation 1"
    );
}

#[test]
fn boot_order() {
    let devices = vec!["DVD".to_string(), "VHD".to_string(), "Network".to_string(), "X".to_string()];
    assert_eq!(
        boot_order_command("vm", &devices),
        "Set-VMFirmware -VMName 'vm' -BootOrder $(Get-VMDvdDrive -VMName 'vm' | Select-Object -First 1), $(Get-VMHardDiskDrive -VMName 'vm' | Select-Object -First 1), $(Get-VMNetworkAdapter -VMName 'vm' | Select-Object -First 1), X"
    );
    assert_eq!(boot_order_command("vm", &vec![]), "Set-VMFirmware -VMName 'vm' -BootOrder ");
}

#[test]
fn drive_and_edition_records() {
    let recs = vec![
        DriveRecord { vm_name: None, controller_type: None, controller_number: None, controller_location: Some(3), path: None },
        DriveRecord {
            vm_name: Some("vm".to_string()),
            controller_type: Some("IDE".to_string()),
            controller_number: Some(1),
            controller_location: None,
            path: Some("x.iso".to_string()),
        },
    ];
    let d = dvd_drives_from_records(&recs);
    assert_eq!(d[0].controller_type, "SCSI");
    assert_eq!(d[0].controller_location, 3);
    assert_eq!(d[0].vm_name, "");
    assert_eq!(d[1].controller_type, "IDE");
    assert_eq!(d[1].path, Some("x.iso".to_string()));
    let h = hard_disk_drives_from_records(&recs);
    assert_eq!(h.len(), 2);
    assert_eq!(h[1].controller_number, 1);
    let e = editions_from_records(&vec![
        EditionRecord { index: None, name: None, description: None, size_bytes: None },
        EditionRecord { index: Some(4), name: Some("Pro".to_string()), description: None, size_bytes: Some(9) },
    ]);
    assert_eq!(e[0].index, 1);
    assert_eq!(e[0].size_bytes, 0);
    assert_eq!(e[1].index, 4);
    assert_eq!(e[1].name, "Pro");
}

#[test]
fn sizes_and_names() {
    assert_eq!(gib_to_bytes(0), Some(0));
    assert_eq!(gib_to_bytes(1), Some(1073741824));
    assert_eq!(gib_to_bytes(u64::MAX), None);
    assert_eq!(gib_to_bytes(17179869183), Some(17179869183 * 1073741824));
    assert_eq!(gib_to_bytes(17179869184), None);
    assert_eq!(PartitionStyle::Gpt.as_str(), "GPT");
    assert_eq!(FileSystem::ReFs.as_str(), "ReFS");
}

#[test]
fn listing_scripts_name_their_target() {
    let q = dvd_drives_query("my vm");
    assert!(q.contains("Get-VMDvdDrive -VMName 'my vm' | ForEach-Object {"));
    assert!(q.trim_end().ends_with("ConvertTo-Json -Compress"));
    let q = windows_editions_query("C:\\w.iso");
    assert_eq!(q.matches("'C:\\w.iso'").count(), 3);
}

#[test]
fn preparation_scripts() {
    let s = initialize_vhd_script("d.vhdx", PartitionStyle::Mbr, FileSystem::ExFat, None);
    assert!(s.contains("Mount-VHD -Path 'd.vhdx' -Passthru"));
    assert!(s.contains("-PartitionStyle MBR\n"));
    assert!(s.contains("-FileSystem exFAT -NewFileSystemLabel 'Data' -Confirm:$false"));
    let s = initialize_vhd_script("d.vhdx", PartitionStyle::Gpt, FileSystem::Ntfs, Some("Games"));
    assert!(s.contains("-NewFileSystemLabel 'Games'"));
    let s = initialize_windows_vhd_script("w.vhdx", None);
    assert!(s.contains("-GptType '{c12a7328-f81f-11d2-ba4b-00a0c93ec93b}'"));
    assert!(s.contains("-NewFileSystemLabel 'Windows' -Confirm:$false"));
    let s = create_vhdx_from_iso_script("w.iso", "w.vhdx", 64, 6);
    assert!(s.contains("New-VHD -Path 'w.vhdx' -SizeBytes 68719476736 -Dynamic"));
    assert!(s.contains("Expand-WindowsImage -ImagePath $wimPath -Index 6 -ApplyPath \"${winLetter}:\\\""));
    assert!(s.contains("Write-Host \"VHDX created successfully: w.vhdx\""));
    let s = new_windows_vm_script("vm", 4096, "w.vhdx", 4);
    assert_eq!(
        s,
        "\n        New-VM -Name 'vm' -Generation 2 -MemoryStartupBytes 4096MB -VHDPath 'w.vhdx'\n        Set-VM -Name 'vm' -ProcessorCount 4\n        "
    );
}

#[test]
fn vm_transfer_and_switch_commands() {
    assert_eq!(import_vm_command("C:\\exp", true), "$vm = Import-VM -Path 'C:\\exp' -Copy -GenerateNewId; $vm.Name");
    assert_eq!(import_vm_command("C:\\exp", false), "$vm = Import-VM -Path 'C:\\exp'  -GenerateNewId; $vm.Name");
    assert_eq!(export_vm_command("vm", "D:\\out"), "Export-VM -Name 'vm' -Path 'D:\\out'");
    assert!(connected_vms_command("sid").contains("$_.SwitchId -eq 'sid'"));
    assert_eq!(network_adapter_command("sid"), "(Get-VMSwitch -Id 'sid').NetAdapterInterfaceDescription");
    let s = wininfra::gpu::copy_gpu_drivers_script("vm.vhdx", None);
    assert!(s.contains("Get-ChildItem 'C:\\Windows\\System32\\DriverStore\\FileRepository'"));
    assert!(s.contains("Mount-VHD -Path 'vm.vhdx' -Passthru"));
}
