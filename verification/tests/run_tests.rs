use wininfra::disk::{dvd_drives_listing, editions_listing, hard_disk_drives_listing};
use wininfra::error::HvError;
use wininfra::gpu::{
    device_info_set_result, device_walk_step, devices_listing, gpu_partition_adapters_listing,
    location_path_from_output, move_after_addition, move_after_removal, partitionable_gpus_listing,
    DeviceWalkStep,
};
use wininfra::host::{host_info_result, network_adapters_listing, HostInfoRecord, NetworkAdapterRecord};
use wininfra::powershell::{decode_listing, CommandOutput};
use wininfra::snapshot::{snapshots_listing, SnapshotInfo};
use wininfra::switch::{
    allows_management_os, connected_vms_from_output, list_switches_command,
    network_adapter_from_output, switches_listing, SwitchInfo, SwitchType, VirtualSwitch,
};
use wininfra::wmi::operations::{
    added_dvd_path, added_scsi_controller_path, attached_disk_path, dvd_drive_path,
    scsi_controller_path, scsi_for_dvd, ResourceSetting,
};

fn ran(success: bool, stdout: &str, stderr: &str) -> Result<CommandOutput, String> {
    Ok(CommandOutput { success, stdout: stdout.to_string(), stderr: stderr.to_string() })
}

fn not_started() -> Result<CommandOutput, String> {
    Err("program not found".to_string())
}

fn err<T>(r: Result<T, HvError>) -> HvError {
    match r {
        Err(e) => e,
        Ok(_) => panic!("expected an error"),
    }
}

fn op_failed(e: HvError) -> String {
    match e {
        HvError::OperationFailed(m) => m,
        other => panic!("unexpected {:?}", other),
    }
}

fn json_error(e: HvError) -> String {
    match e {
        HvError::JsonError(m) => m,
        other => panic!("unexpected {:?}", other),
    }
}

#[test]
fn listings_that_could_not_start_are_errors() {
    let e = err(dvd_drives_listing(&not_started(), None));
    assert_eq!(op_failed(e), "Failed to get DVD drives: program not found");
    let e = err(hard_disk_drives_listing(&not_started(), None));
    assert_eq!(op_failed(e), "Failed to get hard disk drives: program not found");
    let e = err(editions_listing(&not_started(), None));
    assert_eq!(op_failed(e), "Failed to get Windows editions: program not found");
    let e = err(gpu_partition_adapters_listing(&not_started(), Ok(vec![])));
    assert_eq!(op_failed(e), "Failed to get GPU partition adapters: program not found");
    let e = err(devices_listing(&not_started(), None, false));
    assert_eq!(op_failed(e), "Failed to get assignable devices: program not found");
    let e = err(devices_listing(&not_started(), None, true));
    assert_eq!(op_failed(e), "Failed to get VM assignable devices: program not found");
    let e = err(partitionable_gpus_listing(&not_started(), None, vec![]));
    assert_eq!(op_failed(e), "Failed to query partitionable GPUs: program not found");
    let e = err(location_path_from_output("dev", &not_started()));
    assert_eq!(op_failed(e), "Failed to get location path: program not found");
}

#[test]
fn moves_that_could_not_start_are_errors() {
    let e = err(move_after_removal("target", "PCIROOT(0)", &not_started()));
    assert_eq!(op_failed(e), "Failed to remove assignable device: program not found");
    let e = err(move_after_addition(&not_started()));
    assert_eq!(op_failed(e), "Failed to add assignable device: program not found");
}

#[test]
fn switch_queries() {
    let unknown = VirtualSwitch::from_info("id".to_string(), "sw".to_string(), None);
    assert_eq!(unknown.switch_type(&ran(true, " External\r\n", "")).unwrap(), SwitchType::External);
    assert_eq!(unknown.switch_type(&ran(true, "internal", "")).unwrap(), SwitchType::Internal);
    assert_eq!(unknown.switch_type(&ran(false, "External", "")).unwrap(), SwitchType::Private);
    let e = err(unknown.switch_type(&not_started()));
    assert_eq!(op_failed(e), "Failed to query switch type: program not found");
    let known = VirtualSwitch::from_info("id".to_string(), "sw".to_string(), Some(SwitchType::Internal));
    assert_eq!(known.switch_type(&not_started()).unwrap(), SwitchType::Internal);

    let e = err(allows_management_os(&not_started()));
    assert_eq!(op_failed(e), "Failed to query management OS: program not found");
    assert!(!allows_management_os(&ran(true, "False", "")).unwrap());

    assert_eq!(
        connected_vms_from_output(&ran(true, " vm1\r\n\r\nvm2\n", "")).unwrap(),
        vec!["vm1".to_string(), "vm2".to_string()]
    );
    assert!(connected_vms_from_output(&ran(false, "vm1", "")).unwrap().is_empty());
    let e = err(connected_vms_from_output(&not_started()));
    assert_eq!(op_failed(e), "Failed to query connected VMs: program not found");

    assert_eq!(network_adapter_from_output(&ran(true, " Intel NIC \n", "")).unwrap(), Some("Intel NIC".to_string()));
    assert_eq!(network_adapter_from_output(&ran(true, "  ", "")).unwrap(), None);
    assert_eq!(network_adapter_from_output(&ran(false, "Intel NIC", "")).unwrap(), None);
    let e = err(network_adapter_from_output(&not_started()));
    assert_eq!(op_failed(e), "Failed to query network adapter: program not found");
}

fn info(id: Option<&str>, name: Option<&str>, switch_type: Option<&str>) -> SwitchInfo {
    SwitchInfo {
        id: id.map(|s| s.to_string()),
        name: name.map(|s| s.to_string()),
        switch_type: switch_type.map(|s| s.to_string()),
        allow_management_o_s: None,
        net_adapter_interface_description: None,
    }
}

#[test]
fn switch_listing() {
    assert_eq!(list_switches_command(), "Get-VMSwitch | Select-Object Id, Name, SwitchType | ConvertTo-Json -Compress");
    let e = err(switches_listing(&not_started(), Ok(vec![])));
    assert_eq!(op_failed(e), "Failed to enumerate switches: program not found");
    let e = err(switches_listing(&ran(false, "", "access denied"), Ok(vec![])));
    assert_eq!(op_failed(e), "Failed to enumerate switches: access denied");
    assert!(switches_listing(&ran(true, " null ", ""), Err("x".to_string())).unwrap().is_empty());
    let e = err(switches_listing(&ran(true, "[{", ""), Err("eof".to_string())));
    assert_eq!(json_error(e), "Failed to parse switch list: eof");
    let e = err(switches_listing(&ran(true, "{", ""), Err("eof".to_string())));
    assert_eq!(json_error(e), "Failed to parse switch: eof");
    let listed = switches_listing(
        &ran(true, "[{},{},{}]", ""),
        Ok(vec![
            info(Some("a"), Some("Default"), Some("INTERNAL")),
            info(None, Some("orphan"), Some("External")),
            info(Some("b"), None, None),
        ]),
    )
    .unwrap();
    assert_eq!(listed.len(), 2);
    assert_eq!(listed[0].id(), "a");
    assert_eq!(listed[0].name(), "Default");
    assert_eq!(listed[0].cached_switch_type(), Some(SwitchType::Internal));
    assert_eq!(listed[1].id(), "b");
    assert_eq!(listed[1].name(), "b");
    assert_eq!(listed[1].cached_switch_type(), None);
}

#[test]
fn snapshot_listing() {
    let e = err(snapshots_listing(&not_started(), Ok(vec![]), "vm"));
    assert_eq!(op_failed(e), "program not found");
    let e = err(snapshots_listing(&ran(false, "", "no such VM"), Ok(vec![]), "vm"));
    assert_eq!(op_failed(e), "no such VM");
    assert!(snapshots_listing(&ran(true, "", ""), Err("x".to_string()), "vm").unwrap().is_empty());
    let e = err(snapshots_listing(&ran(true, "[", ""), Err("eof".to_string()), "vm"));
    assert_eq!(json_error(e), "Failed to parse snapshot list: eof");
    let e = err(snapshots_listing(&ran(true, "{", ""), Err("eof".to_string()), "vm"));
    assert_eq!(json_error(e), "Failed to parse snapshot: eof");
    let snaps = snapshots_listing(
        &ran(true, "[{},{},{}]", ""),
        Ok(vec![
            SnapshotInfo { name: None, id: Some("x".to_string()) },
            SnapshotInfo { name: Some("s1".to_string()), id: Some("id1".to_string()) },
            SnapshotInfo { name: Some("s2".to_string()), id: None },
        ]),
        "vm",
    )
    .unwrap();
    assert_eq!(snaps.len(), 2);
    assert_eq!((snaps[0].name(), snaps[0].id(), snaps[0].vm_name()), ("s1", "id1", "vm"));
    assert_eq!((snaps[1].name(), snaps[1].id()), ("s2", "s2"));
}

#[test]
fn host_and_adapter_listings() {
    let e = err(host_info_result(&not_started(), Err("x".to_string())));
    assert_eq!(op_failed(e), "program not found");
    let e = err(host_info_result(&ran(false, "", "denied"), Err("x".to_string())));
    assert_eq!(op_failed(e), "denied");
    let e = err(host_info_result(&ran(true, "null", ""), Err("expected a map".to_string())));
    assert_eq!(json_error(e), "Failed to parse host info: expected a map");
    let h = host_info_result(
        &ran(true, "{}", ""),
        Ok(HostInfoRecord {
            computer_name: Some("HOST".to_string()),
            logical_processor_count: Some(8),
            memory_capacity: None,
            virtual_machine_path: None,
            virtual_hard_disk_path: Some("D:\\vhd".to_string()),
        }),
    )
    .unwrap();
    assert_eq!(h.computer_name, "HOST");
    assert_eq!(h.logical_processor_count, 8);
    assert_eq!(h.memory_capacity_bytes, 0);
    assert_eq!(h.vm_path, "");
    assert_eq!(h.vhd_path, "D:\\vhd");

    let e = err(network_adapters_listing(&not_started(), Ok(vec![])));
    assert_eq!(op_failed(e), "program not found");
    assert!(network_adapters_listing(&ran(false, "[{}]", "x"), Ok(vec![])).unwrap().is_empty());
    assert!(network_adapters_listing(&ran(true, "null", ""), Err("x".to_string())).unwrap().is_empty());
    let e = err(network_adapters_listing(&ran(true, "[", ""), Err("eof".to_string())));
    assert_eq!(json_error(e), "Failed to parse adapters: eof");
    let e = err(network_adapters_listing(&ran(true, "{", ""), Err("eof".to_string())));
    assert_eq!(json_error(e), "Failed to parse adapter: eof");
    let a = network_adapters_listing(
        &ran(true, "{}", ""),
        Ok(vec![NetworkAdapterRecord {
            name: Some("Ethernet".to_string()),
            interface_description: None,
            mac_address: Some("00-11".to_string()),
            link_speed: None,
        }]),
    )
    .unwrap();
    assert_eq!(a.len(), 1);
    assert_eq!((a[0].name.as_str(), a[0].description.as_str(), a[0].mac_address.as_str()), ("Ethernet", "", "00-11"));
}

#[test]
fn decoding_a_listing() {
    assert!(decode_listing::<u8>(" ", Err("x".to_string()), "list", "one").unwrap().is_empty());
    assert_eq!(decode_listing(" [1,2] ", Ok(vec![1u8, 2]), "list", "one").unwrap(), vec![1u8, 2]);
    assert_eq!(json_error(decode_listing::<u8>("[", Err("eof".to_string()), "list", "one").unwrap_err()), "list: eof");
    assert_eq!(json_error(decode_listing::<u8>("{", Err("eof".to_string()), "list", "one").unwrap_err()), "one: eof");
}

fn setting(resource_type: Option<u32>, parent: Option<&str>, path: &str) -> ResourceSetting {
    ResourceSetting { resource_type, parent: parent.map(|p| p.to_string()), path: path.to_string() }
}

#[test]
fn resource_settings_are_chosen_in_query_order() {
    let rs = vec![
        setting(None, None, "unknown"),
        setting(Some(17), Some("scsi0"), "disk-on-scsi0"),
        setting(Some(6), None, "scsi1"),
        setting(Some(6), None, "scsi2"),
        setting(Some(17), None, "disk-without-parent"),
        setting(Some(17), Some("scsi1"), "disk-on-scsi1"),
        setting(Some(16), None, "dvd"),
    ];
    assert_eq!(scsi_controller_path(&rs), Some("scsi1".to_string()));
    assert_eq!(attached_disk_path(&rs, "scsi1"), Some("disk-on-scsi1".to_string()));
    assert_eq!(attached_disk_path(&rs, "scsi9"), None);
    assert_eq!(dvd_drive_path(&rs), Some("dvd".to_string()));
    assert_eq!(added_scsi_controller_path(&rs).unwrap(), "scsi1");
    assert_eq!(scsi_for_dvd(&rs).unwrap(), "scsi1");
    assert_eq!(added_dvd_path(&rs).unwrap(), "dvd");

    let none = vec![setting(Some(17), Some("scsi0"), "disk")];
    assert_eq!(scsi_controller_path(&none), None);
    assert_eq!(dvd_drive_path(&none), None);
    assert_eq!(op_failed(added_scsi_controller_path(&none).unwrap_err()), "SCSI controller was added but could not be found");
    assert_eq!(op_failed(scsi_for_dvd(&none).unwrap_err()), "No SCSI controller found - cannot add DVD");
    assert_eq!(op_failed(added_dvd_path(&none).unwrap_err()), "DVD drive was added but could not be found");
}

#[test]
fn gpu_walk_steps() {
    assert_eq!(device_walk_step(None), DeviceWalkStep::Read);
    assert_eq!(device_walk_step(Some(259)), DeviceWalkStep::Stop);
    assert_eq!(device_walk_step(Some(5)), DeviceWalkStep::Skip);
    assert!(device_info_set_result(false).is_ok());
    assert_eq!(op_failed(device_info_set_result(true).unwrap_err()), "Failed to get device info set");
}
