use wininfra::clus::enumerate::keep_opened;
use wininfra::disk::{dvd_drives_listing, editions_listing, hard_disk_drives_listing, DriveRecord, EditionRecord};
use wininfra::error::HvError;
use wininfra::gpu::{
    devices_listing, gpu_partition_adapters_listing, move_after_addition, move_after_removal,
    partitionable_gpus_listing, DeviceRecord, GpuInfo, GpuPartitionAdapterRecord,
    PartitionableGpuRecord,
};
use wininfra::hello::Person;
use wininfra::linked_list::LinkedList;
use wininfra::powershell::CommandOutput;
use wininfra::wmi::hyperv::EnabledState;
use wininfra::wmi::msvm::{MsvmMemorySettings, MsvmProcessorSettings, MsvmVm, MsvmVmSettings};
use wininfra::wmi::operations::{
    memory_settings_result, processor_settings_result, vm_by_id_result, vm_by_name_result,
    vm_settings_result,
};

fn out(success: bool, stdout: &str, stderr: &str) -> CommandOutput {
    CommandOutput { success, stdout: stdout.to_string(), stderr: stderr.to_string() }
}

fn ran(success: bool, stdout: &str, stderr: &str) -> Result<CommandOutput, String> {
    Ok(out(success, stdout, stderr))
}

fn drive() -> DriveRecord {
    DriveRecord { vm_name: None, controller_type: None, controller_number: Some(1), controller_location: None, path: None }
}

fn op_failed(e: HvError) -> String {
    match e {
        HvError::OperationFailed(m) => m,
        other => panic!("unexpected {:?}", other),
    }
}

#[test]
fn moving_a_device_runs_the_addition_only_after_the_removal() {
    let next = move_after_removal("target", "PCIROOT(0)", &ran(true, "", "")).unwrap();
    assert_eq!(next, "Add-VMAssignableDevice -VMName 'target' -LocationPath 'PCIROOT(0)'");
    let e = move_after_removal("target", "PCIROOT(0)", &ran(false, "", "busy")).unwrap_err();
    assert_eq!(op_failed(e), "Failed to remove assignable device from VM: busy");
    assert!(move_after_addition(&ran(true, "", "")).is_ok());
    let e = move_after_addition(&ran(false, "", "stopped")).unwrap_err();
    assert_eq!(op_failed(e), "Failed to add assignable device to VM: stopped");
}

fn msvm() -> MsvmVm {
    MsvmVm {
        name: "vm".to_string(),
        id: "guid".to_string(),
        enabled_state: EnabledState::Disabled,
        health_state: 5,
        processor_count: None,
        memory_mb: None,
        generation: None,
        creation_time: None,
        notes: None,
        path: "p".to_string(),
    }
}

#[test]
fn vm_lookups() {
    match vm_by_name_result("ghost", None, None, None, None) {
        Err(HvError::VmNotFound(m)) => assert_eq!(m, "ghost"),
        _ => panic!("expected not found"),
    }
    let settings = MsvmVmSettings {
        instance_id: "i".to_string(),
        name: "n".to_string(),
        generation: Some(2),
        notes: None,
        bios_guid: None,
        config_path: None,
        path: "p".to_string(),
    };
    let memory = MsvmMemorySettings {
        virtual_quantity_mb: 4096,
        dynamic_memory_enabled: false,
        minimum_mb: None,
        maximum_mb: None,
        target_memory_buffer: None,
    };
    let vm = vm_by_name_result("vm", Some(msvm()), Some(settings), Some(memory), None).unwrap();
    assert_eq!(vm.generation, Some(2));
    assert_eq!(vm.memory_mb, Some(4096));
    assert_eq!(vm.processor_count, None);
    match vm_by_id_result("guid", None) {
        Err(HvError::VmNotFound(m)) => assert_eq!(m, "guid"),
        _ => panic!("expected not found"),
    }
    assert!(vm_by_id_result("guid", Some(msvm())).is_ok());
    match vm_settings_result(None) {
        Err(HvError::WmiError(m)) => assert_eq!(m, "VM settings not found"),
        _ => panic!("expected an error"),
    }
    match memory_settings_result(None) {
        Err(HvError::WmiError(m)) => assert_eq!(m, "Memory settings not found"),
        _ => panic!("expected an error"),
    }
    match processor_settings_result(None) {
        Err(HvError::WmiError(m)) => assert_eq!(m, "Processor settings not found"),
        _ => panic!("expected an error"),
    }
    let p = MsvmProcessorSettings { virtual_quantity: 4, limit: None, reservation: None, weight: None };
    assert_eq!(processor_settings_result(Some(p)).unwrap().virtual_quantity, 4);
}

#[test]
fn enumeration_skips_objects_that_do_not_open() {
    assert_eq!(keep_opened(vec![Some("n1"), None, Some("n3")]), vec!["n1", "n3"]);
    assert!(keep_opened::<u8>(vec![None, None]).is_empty());
}

#[test]
fn drive_and_edition_listings() {
    let e = dvd_drives_listing(&ran(false, "", "denied"), None).unwrap_err();
    assert_eq!(op_failed(e), "Failed to get DVD drives: denied");
    assert!(dvd_drives_listing(&ran(true, "null", ""), Some(vec![drive()])).unwrap().is_empty());
    assert!(dvd_drives_listing(&ran(true, "[{]", ""), None).unwrap().is_empty());
    let d = dvd_drives_listing(&ran(true, "{\"ControllerNumber\":1}", ""), Some(vec![drive()])).unwrap();
    assert_eq!(d.len(), 1);
    assert_eq!(d[0].controller_type, "SCSI");
    assert_eq!(d[0].controller_number, 1);
    assert!(hard_disk_drives_listing(&ran(false, "[{}]", "x"), Some(vec![drive()])).unwrap().is_empty());
    assert_eq!(hard_disk_drives_listing(&ran(true, "[{}]", ""), Some(vec![drive(), drive()])).unwrap().len(), 2);
    let e = editions_listing(&ran(false, "", "no iso"), None).unwrap_err();
    assert_eq!(op_failed(e), "Failed to get Windows editions: no iso");
    let ed = editions_listing(
        &ran(true, "[{}]", ""),
        Some(vec![EditionRecord { index: None, name: None, description: None, size_bytes: None }]),
    )
    .unwrap();
    assert_eq!(ed[0].index, 1);
}

fn adapter_record() -> GpuPartitionAdapterRecord {
    GpuPartitionAdapterRecord {
        vm_name: Some("vm".to_string()),
        instance_path: None,
        min_partition_vram: None,
        max_partition_vram: None,
        optimal_partition_vram: None,
        min_partition_encode: None,
        max_partition_encode: None,
        optimal_partition_encode: None,
        min_partition_decode: None,
        max_partition_decode: None,
        optimal_partition_decode: None,
        min_partition_compute: None,
        max_partition_compute: None,
        optimal_partition_compute: None,
    }
}

#[test]
fn gpu_listings() {
    let e = gpu_partition_adapters_listing(&ran(false, "", "x"), Ok(vec![])).unwrap_err();
    assert_eq!(op_failed(e), "Failed to get GPU partition adapters: x");
    assert!(gpu_partition_adapters_listing(&ran(true, " ", ""), Err("bad".to_string())).unwrap().is_empty());
    match gpu_partition_adapters_listing(&ran(true, "[1", ""), Err("eof".to_string())) {
        Err(HvError::JsonError(m)) => assert_eq!(m, "Failed to parse adapters: eof"),
        _ => panic!("expected a JSON error"),
    }
    match gpu_partition_adapters_listing(&ran(true, "{", ""), Err("eof".to_string())) {
        Err(HvError::JsonError(m)) => assert_eq!(m, "Failed to parse adapter: eof"),
        _ => panic!("expected a JSON error"),
    }
    let a = gpu_partition_adapters_listing(&ran(true, "{}", ""), Ok(vec![adapter_record()])).unwrap();
    assert_eq!(a[0].vm_name, "vm");

    let rec = DeviceRecord {
        instance_id: None,
        name: None,
        location_path: None,
        is_assigned: None,
        assigned_vm: None,
        is_dismounted: None,
        status: None,
    };
    assert!(devices_listing(&ran(false, "[{}]", ""), Some(vec![rec.clone()]), true).unwrap().is_empty());
    assert!(devices_listing(&ran(true, "[{", ""), None, true).unwrap().is_empty());
    let d = devices_listing(&ran(true, "[{}]", ""), Some(vec![rec]), true).unwrap();
    assert!(d[0].is_assigned && d[0].is_dismounted);

    let gpu = |id: &str, supports: bool| GpuInfo {
        device_instance_id: id.to_string(),
        name: format!("GPU {}", id),
        description: String::new(),
        manufacturer: String::new(),
        hardware_ids: vec![],
        driver: None,
        location: None,
        supports_partitioning: supports,
    };
    let fallback = partitionable_gpus_listing(&ran(false, "", ""), None, vec![gpu("a", true), gpu("b", false)]).unwrap();
    assert_eq!(fallback.len(), 1);
    assert!(partitionable_gpus_listing(&ran(true, "null", ""), None, vec![gpu("a", true)]).unwrap().is_empty());
    assert!(partitionable_gpus_listing(&ran(true, "[x", ""), None, vec![gpu("a", true)]).unwrap().is_empty());
    let named = partitionable_gpus_listing(
        &ran(true, "[{}]", ""),
        Some(vec![PartitionableGpuRecord { name: Some("PCI\\b#1".to_string()), valid_partition_counts: None }]),
        vec![gpu("a", false), gpu("PCI\\b", false)],
    )
    .unwrap();
    assert_eq!(named.len(), 1);
    assert!(named[0].supports_partitioning);
}

#[test]
fn list_with_a_changed_length_field() {
    let mut l: LinkedList<u8> = LinkedList::new();
    l.length = 5;
    l.push_tail(1);
    assert_eq!(l.len(), 6);
    assert_eq!(l.pop_front(), Some(1));
    assert_eq!(l.len(), 5);
    assert!(l.is_empty());
    l.push_front(2);
    l.clear();
    assert_eq!(l.len(), 5);
    assert_eq!(l.pop_tail(), None);
}

#[test]
fn age_by_a_clock_reading() {
    let p = Person::new(&"P".to_string(), 0);
    assert_eq!(p.age_from_clock(None), None);
    assert_eq!(p.age_from_clock(Some(365 * 86400)), Some(1));
    assert_eq!(p.age_from_clock(Some(8210266876799)), Some((8210266876799u64 / 86400 / 365) as u32));
    assert_eq!(p.age_from_clock(Some(8210266876800)), None);
    assert!(p.age().is_some());
}
