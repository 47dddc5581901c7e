use wininfra::error::HvError;
use wininfra::gpu::{
    adapters_from_records, devices_from_records, escape_backslashes, gpu_partitioning_query,
    hardware_ids_from_text, location_path_from_output, move_assignable_device,
    partitioning_capable, partitioning_supported, select_partitionable,
    set_gpu_partition_adapter_command, set_vm_mmio_space_command, DdaSupportInfo,
    DeviceProperties, DeviceRecord, GpuInfo, GpuPartitionAdapterRecord, GpuPartitionSettings,
    PartitionableGpuRecord,
};
use wininfra::powershell::CommandOutput;

fn out(success: bool, stdout: &str, stderr: &str) -> CommandOutput {
    CommandOutput { success, stdout: stdout.to_string(), stderr: stderr.to_string() }
}

fn gpu(id: &str, name: &str, supports: bool) -> GpuInfo {
    GpuInfo {
        device_instance_id: id.to_string(),
        name: name.to_string(),
        description: String::new(),
        manufacturer: String::new(),
        hardware_ids: vec![],
        driver: None,
        location: None,
        supports_partitioning: supports,
    }
}

#[test]
fn partitionable_selection_matches_either_way() {
    let gpus = vec![
        gpu("PCI\\VEN_10DE&DEV_1", "NVIDIA RTX", false),
        gpu("PCI\\VEN_8086&DEV_2", "Intel UHD", false),
        gpu("PCI\\VEN_1002&DEV_3", "AMD Radeon Pro", false),
    ];
    let records = vec![
        PartitionableGpuRecord {
            name: Some("\\\\?\\PCI\\VEN_10DE&DEV_1#4&abc".to_string()),
            valid_partition_counts: Some("32,16".to_string()),
        },
        PartitionableGpuRecord { name: None, valid_partition_counts: None },
        PartitionableGpuRecord { name: Some("Radeon".to_string()), valid_partition_counts: None },
    ];
    let r = select_partitionable(gpus, &records);
    assert_eq!(r.len(), 2);
    assert_eq!(r[0].name, "NVIDIA RTX");
    assert_eq!(r[1].name, "AMD Radeon Pro");
    assert!(r.iter().all(|g| g.supports_partitioning));
    let none = select_partitionable(vec![gpu("x", "y", false)], &vec![]);
    assert!(none.is_empty());
}

#[test]
fn capable_gpus_are_kept_in_order() {
    let r = partitioning_capable(vec![gpu("a", "A", true), gpu("b", "B", false), gpu("c", "C", true)]);
    let names: Vec<&str> = r.iter().map(|g| g.name.as_str()).collect();
    assert_eq!(names, vec!["A", "C"]);
}

#[test]
fn hardware_ids_and_names() {
    assert_eq!(hardware_ids_from_text("PCI\\A\0PCI\\B\0\0"), vec!["PCI\\A", "PCI\\B"]);
    assert!(hardware_ids_from_text("").is_empty());
    let g = GpuInfo::from_properties(
        DeviceProperties {
            instance_id: Some("ID".to_string()),
            friendly_name: None,
            description: Some("Desc".to_string()),
            manufacturer: None,
            hardware_ids: Some("H1\0H2".to_string()),
            driver: Some("drv".to_string()),
            location: None,
        },
        true,
    );
    assert_eq!(g.name, "Desc");
    assert_eq!(g.description, "Desc");
    assert_eq!(g.manufacturer, "");
    assert_eq!(g.hardware_ids, vec!["H1", "H2"]);
    assert!(g.supports_partitioning);
    let g = GpuInfo::from_properties(
        DeviceProperties {
            instance_id: None,
            friendly_name: None,
            description: None,
            manufacturer: None,
            hardware_ids: None,
            driver: None,
            location: None,
        },
        false,
    );
    assert_eq!(g.name, "Unknown GPU");
    assert_eq!(g.device_instance_id, "");
    assert!(g.hardware_ids.is_empty());
}

#[test]
fn partitioning_query_and_answer() {
    assert_eq!(escape_backslashes("PCI\\VEN"), "PCI\\\\VEN");
    let q = gpu_partitioning_query("PCI\\X");
    assert!(q.contains("-like '*PCI\\\\X*'"));
    assert!(q.contains("Msvm_Physical3dGraphicsProcessor -Namespace 'root\\virtualization\\v2'"));
    assert!(partitioning_supported(&out(true, "  True\r\n", "")));
    assert!(!partitioning_supported(&out(true, "false", "")));
    assert!(!partitioning_supported(&out(false, "true", "")));
}

#[test]
fn gpu_adapter_settings_command() {
    let mut p = GpuPartitionSettings::default();
    assert_eq!(set_gpu_partition_adapter_command("vm", &p), "Set-VMGpuPartitionAdapter -VMName 'vm'");
    p.min_vram = Some(1);
    p.optimal_compute = Some(99);
    assert_eq!(
        set_gpu_partition_adapter_command("vm", &p),
        "Set-VMGpuPartitionAdapter -VMName 'vm' -MinPartitionVRAM 1 -OptimalPartitionCompute 99"
    );
}

#[test]
fn adapter_and_device_records() {
    let recs = vec![GpuPartitionAdapterRecord {
        vm_name: None,
        instance_path: Some("p".to_string()),
        min_partition_vram: Some(5),
        max_partition_vram: None,
        optimal_partition_vram: None,
        min_partition_encode: None,
        max_partition_encode: None,
        optimal_partition_encode: None,
        min_partition_decode: None,
        max_partition_decode: None,
        optimal_partition_decode: None,
        min_partition_compute: None,
        max_partition_compute: None,
        optimal_partition_compute: Some(7),
    }];
    let a = adapters_from_records(&recs);
    assert_eq!(a.len(), 1);
    assert_eq!(a[0].vm_name, "");
    assert_eq!(a[0].instance_path, Some("p".to_string()));
    assert_eq!(a[0].min_partition_vram, Some(5));
    assert_eq!(a[0].optimal_partition_compute, Some(7));

    let d = vec![DeviceRecord {
        instance_id: Some("i".to_string()),
        name: None,
        location_path: Some("l".to_string()),
        is_assigned: None,
        assigned_vm: Some("vm".to_string()),
        is_dismounted: Some(false),
        status: None,
    }];
    let host = devices_from_records(&d, false);
    assert!(!host[0].is_assigned);
    assert!(!host[0].is_dismounted);
    let vm = devices_from_records(&d, true);
    assert!(vm[0].is_assigned);
    assert!(!vm[0].is_dismounted);
    assert_eq!(vm[0].name, "");
    assert_eq!(vm[0].assigned_vm, Some("vm".to_string()));
}

#[test]
fn dda_rules_and_commands() {
    let s = DdaSupportInfo::from_checks(false, true, true);
    assert!(!s.is_supported);
    assert_eq!(s.reason, Some("DDA requires Windows Server".to_string()));
    let s = DdaSupportInfo::from_checks(true, false, true);
    assert!(!s.is_supported);
    assert_eq!(s.reason, Some("DDA requires a hardware IOMMU (Intel VT-d or AMD-Vi)".to_string()));
    let s = DdaSupportInfo::from_checks(true, true, false);
    assert!(!s.is_supported);
    assert_eq!(s.reason, Some("DDA cmdlets not available".to_string()));
    let s = DdaSupportInfo::from_checks(true, true, true);
    assert!(s.is_supported);
    assert_eq!(s.reason, None);
    let steps = move_assignable_device("a", "b", "PCIROOT(0)");
    assert_eq!(steps, vec![
        "Remove-VMAssignableDevice -VMName 'a' -LocationPath 'PCIROOT(0)'".to_string(),
        "Add-VMAssignableDevice -VMName 'b' -LocationPath 'PCIROOT(0)'".to_string(),
    ]);
    assert_eq!(
        set_vm_mmio_space_command("vm", 3072, 33),
        "Set-VM -Name 'vm' -LowMemoryMappedIoSpace 3072MB -HighMemoryMappedIoSpace 33GB"
    );
    match location_path_from_output("dev", &Ok(out(true, "  \n", ""))) {
        Err(HvError::OperationFailed(m)) => assert_eq!(m, "No PCI location path found for device: dev"),
        _ => panic!("expected an error"),
    }
    match location_path_from_output("dev", &Ok(out(false, "", "x"))) {
        Err(HvError::OperationFailed(m)) => assert_eq!(m, "Failed to get device location path"),
        _ => panic!("expected an error"),
    }
    match location_path_from_output("dev", &Ok(out(true, " PCIROOT(0)#PCI(0100) \n", ""))) {
        Ok(p) => assert_eq!(p, "PCIROOT(0)#PCI(0100)"),
        _ => panic!("expected a path"),
    }
}
