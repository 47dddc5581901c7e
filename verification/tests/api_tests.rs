use wininfra::api::dto::{CreateSwitchRequest, GroupDto, NodeDto, ResourceDto, SnapshotDto, VmDto, CsvDto};
use wininfra::api::requests::{
    cpu_count_choice, file_system_choice, partition_style_choice, snapshot_type_choice,
    switch_plan, vhd_type_choice, vm_generation_choice, SwitchPlan,
};
use wininfra::api::response::{
    api_error, cluster_not_supported, health, hyperv_not_supported, root_message, ApiResponse,
};
use wininfra::api::service::{
    config_path_choice, control_response, run_as_service, ControlReply, ServiceControl,
    ServiceErrorKind,
};
use wininfra::clus::states::{GroupState, NodeState, ResourceState};
use wininfra::disk::{FileSystem, PartitionStyle};
use wininfra::snapshot::SnapshotType;
use wininfra::vhd::VhdType;
use wininfra::vm::{VmGeneration, VmState};

#[test]
fn test_api_response_success() {
    let response: ApiResponse<&str> = ApiResponse::success("test");
    assert!(response.success);
    assert_eq!(response.data, Some("test"));
    assert!(response.error.is_none());
}

#[test]
fn test_api_response_error() {
    let response: ApiResponse<()> = ApiResponse::error("test error");
    assert!(!response.success);
    assert!(response.data.is_none());
    assert_eq!(response.error, Some("test error".to_string()));
}

#[test]
fn root_and_health_bodies() {
    assert_eq!(
        root_message(),
        "Windows Infrastructure Management API - Use /api/v1/cluster or /api/v1/hyperv"
    );
    let h = health();
    assert!(h.success);
    assert_eq!(h.data, Some("ok"));
}

#[test]
fn unsupported_platform_replies() {
    let c = cluster_not_supported();
    assert_eq!(c.status, 501);
    assert_eq!(c.body.error, Some("Cluster API only available on Windows".to_string()));
    let h = hyperv_not_supported();
    assert_eq!(h.status, 501);
    assert_eq!(h.body.error, Some("Hyper-V API only available on Windows".to_string()));
    let e = api_error(404, "gone");
    assert_eq!(e.status, 404);
    assert!(!e.body.success);
    let e = run_as_service().unwrap_err();
    assert_eq!(e.kind, ServiceErrorKind::Unsupported);
    assert_eq!(e.message, "Windows service is only supported on Windows");
}

#[test]
fn request_defaults() {
    assert_eq!(vm_generation_choice(None), VmGeneration::Gen2);
    assert_eq!(vm_generation_choice(Some(1)), VmGeneration::Gen1);
    assert_eq!(vm_generation_choice(Some(2)), VmGeneration::Gen2);
    assert_eq!(vm_generation_choice(Some(9)), VmGeneration::Gen2);
    assert_eq!(cpu_count_choice(None), 2);
    assert_eq!(cpu_count_choice(Some(8)), 8);
}

#[test]
fn named_kinds() {
    assert_eq!(snapshot_type_choice(&Some("Production".to_string())), SnapshotType::Production);
    assert_eq!(snapshot_type_choice(&Some("ProductionOnly".to_string())), SnapshotType::Production);
    assert_eq!(snapshot_type_choice(&Some("production".to_string())), SnapshotType::Standard);
    assert_eq!(snapshot_type_choice(&None), SnapshotType::Standard);
    assert_eq!(vhd_type_choice(&Some("Fixed".to_string())), VhdType::Fixed);
    assert_eq!(vhd_type_choice(&Some("Differencing".to_string())), VhdType::Differencing);
    assert_eq!(vhd_type_choice(&Some("fixed".to_string())), VhdType::Dynamic);
    assert_eq!(vhd_type_choice(&None), VhdType::Dynamic);
    assert_eq!(partition_style_choice(&Some("MBR".to_string())), PartitionStyle::Mbr);
    assert_eq!(partition_style_choice(&Some("Mbr".to_string())), PartitionStyle::Mbr);
    assert_eq!(partition_style_choice(&Some("mbr".to_string())), PartitionStyle::Gpt);
    assert_eq!(partition_style_choice(&None), PartitionStyle::Gpt);
    assert_eq!(file_system_choice(&Some("refs".to_string())), FileSystem::ReFs);
    assert_eq!(file_system_choice(&Some("FAT32".to_string())), FileSystem::Fat32);
    assert_eq!(file_system_choice(&Some("exfat".to_string())), FileSystem::ExFat);
    assert_eq!(file_system_choice(&Some("NTFS".to_string())), FileSystem::Ntfs);
    assert_eq!(file_system_choice(&None), FileSystem::Ntfs);
}

fn switch_request(kind: &str, adapter: Option<&str>, allow: Option<bool>) -> CreateSwitchRequest {
    CreateSwitchRequest {
        name: "sw".to_string(),
        switch_type: kind.to_string(),
        network_adapter: adapter.map(|a| a.to_string()),
        allow_management_os: allow,
    }
}

#[test]
fn switch_plans() {
    assert_eq!(
        switch_plan(&switch_request("External", Some("eth0"), None)),
        Ok(SwitchPlan::External { network_adapter: "eth0".to_string(), allow_management_os: true })
    );
    assert_eq!(
        switch_plan(&switch_request("external", Some("eth0"), Some(false))),
        Ok(SwitchPlan::External { network_adapter: "eth0".to_string(), allow_management_os: false })
    );
    assert_eq!(switch_plan(&switch_request("INTERNAL", None, None)), Ok(SwitchPlan::Internal));
    assert_eq!(switch_plan(&switch_request("Private", None, None)), Ok(SwitchPlan::Private));
    let e = switch_plan(&switch_request("external", None, None)).unwrap_err();
    assert_eq!(e.status, 400);
    assert_eq!(e.body.error, Some("network_adapter required for external switch".to_string()));
    let e = switch_plan(&switch_request("bridge", None, None)).unwrap_err();
    assert_eq!(e.status, 400);
    assert_eq!(e.body.error, Some("Invalid switch_type".to_string()));
}

#[test]
fn transfer_objects() {
    let n = NodeDto::from_node("node1", NodeState::Up);
    assert_eq!((n.name.as_str(), n.state.as_str()), ("node1", "Up"));
    let g = GroupDto::from_group("g", Some((GroupState::Online, Some("node2".to_string()))));
    assert_eq!(g.state, "Online");
    assert_eq!(g.owner_node, Some("node2".to_string()));
    let g = GroupDto::from_group("g", None);
    assert_eq!(g.state, "Unknown(0)");
    assert_eq!(g.owner_node, None);
    let r = ResourceDto::from_resource("r", Some((ResourceState::Failed, None)));
    assert_eq!(r.state, "Failed");
    let c = CsvDto::from_resource("csv", None);
    assert!(c.is_csv);
    assert_eq!(c.state, "Unknown(0)");
    let v = VmDto::from_vm("id", "vm", Some(VmState::Paused), Some(4), None);
    assert_eq!(v.state, "Paused");
    assert_eq!(v.cpu_count, Some(4));
    assert_eq!(v.uptime_seconds, None);
    let v = VmDto::from_vm("id", "vm", None, None, Some(1024));
    assert_eq!(v.state, "");
    let s = SnapshotDto::from_snapshot("s", "i", "vm", None, Some(Some("p".to_string())));
    assert_eq!(s.parent_name, Some("p".to_string()));
    let s = SnapshotDto::from_snapshot("s", "i", "vm", Some("t".to_string()), None);
    assert_eq!(s.parent_name, None);
    assert_eq!(s.creation_time, Some("t".to_string()));
}

#[test]
fn service_control() {
    assert_eq!(control_response(ServiceControl::Stop), (ControlReply::NoError, true));
    assert_eq!(control_response(ServiceControl::Interrogate), (ControlReply::NoError, false));
    assert_eq!(control_response(ServiceControl::Other), (ControlReply::NotImplemented, false));
    assert_eq!(config_path_choice(Some("C:\\svc\\config.toml".to_string()), true), "C:\\svc\\config.toml");
    assert_eq!(config_path_choice(Some("C:\\svc\\config.toml".to_string()), false), "config.toml");
    assert_eq!(config_path_choice(None, true), "config.toml");
}
