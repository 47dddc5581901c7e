use wininfra::error::{operation_failed, HvError};
use wininfra::switch::SwitchType;
use wininfra::vhd::{VhdFormat, VhdType};
use wininfra::vm::VmState;

#[test]
fn test_vm_state_from_hcs_state() {
    assert_eq!(VmState::from_hcs_state("running"), VmState::Running);
    assert_eq!(VmState::from_hcs_state("off"), VmState::Off);
    assert_eq!(VmState::from_hcs_state("stopped"), VmState::Off);
    assert_eq!(VmState::from_hcs_state("paused"), VmState::Paused);
    assert_eq!(VmState::from_hcs_state("saved"), VmState::Saved);
    assert_eq!(VmState::from_hcs_state("starting"), VmState::Starting);
    assert_eq!(VmState::from_hcs_state("stopping"), VmState::Stopping);
    assert_eq!(VmState::from_hcs_state("unknown_state"), VmState::Unknown);
}

#[test]
fn test_vm_state_helpers() {
    assert!(VmState::Running.is_running());
    assert!(!VmState::Off.is_running());

    assert!(VmState::Off.is_off());
    assert!(!VmState::Running.is_off());

    assert!(VmState::Starting.is_transitioning());
    assert!(VmState::Stopping.is_transitioning());
    assert!(VmState::Saving.is_transitioning());
    assert!(!VmState::Running.is_transitioning());
    assert!(!VmState::Off.is_transitioning());
}

#[test]
fn test_switch_type_from_u16() {
    assert_eq!(SwitchType::from(0), SwitchType::Private);
    assert_eq!(SwitchType::from(1), SwitchType::Internal);
    assert_eq!(SwitchType::from(2), SwitchType::External);
}

#[test]
fn test_vhd_type_from_u16() {
    assert_eq!(VhdType::from(2), VhdType::Fixed);
    assert_eq!(VhdType::from(3), VhdType::Dynamic);
    assert_eq!(VhdType::from(4), VhdType::Differencing);
}

#[test]
fn test_vhd_format_from_path() {
    assert_eq!(VhdFormat::from_path("test.vhd"), VhdFormat::Vhd);
    assert_eq!(VhdFormat::from_path("test.VHD"), VhdFormat::Vhd);
    assert_eq!(VhdFormat::from_path("test.vhdx"), VhdFormat::Vhdx);
    assert_eq!(VhdFormat::from_path("test.VHDX"), VhdFormat::Vhdx);
    assert_eq!(VhdFormat::from_path("C:\\VMs\\disk.vhdx"), VhdFormat::Vhdx);
}

#[test]
fn test_error_display() {
    let err = HvError::VmNotFound("TestVM".to_string());
    assert_eq!(err.to_string(), "VM not found: TestVM");

    let err = HvError::SwitchNotFound("TestSwitch".to_string());
    assert_eq!(err.to_string(), "Virtual switch not found: TestSwitch");

    let err = HvError::InvalidState("Running".to_string());
    assert_eq!(err.to_string(), "VM is in invalid state for this operation: Running");

    let err = HvError::ConnectionFailed("WMI error".to_string());
    assert_eq!(err.to_string(), "Failed to connect to Hyper-V WMI: WMI error");
}

#[test]
fn test_error_debug() {
    let err = HvError::VmNotFound("TestVM".to_string());
    let debug_str = format!("{:?}", err);
    assert!(debug_str.contains("VmNotFound"));
    assert!(debug_str.contains("TestVM"));
}

#[test]
fn hcs_state_names_ignore_case_and_aliases() {
    assert_eq!(VmState::from_hcs_state("Running"), VmState::Running);
    assert_eq!(VmState::from_hcs_state("STOPPED"), VmState::Off);
    assert_eq!(VmState::from_hcs_state("SavedState"), VmState::Saved);
    assert_eq!(VmState::from_hcs_state("Suspended"), VmState::Paused);
    assert_eq!(VmState::from_hcs_state("saving"), VmState::Saving);
    assert_eq!(VmState::from_hcs_state(""), VmState::Unknown);
    assert_eq!(VmState::Running.name(), "Running");
    assert_eq!(VmState::Resuming.name(), "Resuming");
}

#[test]
fn unknown_codes_fall_back() {
    assert_eq!(SwitchType::from(7), SwitchType::Private);
    assert_eq!(VhdType::from(0), VhdType::Dynamic);
    assert_eq!(SwitchType::Internal.as_str(), "Internal");
    assert_eq!(SwitchType::from_name("EXTERNAL"), SwitchType::External);
    assert_eq!(SwitchType::from_name("Internal"), SwitchType::Internal);
    assert_eq!(SwitchType::from_name("whatever"), SwitchType::Private);
}

#[test]
fn vhd_type_codes_round_trip() {
    for t in [VhdType::Fixed, VhdType::Dynamic, VhdType::Differencing] {
        assert_eq!(VhdType::from(t.to_api_value()), t);
    }
    assert_eq!(VhdFormat::Vhdx.extension(), ".vhdx");
    assert_eq!(VhdFormat::from_path("disk.vhdx.bak"), VhdFormat::Vhd);
}

#[test]
fn every_error_variant_has_its_message() {
    let cases = vec![
        (HvError::HcsInitFailed("a".to_string()), "Failed to initialize HCS: a"),
        (HvError::VhdNotFound("a".to_string()), "VHD not found: a"),
        (HvError::SnapshotNotFound("a".to_string()), "Snapshot not found: a"),
        (HvError::OperationFailed("a".to_string()), "Operation failed: a"),
        (HvError::InvalidParameter("a".to_string()), "Invalid parameter: a"),
        (HvError::PermissionDenied("a".to_string()), "Permission denied: a"),
        (HvError::Timeout("a".to_string()), "Timeout waiting for operation: a"),
        (HvError::HcsError("a".to_string()), "HCS error: a"),
        (HvError::WmiError("a".to_string()), "WMI error: a"),
        (HvError::JsonError("a".to_string()), "JSON serialization error: a"),
        (HvError::IoError("a".to_string()), "IO error: a"),
    ];
    for (e, m) in cases {
        assert_eq!(e.to_string(), m);
    }
    assert_eq!(
        operation_failed("Failed to add DVD drive", "boom").to_string(),
        "Operation failed: Failed to add DVD drive: boom"
    );
}

#[test]
fn disk_creation_parameters() {
    let p = wininfra::vhd::create_vhd_parameters("C:\\d.VHDX", 1 << 30, None);
    assert_eq!(p.device_id, 3);
    assert_eq!(p.maximum_size, 1 << 30);
    assert_eq!(p.block_size_in_bytes, 0);
    assert_eq!(p.sector_size_in_bytes, 512);
    assert_eq!(p.path_wide.last(), Some(&0));
    assert_eq!(p.path_wide.len(), "C:\\d.VHDX".len() + 1);
    let p = wininfra::vhd::create_vhd_parameters("old.vhd", 10, Some(4096));
    assert_eq!(p.device_id, 2);
    assert_eq!(p.block_size_in_bytes, 4096);
}
