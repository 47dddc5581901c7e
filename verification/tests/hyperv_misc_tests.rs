use wininfra::error::HvError;
use wininfra::hcs::enumeration_query;
use wininfra::host::{adapters_from_records, HostInfo, HostInfoRecord, NetworkAdapterRecord};
use wininfra::powershell::{
    action_result, classify_json_output, listing_json, listing_json_or_empty, nonblank_lines,
    optional_text, CommandOutput, JsonOutput,
};
use wininfra::snapshot::{
    create_snapshot_command, parent_name_from_output, snapshot_from_lookup, snapshot_not_found,
    Snapshot, SnapshotType,
};
use wininfra::switch::{
    allows_management_os, check_new_switch, new_external_switch_command, new_switch_command,
    SwitchInfo, SwitchType, VirtualSwitch,
};
use wininfra::vm::{Vm, VmCommand, VmState};
use wininfra::wmi::hyperv::{
    job_failure, job_progress, method_failure, method_outcome, EnabledState, JobProgress,
    MethodOutcome,
};
use wininfra::wmi::msvm::{generation_from_subtype, MsvmVm};
use wininfra::wmi::operations::{escape_wql, vm_by_name_query};

fn out(success: bool, stdout: &str, stderr: &str) -> CommandOutput {
    CommandOutput { success, stdout: stdout.to_string(), stderr: stderr.to_string() }
}

fn msvm(state: EnabledState) -> MsvmVm {
    MsvmVm {
        name: "vm1".to_string(),
        id: "guid".to_string(),
        enabled_state: state,
        health_state: 5,
        processor_count: Some(2),
        memory_mb: Some(2048),
        generation: Some(2),
        creation_time: None,
        notes: None,
        path: "p".to_string(),
    }
}

#[test]
fn json_output_kinds() {
    assert_eq!(classify_json_output("  "), JsonOutput::Empty);
    assert_eq!(classify_json_output("null\n"), JsonOutput::Empty);
    assert_eq!(classify_json_output(" [1,2] "), JsonOutput::Array("[1,2]".to_string()));
    assert_eq!(classify_json_output("{\"a\":1}"), JsonOutput::Single("{\"a\":1}".to_string()));
    assert_eq!(optional_text(" x \n"), Some("x".to_string()));
    assert_eq!(optional_text(" \n"), None);
    assert_eq!(nonblank_lines("a\n\n  b \r\n"), vec!["a", "b"]);
}

#[test]
fn command_outcomes() {
    assert!(action_result(&out(true, "", ""), "ctx").is_ok());
    match action_result(&out(false, "", "denied"), "Failed to add DVD drive") {
        Err(HvError::OperationFailed(m)) => assert_eq!(m, "Failed to add DVD drive: denied"),
        _ => panic!("expected failure"),
    }
    match listing_json(&out(false, "", "boom"), "Failed to get DVD drives") {
        Err(HvError::OperationFailed(m)) => assert_eq!(m, "Failed to get DVD drives: boom"),
        _ => panic!("expected failure"),
    }
    match listing_json(&out(true, "[]", ""), "x") {
        Ok(JsonOutput::Array(a)) => assert_eq!(a, "[]"),
        _ => panic!("expected an array"),
    }
    assert_eq!(listing_json_or_empty(&out(false, "[1]", "")), JsonOutput::Empty);
}

#[test]
fn host_records() {
    let h = HostInfo::from_record(HostInfoRecord {
        computer_name: Some("HV1".to_string()),
        logical_processor_count: None,
        memory_capacity: Some(64),
        virtual_machine_path: None,
        virtual_hard_disk_path: Some("D:\\vhd".to_string()),
    });
    assert_eq!(h.computer_name, "HV1");
    assert_eq!(h.logical_processor_count, 0);
    assert_eq!(h.memory_capacity_bytes, 64);
    assert_eq!(h.vm_path, "");
    assert_eq!(h.vhd_path, "D:\\vhd");
    let a = adapters_from_records(&vec![NetworkAdapterRecord {
        name: Some("Ethernet".to_string()),
        interface_description: None,
        mac_address: Some("00-11".to_string()),
        link_speed: None,
    }]);
    assert_eq!(a[0].name, "Ethernet");
    assert_eq!(a[0].description, "");
    assert_eq!(a[0].mac_address, "00-11");
}

#[test]
fn snapshots() {
    let mut s = Snapshot::new("s1".to_string(), "id1".to_string(), "vm".to_string());
    assert_eq!(s.apply_command(), "Restore-VMSnapshot -VMName 'vm' -Name 's1' -Confirm:$false");
    s.rename("s2");
    assert_eq!(s.name(), "s2");
    assert_eq!(s.id(), "id1");
    assert_eq!(
        create_snapshot_command("vm", "cp", SnapshotType::ProductionFallback),
        "Checkpoint-VM -Name 'vm' -SnapshotName 'cp' -CheckpointType Production"
    );
    assert_eq!(SnapshotType::ProductionFallback.to_powershell_value(), "Production");
    assert_eq!(SnapshotType::Standard.to_powershell_value(), "Standard");
    assert_eq!(create_snapshot_command("vm", "cp", SnapshotType::Standard), "Checkpoint-VM -Name 'vm' -SnapshotName 'cp'");
    match snapshot_not_found("vm", "cp", Some("gone")) {
        HvError::SnapshotNotFound(m) => assert_eq!(m, "vm/cp: gone"),
        _ => panic!("wrong variant"),
    }
    assert_eq!(snapshot_from_lookup("vm", "cp", None).id(), "cp");
    match parent_name_from_output(&out(true, "  \n", "")) {
        Ok(None) => {}
        _ => panic!("expected no parent"),
    }
    match parent_name_from_output(&out(true, " base \n", "")) {
        Ok(Some(p)) => assert_eq!(p, "base"),
        _ => panic!("expected a parent"),
    }
}

#[test]
fn switches() {
    let info = SwitchInfo {
        id: Some("sid".to_string()),
        name: None,
        switch_type: Some("EXTERNAL".to_string()),
        allow_management_o_s: None,
        net_adapter_interface_description: None,
    };
    let sw = VirtualSwitch::from_record(info).unwrap();
    assert_eq!(sw.name(), "sid");
    assert_eq!(sw.cached_switch_type(), Some(SwitchType::External));
    let none = VirtualSwitch::from_lookup(
        "lan",
        SwitchInfo { id: None, name: None, switch_type: None, allow_management_o_s: None, net_adapter_interface_description: None },
    );
    match none {
        Err(HvError::SwitchNotFound(m)) => assert_eq!(m, "lan"),
        _ => panic!("expected not found"),
    }
    assert!(allows_management_os(&Ok(out(true, "True\r\n", ""))).unwrap());
    assert!(!allows_management_os(&Ok(out(false, "True", ""))).unwrap());
    assert!(check_new_switch(SwitchType::External).is_err());
    assert!(check_new_switch(SwitchType::Private).is_ok());
    assert_eq!(
        new_switch_command("lan", SwitchType::Internal),
        "New-VMSwitch -Name 'lan' -SwitchType Internal | Select-Object Id | ConvertTo-Json -Compress"
    );
    assert_eq!(
        new_external_switch_command("wan", "Ethernet 2", false),
        "New-VMSwitch -Name 'wan' -NetAdapterName 'Ethernet 2' -AllowManagementOS $false | Select-Object Id | ConvertTo-Json -Compress"
    );
}

#[test]
fn vm_lifecycle_decisions() {
    let mut vm = Vm::from_wmi(&msvm(EnabledState::Disabled));
    assert_eq!(vm.cached_state(), VmState::Off);
    assert_eq!(vm.start(EnabledState::Disabled).unwrap(), Some(VmCommand::Start));
    assert_eq!(vm.start(EnabledState::Enabled).unwrap(), None);
    assert_eq!(vm.cached_state(), VmState::Running);
    match vm.start(EnabledState::Starting) {
        Err(HvError::InvalidState(m)) => {
            assert_eq!(m, "VM must be Off, Saved, or Paused to start (current: Starting)")
        }
        _ => panic!("expected a refusal"),
    }
    assert_eq!(vm.stop(EnabledState::Disabled), None);
    assert_eq!(vm.stop(EnabledState::Enabled), Some(VmCommand::Shutdown));
    assert_eq!(vm.force_stop(), VmCommand::TurnOff);
    assert_eq!(vm.pause(EnabledState::Enabled).unwrap(), Some(VmCommand::Pause));
    assert_eq!(vm.pause(EnabledState::Paused).unwrap(), None);
    assert!(vm.pause(EnabledState::Disabled).is_err());
    assert_eq!(vm.resume(EnabledState::Suspended).unwrap(), Some(VmCommand::Resume));
    assert_eq!(vm.name(), "vm1");
    assert_eq!(vm.id(), "guid");
}

#[test]
fn wmi_jobs_and_queries() {
    assert_eq!(job_progress(7), JobProgress::Completed);
    assert_eq!(job_progress(10), JobProgress::Failed);
    assert_eq!(job_progress(4), JobProgress::Wait);
    match job_failure(32768, None) {
        HvError::WmiError(m) => assert_eq!(m, "Job failed (code 32768): Unknown error"),
        _ => panic!("wrong variant"),
    }
    assert_eq!(method_outcome(0), MethodOutcome::Done);
    assert_eq!(method_outcome(4096), MethodOutcome::WaitForJob);
    assert_eq!(method_outcome(32775), MethodOutcome::Failed(32775));
    match method_failure(5) {
        HvError::WmiError(m) => assert_eq!(m, "Operation failed with code 5"),
        _ => panic!("wrong variant"),
    }
    assert_eq!(escape_wql("O'Brien\\x"), "O\\'Brien\\\\x");
    assert_eq!(
        vm_by_name_query("a'b"),
        "SELECT * FROM Msvm_ComputerSystem WHERE Caption = 'Virtual Machine' AND ElementName = 'a\\'b'"
    );
    assert_eq!(generation_from_subtype(Some(2)), Some(2));
    assert_eq!(generation_from_subtype(Some(7)), Some(1));
    assert_eq!(generation_from_subtype(None), None);
    assert_eq!(enumeration_query(None), "{\"Owners\": null}");
    assert_eq!(enumeration_query(Some("q")), "q");
    assert_eq!(EnabledState::from(32768u32), EnabledState::Paused);
}
