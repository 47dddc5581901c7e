use wininfra::clus::csv::parse_guid;
use wininfra::clus::enumerate::{fetch_succeeded, probe_decision, EnumProbe};
use wininfra::clus::states::{GroupState, NodeState, ResourceState};
use wininfra::clus::ClusError;

#[test]
fn test_parse_guid() {
    let guid = parse_guid("12345678-1234-1234-1234-123456789abc").unwrap();
    assert_eq!(guid.data1, 0x12345678);
    assert_eq!(guid.data2, 0x1234);
    assert_eq!(guid.data3, 0x1234);
}

#[test]
fn test_parse_guid_with_braces() {
    let guid = parse_guid("{12345678-1234-1234-1234-123456789abc}").unwrap();
    assert_eq!(guid.data1, 0x12345678);
}

#[test]
fn parse_guid_data4_and_errors() {
    let guid = parse_guid("01234567-89ab-cdef-0123-456789abcdef").unwrap();
    assert_eq!(guid.data1, 0x01234567);
    assert_eq!(guid.data2, 0x89ab);
    assert_eq!(guid.data3, 0xcdef);
    assert_eq!(guid.data4, [0x01, 0x23, 0x45, 0x67, 0x89, 0xab, 0xcd, 0xef]);
    match parse_guid("not-a-guid") {
        Err(ClusError::OperationFailed(m)) => assert_eq!(m, "Invalid GUID format: not-a-guid"),
        other => panic!("unexpected {:?}", other.map(|g| g.data1)),
    }
    match parse_guid("zzzzzzzz-1234-1234-1234-123456789abc") {
        Err(ClusError::OperationFailed(m)) => assert_eq!(m, "Invalid GUID"),
        other => panic!("unexpected {:?}", other.map(|g| g.data1)),
    }
}

#[test]
fn integration_tests_test_error_display() {
    let err = ClusError::OpenClusterFailed("TestCluster".to_string());
    assert_eq!(err.to_string(), "Failed to open cluster: TestCluster");

    let err = ClusError::NotFound("TestResource".to_string());
    assert_eq!(err.to_string(), "Resource not found: TestResource");

    let err = ClusError::InvalidHandle;
    assert_eq!(err.to_string(), "Invalid cluster handle");

    let err = ClusError::OperationFailed("test operation".to_string());
    assert_eq!(err.to_string(), "Cluster operation failed: test operation");
}

#[test]
fn integration_tests_test_error_debug() {
    let err = ClusError::OpenClusterFailed("TestCluster".to_string());
    let debug_str = format!("{:?}", err);
    assert!(debug_str.contains("OpenClusterFailed"));
    assert!(debug_str.contains("TestCluster"));
}

#[test]
fn other_cluster_error_messages() {
    assert_eq!(
        ClusError::OpenNodeFailed("n".to_string()).to_string(),
        "Failed to open cluster node: n"
    );
    assert_eq!(
        ClusError::OpenResourceFailed("r".to_string()).to_string(),
        "Failed to open cluster resource: r"
    );
    assert_eq!(
        ClusError::OpenGroupFailed("g".to_string()).to_string(),
        "Failed to open cluster group: g"
    );
}

#[test]
fn state_codes_and_names() {
    assert_eq!(NodeState::from_code(0), NodeState::Up);
    assert_eq!(NodeState::from_code(2), NodeState::Paused);
    assert_eq!(NodeState::from_code(-1), NodeState::Unknown(u32::MAX));
    assert_eq!(NodeState::Unknown(7).name(), "Unknown(7)");
    assert_eq!(NodeState::Joining.name(), "Joining");
    assert_eq!(GroupState::from_code(0), GroupState::Online);
    assert_eq!(GroupState::PartialOnline.name(), "PartialOnline");
    assert_eq!(ResourceState::from_code(2), ResourceState::Online);
    assert_eq!(ResourceState::OfflinePending.name(), "OfflinePending");
    assert_eq!(ResourceState::Unknown(0).name(), "Unknown(0)");
}

#[test]
fn enumeration_steps() {
    assert_eq!(probe_decision(259, 0), EnumProbe::Done);
    assert_eq!(probe_decision(234, 10), EnumProbe::Fetch(11));
    assert_eq!(probe_decision(0, 0), EnumProbe::Fetch(1));
    assert!(fetch_succeeded(0));
    assert!(!fetch_succeeded(5));
}
