//! Cluster Shared Volume (CSV) states, volume information and GUID text.

use vstd::prelude::*;
use crate::clus::ClusError;
use crate::clus::states::ResourceState;
use crate::text::{
    decimal_seq, parse_hex, parse_hex_spec, push_decimal, split_char, split_pieces,
    strip_delimiters, strip_leading, strip_trailing,
};
use crate::wide::{to_wide, utf16_seq};

verus! {

/// CSV volume state.
#[derive(Debug, Clone, Copy, PartialEq, Eq, Structural)]
pub enum CsvState {
    /// Volume is online and accessible
    Online,
    /// Volume is in paused/maintenance state
    Paused,
    /// Volume is draining (transitioning)
    Draining,
    /// Volume is in redirected access mode
    Redirected,
    /// State is unknown
    Unknown(i32),
}

/// CSV fault state.
#[derive(Debug, Clone, Copy, PartialEq, Eq, Structural)]
pub enum CsvFaultState {
    /// No fault
    NoFault,
    /// Volume has faulted
    Faulted,
    /// Unknown fault state
    Unknown(i32),
}

/// CSV backup state.
#[derive(Debug, Clone, Copy, PartialEq, Eq, Structural)]
pub enum CsvBackupState {
    /// No backup in progress
    Idle,
    /// Backup is in progress
    InProgress,
    /// Unknown backup state
    Unknown(i32),
}

/// Reason for redirected I/O on a CSV.
#[derive(Debug, Clone, Copy, PartialEq, Eq, Structural)]
pub enum RedirectedIoReason {
    /// No redirection
    NotRedirected,
    /// User initiated redirection
    UserRequest,
    /// File system incompatibility
    FileSystemIncompatibility,
    /// Incompatible file system filter
    IncompatibleFileSystemFilter,
    /// Data verification needed
    DataVerification,
    /// Unknown reason
    Unknown(u64),
}

/// The reason for a raw code: 0 none, 1 user request, 2 file system
/// incompatibility, 4 incompatible filter, 8 data verification; any other
/// code is unknown and kept.
pub open spec fn redirected_io_reason_of(value: u64) -> RedirectedIoReason {
    if value == 0 {
        RedirectedIoReason::NotRedirected
    } else if value == 1 {
        RedirectedIoReason::UserRequest
    } else if value == 2 {
        RedirectedIoReason::FileSystemIncompatibility
    } else if value == 4 {
        RedirectedIoReason::IncompatibleFileSystemFilter
    } else if value == 8 {
        RedirectedIoReason::DataVerification
    } else {
        RedirectedIoReason::Unknown(value)
    }
}

impl From<u64> for RedirectedIoReason {
    fn from(value: u64) -> (r: Self) {
        if value == 0 {
            RedirectedIoReason::NotRedirected
        } else if value == 1 {
            RedirectedIoReason::UserRequest
        } else if value == 2 {
            RedirectedIoReason::FileSystemIncompatibility
        } else if value == 4 {
            RedirectedIoReason::IncompatibleFileSystemFilter
        } else if value == 8 {
            RedirectedIoReason::DataVerification
        } else {
            RedirectedIoReason::Unknown(value)
        }
    }
}

impl vstd::std_specs::convert::FromSpecImpl<u64> for RedirectedIoReason {
    open spec fn obeys_from_spec() -> bool {
        true
    }

    open spec fn from_spec(v: u64) -> Self {
        redirected_io_reason_of(v)
    }
}

/// Information about a Cluster Shared Volume.
#[derive(Debug, Clone)]
pub struct CsvInfo {
    /// Volume name (e.g., "\\?\Volume{guid}\")
    pub volume_name: String,
    /// Friendly name (e.g., "Volume1")
    pub friendly_name: String,
    /// Mount point path (e.g., "C:\ClusterStorage\Volume1")
    pub mount_point: String,
    /// Current state
    pub state: CsvState,
    /// Fault state
    pub fault_state: CsvFaultState,
    /// Backup state
    pub backup_state: CsvBackupState,
    /// Owner node name
    pub owner_node: Option<String>,
    /// Reason for redirected I/O (if any)
    pub redirected_io_reason: RedirectedIoReason,
    /// Whether the volume is in maintenance mode
    pub in_maintenance: bool,
}

/// The CSV state a resource state stands for: online is online, offline is
/// paused, either pending state is draining, anything else unknown (0).
pub open spec fn csv_state_of(state: ResourceState) -> CsvState {
    match state {
        ResourceState::Online => CsvState::Online,
        ResourceState::Offline => CsvState::Paused,
        ResourceState::OnlinePending => CsvState::Draining,
        ResourceState::OfflinePending => CsvState::Draining,
        _ => CsvState::Unknown(0),
    }
}

/// CSV snapshot state for VSS operations.
#[derive(Debug, Clone, Copy, PartialEq, Eq, Structural)]
pub enum CsvSnapshotState {
    /// Snapshot is initialized and persisted
    InitializedAndPersisted,
    /// Snapshot is deleted
    Deleted,
}

/// Cluster Shared Volume operations.
pub struct Csv;

impl Csv {
    /// The volume information reported for a CSV resource once the volume
    /// query succeeded: the resource name is the friendly name and names the
    /// mount point under `C:\ClusterStorage\`; the state follows the
    /// resource state; no fault, backup, redirection or maintenance.
    pub fn volume_info(resource_name: &str, state: ResourceState, owner: Option<String>) -> (r:
        CsvInfo)
        ensures
            r.volume_name@ == Seq::<char>::empty(),
            r.friendly_name@ == resource_name@,
            r.mount_point@ == "C:\\ClusterStorage\\"@ + resource_name@,
            r.state == csv_state_of(state),
            r.fault_state == CsvFaultState::NoFault,
            r.backup_state == CsvBackupState::Idle,
            r.owner_node == owner,
            r.redirected_io_reason == RedirectedIoReason::NotRedirected,
            !r.in_maintenance,
    {
        CsvInfo {
            volume_name: String::new(),
            friendly_name: String::from_str(resource_name),
            mount_point: String::from_str("C:\\ClusterStorage\\").concat(resource_name),
            state: match state {
                ResourceState::Online => CsvState::Online,
                ResourceState::Offline => CsvState::Paused,
                ResourceState::OnlinePending => CsvState::Draining,
                ResourceState::OfflinePending => CsvState::Draining,
                _ => CsvState::Unknown(0),
            },
            fault_state: CsvFaultState::NoFault,
            backup_state: CsvBackupState::Idle,
            owner_node: owner,
            redirected_io_reason: RedirectedIoReason::NotRedirected,
            in_maintenance: false,
        }
    }

    /// The 260-unit volume name field of a maintenance-mode request: the
    /// first 259 units of the NUL-terminated UTF-16 name, then zeros.
    pub fn maintenance_volume_name(volume_name: &str) -> (r: Vec<u16>)
        ensures
            r@.len() == 260,
            ({
                let w = utf16_seq(volume_name@).push(0);
                &&& forall|i: int| 0 <= i < 259 && i < w.len() ==> r@[i] == w[i]
                &&& forall|i: int| 0 <= i < 260 && !(i < 259 && i < w.len()) ==> r@[i] == 0
            }),
    {
        let wide = to_wide(volume_name);
        let mut out: Vec<u16> = Vec::new();
        let mut i: usize = 0;
        while i < 260
            invariant
                wide@ == utf16_seq(volume_name@).push(0),
                i <= 260,
                out@.len() == i,
                forall|j: int| 0 <= j < i && j < 259 && j < wide@.len() ==> out@[j] == wide@[j],
                forall|j: int| 0 <= j < i && !(j < 259 && j < wide@.len()) ==> out@[j] == 0,
            decreases 260 - i,
        {
            if i < 259 && i < wide.len() {
                out.push(wide[i]);
            } else {
                out.push(0);
            }
            i = i + 1;
        }
        out
    }

    /// The `CLUSTER_SHARED_VOLUME_SNAPSHOT_STATE` code of a snapshot state.
    pub fn snapshot_state_code(state: CsvSnapshotState) -> (r: i32)
        ensures
            r == match state {
                CsvSnapshotState::InitializedAndPersisted => 1i32,
                CsvSnapshotState::Deleted => 2i32,
            },
    {
        match state {
            CsvSnapshotState::InitializedAndPersisted => 1,
            CsvSnapshotState::Deleted => 2,
        }
    }

    /// The error for a failed CSV control call: "<what>: error <code>".
    pub fn control_failure(what: &str, code: u32) -> (r: ClusError)
        ensures
            r matches ClusError::OperationFailed(m) && m@ == what@ + ": error "@ + decimal_seq(
                code as nat,
            ),
    {
        let mut msg = String::from_str(what).concat(": error ");
        push_decimal(&mut msg, code as u64);
        ClusError::OperationFailed(msg)
    }
}

/// A GUID: 32-bit, two 16-bit and eight 8-bit fields.
#[derive(Debug, Clone, Copy, PartialEq, Eq)]
pub struct Guid {
    pub data1: u32,
    pub data2: u16,
    pub data3: u16,
    pub data4: [u8; 8],
}

/// The text of a GUID without its leading `{` and trailing `}` characters.
pub open spec fn guid_body(s: Seq<char>) -> Seq<char> {
    strip_trailing(strip_leading(s, '{'), '}')
}

/// The eight bytes of `data4`: the two bytes of the fourth group, then the
/// low six bytes of the fifth, most significant first.
pub open spec fn guid_data4(high: nat, low: nat) -> Seq<u8> {
    seq![
        ((high / 0x100) % 0x100) as u8,
        (high % 0x100) as u8,
        ((low / 0x10000000000) % 0x100) as u8,
        ((low / 0x100000000) % 0x100) as u8,
        ((low / 0x1000000) % 0x100) as u8,
        ((low / 0x10000) % 0x100) as u8,
        ((low / 0x100) % 0x100) as u8,
        (low % 0x100) as u8,
    ]
}

/// Whether the five groups of `body` all parse: the first as a 32-bit
/// number, the next three as 16-bit numbers, the last as a 64-bit number.
pub open spec fn guid_groups_parse(parts: Seq<Seq<char>>) -> bool {
    &&& parse_hex_spec(parts[0], 0xFFFF_FFFF) is Some
    &&& parse_hex_spec(parts[1], 0xFFFF) is Some
    &&& parse_hex_spec(parts[2], 0xFFFF) is Some
    &&& parse_hex_spec(parts[3], 0xFFFF) is Some
    &&& parse_hex_spec(parts[4], 0xFFFF_FFFF_FFFF_FFFF) is Some
}

fn invalid_guid() -> (r: ClusError)
    ensures
        r matches ClusError::OperationFailed(m) && m@ == "Invalid GUID"@,
{
    ClusError::OperationFailed(String::from_str("Invalid GUID"))
}

/// Parses GUID text "xxxxxxxx-xxxx-xxxx-xxxx-xxxxxxxxxxxx", braces
/// optional. Text that does not split into five dash-separated groups is an
/// invalid format; a group that is not a hexadecimal number of its size is
/// an invalid GUID.
pub fn parse_guid(guid_str: &str) -> (r: Result<Guid, ClusError>)
    ensures
        ({
            let parts = split_pieces(guid_body(guid_str@), '-');
            if parts.len() != 5 {
                r matches Err(ClusError::OperationFailed(m)) && m@ == "Invalid GUID format: "@
                    + guid_str@
            } else if !guid_groups_parse(parts) {
                r matches Err(ClusError::OperationFailed(m)) && m@ == "Invalid GUID"@
            } else {
                r matches Ok(g) && g.data1 as nat == parse_hex_spec(parts[0], 0xFFFF_FFFF)->0
                    && g.data2 as nat == parse_hex_spec(parts[1], 0xFFFF)->0 && g.data3 as nat
                    == parse_hex_spec(parts[2], 0xFFFF)->0 && g.data4@ == guid_data4(
                    parse_hex_spec(parts[3], 0xFFFF)->0,
                    parse_hex_spec(parts[4], 0xFFFF_FFFF_FFFF_FFFF)->0,
                )
            }
        }),
{
    let body = strip_delimiters(guid_str, '{', '}');
    let parts = split_char(body.as_str(), '-');
    let ghost pieces = parts@.map_values(|x: String| x@);
    if parts.len() != 5 {
        return Err(
            ClusError::OperationFailed(
                String::from_str("Invalid GUID format: ").concat(guid_str),
            ),
        );
    }
    assert(parts@[0]@ == pieces[0] && parts@[1]@ == pieces[1] && parts@[2]@ == pieces[2]
        && parts@[3]@ == pieces[3] && parts@[4]@ == pieces[4]);
    let data1 = match parse_hex(parts[0].as_str(), 0xFFFF_FFFF) {
        Some(v) => v as u32,
        None => return Err(invalid_guid()),
    };
    let data2 = match parse_hex(parts[1].as_str(), 0xFFFF) {
        Some(v) => v as u16,
        None => return Err(invalid_guid()),
    };
    let data3 = match parse_hex(parts[2].as_str(), 0xFFFF) {
        Some(v) => v as u16,
        None => return Err(invalid_guid()),
    };
    let high = match parse_hex(parts[3].as_str(), 0xFFFF) {
        Some(v) => v,
        None => return Err(invalid_guid()),
    };
    let low = match parse_hex(parts[4].as_str(), 0xFFFF_FFFF_FFFF_FFFF) {
        Some(v) => v,
        None => return Err(invalid_guid()),
    };
    let data4: [u8; 8] = [
        ((high / 0x100) % 0x100) as u8,
        (high % 0x100) as u8,
        ((low / 0x10000000000) % 0x100) as u8,
        ((low / 0x100000000) % 0x100) as u8,
        ((low / 0x1000000) % 0x100) as u8,
        ((low / 0x10000) % 0x100) as u8,
        ((low / 0x100) % 0x100) as u8,
        (low % 0x100) as u8,
    ];
    assert(data4@ =~= guid_data4(high as nat, low as nat));
    Ok(Guid { data1, data2, data3, data4 })
}

} // verus!
