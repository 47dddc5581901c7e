//! The Hyper-V host and its physical network adapters, as their listings
//! report them.

use vstd::prelude::*;
use crate::disk::{string_or_empty, text_or};
use crate::error::HvError;
use crate::powershell::{decode_listing, decode_outcome, CommandOutput};

verus! {

/// Hyper-V host information.
#[derive(Debug, Clone)]
pub struct HostInfo {
    pub computer_name: String,
    pub logical_processor_count: u32,
    pub memory_capacity_bytes: u64,
    pub vm_path: String,
    pub vhd_path: String,
}

/// The host as its listing prints it; every field may be missing.
#[derive(Debug, Clone)]
pub struct HostInfoRecord {
    pub computer_name: Option<String>,
    pub logical_processor_count: Option<u32>,
    pub memory_capacity: Option<u64>,
    pub virtual_machine_path: Option<String>,
    pub virtual_hard_disk_path: Option<String>,
}

/// Network adapter information.
#[derive(Debug, Clone)]
pub struct NetworkAdapterInfo {
    pub name: String,
    pub description: String,
    pub mac_address: String,
    pub link_speed: String,
}

/// An adapter as its listing prints it; every field may be missing.
#[derive(Debug, Clone)]
pub struct NetworkAdapterRecord {
    pub name: Option<String>,
    pub interface_description: Option<String>,
    pub mac_address: Option<String>,
    pub link_speed: Option<String>,
}

/// The PowerShell command that describes the host as JSON.
pub fn host_info_command() -> (r: &'static str)
    ensures
        r@ == "Get-VMHost | Select-Object ComputerName, LogicalProcessorCount, MemoryCapacity, VirtualMachinePath, VirtualHardDiskPath | ConvertTo-Json -Compress"@,
{
    "Get-VMHost | Select-Object ComputerName, LogicalProcessorCount, MemoryCapacity, VirtualMachinePath, VirtualHardDiskPath | ConvertTo-Json -Compress"
}

/// The PowerShell command that lists the adapters that are up, as JSON.
pub fn network_adapters_command() -> (r: &'static str)
    ensures
        r@ == "Get-NetAdapter | Where-Object { $_.Status -eq 'Up' } | Select-Object Name, InterfaceDescription, MacAddress, LinkSpeed | ConvertTo-Json -Compress"@,
{
    "Get-NetAdapter | Where-Object { $_.Status -eq 'Up' } | Select-Object Name, InterfaceDescription, MacAddress, LinkSpeed | ConvertTo-Json -Compress"
}

/// Whether `r` is the host that the record `h` describes: empty texts and
/// zero counts stand in for missing fields.
pub open spec fn host_of_record(h: HostInfoRecord, r: HostInfo) -> bool {
    &&& r.computer_name@ == text_or(h.computer_name, Seq::empty())
    &&& r.logical_processor_count == (match h.logical_processor_count {
        Some(n) => n,
        None => 0,
    })
    &&& r.memory_capacity_bytes == (match h.memory_capacity {
        Some(n) => n,
        None => 0,
    })
    &&& r.vm_path@ == text_or(h.virtual_machine_path, Seq::empty())
    &&& r.vhd_path@ == text_or(h.virtual_hard_disk_path, Seq::empty())
}

impl HostInfo {
    /// The host from its record: empty texts and zero counts stand in for
    /// missing fields.
    pub fn from_record(h: HostInfoRecord) -> (r: HostInfo)
        ensures
            host_of_record(h, r),
    {
        HostInfo {
            computer_name: string_or_empty(h.computer_name),
            logical_processor_count: match h.logical_processor_count {
                Some(n) => n,
                None => 0,
            },
            memory_capacity_bytes: match h.memory_capacity {
                Some(n) => n,
                None => 0,
            },
            vm_path: string_or_empty(h.virtual_machine_path),
            vhd_path: string_or_empty(h.virtual_hard_disk_path),
        }
    }
}

/// Whether `a` is the adapter that the record `r` describes, with empty
/// texts for missing fields.
pub open spec fn adapter_of_record(r: NetworkAdapterRecord, a: NetworkAdapterInfo) -> bool {
    &&& a.name@ == text_or(r.name, Seq::empty())
    &&& a.description@ == text_or(r.interface_description, Seq::empty())
    &&& a.mac_address@ == text_or(r.mac_address, Seq::empty())
    &&& a.link_speed@ == text_or(r.link_speed, Seq::empty())
}

impl NetworkAdapterInfo {
    /// The adapter from its record.
    pub fn from_record(r: &NetworkAdapterRecord) -> (a: NetworkAdapterInfo)
        ensures
            adapter_of_record(*r, a),
    {
        NetworkAdapterInfo {
            name: string_or_empty(r.name.clone()),
            description: string_or_empty(r.interface_description.clone()),
            mac_address: string_or_empty(r.mac_address.clone()),
            link_speed: string_or_empty(r.link_speed.clone()),
        }
    }
}

/// The adapters of a listing, in its order.
pub fn adapters_from_records(records: &Vec<NetworkAdapterRecord>) -> (r: Vec<NetworkAdapterInfo>)
    ensures
        r.len() == records.len(),
        forall|i: int| 0 <= i < r.len() ==> adapter_of_record(#[trigger] records[i], r[i]),
{
    let mut out: Vec<NetworkAdapterInfo> = Vec::new();
    let mut i: usize = 0;
    while i < records.len()
        invariant
            i <= records.len(),
            out.len() == i,
            forall|j: int| 0 <= j < i ==> adapter_of_record(#[trigger] records[j], out[j]),
        decreases records.len() - i,
    {
        out.push(NetworkAdapterInfo::from_record(&records[i]));
        i = i + 1;
    }
    out
}

/// The PowerShell command that imports a VM from an export (copying its
/// files when `copy`) under a new ID and prints its name.
pub fn import_vm_command(path: &str, copy: bool) -> (r: String)
    ensures
        r@ == "$vm = Import-VM -Path '"@ + path@ + "' "@ + (if copy { "-Copy"@ } else { Seq::<char>::empty() }) + " -GenerateNewId; $vm.Name"@,
{
    let copy_arg = if copy {
        "-Copy"
    } else {
        proof {
            reveal_strlit("");
        }
        ""
    };
    String::from_str("$vm = Import-VM -Path '").concat(path).concat("' ").concat(copy_arg).concat(" -GenerateNewId; $vm.Name")
}

/// The PowerShell command that exports a VM to a folder.
pub fn export_vm_command(name: &str, path: &str) -> (r: String)
    ensures
        r@ == "Export-VM -Name '"@ + name@ + "' -Path '"@ + path@ + "'"@,
{
    String::from_str("Export-VM -Name '").concat(name).concat("' -Path '").concat(path).concat("'")
}

/// The host that the host query reported: a command that could not be
/// started, or that failed, is an error carrying its reason or standard
/// error; output that did not decode is a JSON error ("Failed to parse
/// host info: <why>"); otherwise the host of the decoded record.
pub fn host_info_result(run: &Result<CommandOutput, String>, decoded: Result<HostInfoRecord, String>) -> (r:
    Result<HostInfo, HvError>)
    ensures
        match run {
            Err(why) => r matches Err(HvError::OperationFailed(m)) && m@ == why@,
            Ok(out) => {
                &&& !out.success ==> (r matches Err(HvError::OperationFailed(m)) && m@
                    == out.stderr@)
                &&& out.success ==> match decoded {
                    Ok(h) => r matches Ok(hi) && host_of_record(h, hi),
                    Err(why) => r matches Err(HvError::JsonError(m)) && m@
                        == "Failed to parse host info: "@ + why@,
                }
            },
        },
{
    let out = match run {
        Ok(out) => out,
        Err(why) => {
            return Err(HvError::OperationFailed(why.clone()));
        },
    };
    if !out.success {
        return Err(HvError::OperationFailed(out.stderr.clone()));
    }
    match decoded {
        Ok(h) => Ok(HostInfo::from_record(h)),
        Err(why) => Err(
            HvError::JsonError(String::from_str("Failed to parse host info: ").concat(why.as_str())),
        ),
    }
}

/// The adapters that the adapter listing reported: a command that could
/// not be started is an error carrying its reason; a failed command and no
/// JSON list none; JSON that did not decode is a JSON error ("Failed to
/// parse adapters: <why>" for an array, "Failed to parse adapter: <why>"
/// for a single object); otherwise the decoded records, in order.
pub fn network_adapters_listing(
    run: &Result<CommandOutput, String>,
    decoded: Result<Vec<NetworkAdapterRecord>, String>,
) -> (r: Result<Vec<NetworkAdapterInfo>, HvError>)
    ensures
        match run {
            Err(why) => r matches Err(HvError::OperationFailed(m)) && m@ == why@,
            Ok(out) => {
                &&& !out.success ==> (r matches Ok(v) && v.len() == 0)
                &&& out.success ==> match decode_outcome(
                    out.stdout@,
                    decoded,
                    "Failed to parse adapters"@,
                    "Failed to parse adapter"@,
                ) {
                    Ok(rs) => r matches Ok(v) && v.len() == rs.len() && forall|i: int|
                        0 <= i < v.len() ==> adapter_of_record(#[trigger] rs[i], v[i]),
                    Err(m) => r matches Err(HvError::JsonError(e)) && e@ == m,
                }
            },
        },
{
    let out = match run {
        Ok(out) => out,
        Err(why) => {
            return Err(HvError::OperationFailed(why.clone()));
        },
    };
    if !out.success {
        return Ok(Vec::new());
    }
    match decode_listing(out.stdout.as_str(), decoded, "Failed to parse adapters", "Failed to parse adapter") {
        Ok(rs) => Ok(adapters_from_records(&rs)),
        Err(e) => Err(e),
    }
}

} // verus!
