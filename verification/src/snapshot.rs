//! VM snapshots (checkpoints) and the PowerShell commands that manage them.

use vstd::prelude::*;
use crate::error::HvError;
use crate::powershell::{decode_listing, decode_outcome, optional_text, CommandOutput};
use crate::text::trim_seq;

verus! {

/// Snapshot type.
#[derive(Debug, Clone, Copy, PartialEq, Eq, Structural)]
pub enum SnapshotType {
    /// Standard snapshot with full state
    Standard,
    /// Production snapshot (application-consistent)
    Production,
    /// Production snapshot with fallback to standard
    ProductionFallback,
}

/// The PowerShell parameter value of each type.
pub open spec fn powershell_value(t: SnapshotType) -> Seq<char> {
    match t {
        SnapshotType::Standard => "Standard"@,
        SnapshotType::Production => "Production"@,
        SnapshotType::ProductionFallback => "Production"@,
    }
}

impl SnapshotType {
    /// The PowerShell parameter value.
    pub fn to_powershell_value(&self) -> (r: &'static str)
        ensures
            r@ == powershell_value(*self),
    {
        match self {
            SnapshotType::Standard => "Standard",
            SnapshotType::Production => "Production",
            SnapshotType::ProductionFallback => "Production",
        }
    }
}

/// What is known of a snapshot: its name, ID and VM.
pub struct SnapshotView {
    pub name: Seq<char>,
    pub id: Seq<char>,
    pub vm_name: Seq<char>,
}

/// A Hyper-V VM snapshot (checkpoint).
pub struct Snapshot {
    name: String,
    snapshot_id: String,
    vm_name: String,
}

impl View for Snapshot {
    type V = SnapshotView;

    closed spec fn view(&self) -> SnapshotView {
        SnapshotView { name: self.name@, id: self.snapshot_id@, vm_name: self.vm_name@ }
    }
}

impl Snapshot {
    /// A snapshot handle.
    pub fn new(name: String, snapshot_id: String, vm_name: String) -> (r: Self)
        ensures
            r@ == (SnapshotView { name: name@, id: snapshot_id@, vm_name: vm_name@ }),
    {
        Snapshot { name, snapshot_id, vm_name }
    }

    /// The snapshot name.
    pub fn name(&self) -> (r: &str)
        ensures
            r@ == self@.name,
    {
        self.name.as_str()
    }

    /// The snapshot ID.
    pub fn id(&self) -> (r: &str)
        ensures
            r@ == self@.id,
    {
        self.snapshot_id.as_str()
    }

    /// The name of the snapshot's VM.
    pub fn vm_name(&self) -> (r: &str)
        ensures
            r@ == self@.vm_name,
    {
        self.vm_name.as_str()
    }

    /// The command printing the creation time in ISO 8601 form.
    pub fn creation_time_command(&self) -> (r: String)
        ensures
            r@ == "(Get-VMSnapshot -VMName '"@ + self@.vm_name + "' -Name '"@ + self@.name
                + "').CreationTime.ToString('o')"@,
    {
        String::from_str("(Get-VMSnapshot -VMName '").concat(self.vm_name.as_str()).concat(
            "' -Name '",
        ).concat(self.name.as_str()).concat("').CreationTime.ToString('o')")
    }

    /// The command printing the parent snapshot's name.
    pub fn parent_name_command(&self) -> (r: String)
        ensures
            r@ == "(Get-VMSnapshot -VMName '"@ + self@.vm_name + "' -Name '"@ + self@.name
                + "').ParentSnapshotName"@,
    {
        String::from_str("(Get-VMSnapshot -VMName '").concat(self.vm_name.as_str()).concat(
            "' -Name '",
        ).concat(self.name.as_str()).concat("').ParentSnapshotName")
    }

    /// The command restoring this snapshot.
    pub fn apply_command(&self) -> (r: String)
        ensures
            r@ == "Restore-VMSnapshot -VMName '"@ + self@.vm_name + "' -Name '"@ + self@.name
                + "' -Confirm:$false"@,
    {
        String::from_str("Restore-VMSnapshot -VMName '").concat(self.vm_name.as_str()).concat(
            "' -Name '",
        ).concat(self.name.as_str()).concat("' -Confirm:$false")
    }

    /// The command deleting this snapshot.
    pub fn delete_command(&self) -> (r: String)
        ensures
            r@ == "Remove-VMSnapshot -VMName '"@ + self@.vm_name + "' -Name '"@ + self@.name
                + "' -Confirm:$false"@,
    {
        String::from_str("Remove-VMSnapshot -VMName '").concat(self.vm_name.as_str()).concat(
            "' -Name '",
        ).concat(self.name.as_str()).concat("' -Confirm:$false")
    }

    /// The command deleting this snapshot and all its children.
    pub fn delete_subtree_command(&self) -> (r: String)
        ensures
            r@ == "Remove-VMSnapshot -VMName '"@ + self@.vm_name + "' -Name '"@ + self@.name
                + "' -IncludeAllChildSnapshots -Confirm:$false"@,
    {
        String::from_str("Remove-VMSnapshot -VMName '").concat(self.vm_name.as_str()).concat(
            "' -Name '",
        ).concat(self.name.as_str()).concat("' -IncludeAllChildSnapshots -Confirm:$false")
    }

    /// The command renaming this snapshot.
    pub fn rename_command(&self, new_name: &str) -> (r: String)
        ensures
            r@ == "Rename-VMSnapshot -VMName '"@ + self@.vm_name + "' -Name '"@ + self@.name
                + "' -NewName '"@ + new_name@ + "'"@,
    {
        String::from_str("Rename-VMSnapshot -VMName '").concat(self.vm_name.as_str()).concat(
            "' -Name '",
        ).concat(self.name.as_str()).concat("' -NewName '").concat(new_name).concat("'")
    }

    /// Records a successful rename.
    pub fn rename(&mut self, new_name: &str)
        ensures
            final(self)@ == (SnapshotView { name: new_name@, ..old(self)@ }),
    {
        self.name = String::from_str(new_name);
    }

    /// The command exporting this snapshot to a folder.
    pub fn export_command(&self, destination_path: &str) -> (r: String)
        ensures
            r@ == "Export-VMSnapshot -VMName '"@ + self@.vm_name + "' -Name '"@ + self@.name
                + "' -Path '"@ + destination_path@ + "'"@,
    {
        String::from_str("Export-VMSnapshot -VMName '").concat(self.vm_name.as_str()).concat(
            "' -Name '",
        ).concat(self.name.as_str()).concat("' -Path '").concat(destination_path).concat("'")
    }
}

/// The result of a query whose output is the trimmed text: a failed
/// command reports its standard error as an operation failure.
pub fn command_text(out: &CommandOutput) -> (r: Result<String, HvError>)
    ensures
        !out.success ==> (r matches Err(HvError::OperationFailed(m)) && m@ == out.stderr@),
        out.success ==> (r matches Ok(t) && t@ == trim_seq(out.stdout@)),
{
    if !out.success {
        return Err(HvError::OperationFailed(out.stderr.clone()));
    }
    Ok(crate::text::trim(out.stdout.as_str()))
}

/// The parent snapshot's name from the parent query: none when the query
/// printed only whitespace; a failed query reports its standard error.
pub fn parent_name_from_output(out: &CommandOutput) -> (r: Result<Option<String>, HvError>)
    ensures
        !out.success ==> (r matches Err(HvError::OperationFailed(m)) && m@ == out.stderr@),
        out.success ==> (r matches Ok(p) && match p {
            Some(s) => s@ == trim_seq(out.stdout@) && s@.len() > 0,
            None => trim_seq(out.stdout@).len() == 0,
        }),
{
    if !out.success {
        return Err(HvError::OperationFailed(out.stderr.clone()));
    }
    Ok(optional_text(out.stdout.as_str()))
}

/// A snapshot record as `Get-VMSnapshot` reports it.
#[derive(Debug, Clone)]
pub struct SnapshotInfo {
    pub name: Option<String>,
    pub id: Option<String>,
}

/// A snapshot from a listing record: `None` without a name; the ID
/// defaults to the name.
pub fn snapshot_from_record(info: SnapshotInfo, vm_name: &str) -> (r: Option<Snapshot>)
    ensures
        match info.name {
            None => r is None,
            Some(n) => r matches Some(s) && s@ == (SnapshotView {
                name: n@,
                id: match info.id {
                    Some(i) => i@,
                    None => n@,
                },
                vm_name: vm_name@,
            }),
        },
{
    match info.name {
        None => None,
        Some(name) => {
            let id = match info.id {
                Some(i) => i,
                None => name.clone(),
            };
            Some(Snapshot::new(name, id, String::from_str(vm_name)))
        },
    }
}

/// The command listing a VM's snapshots as JSON.
pub fn list_snapshots_command(vm_name: &str) -> (r: String)
    ensures
        r@ == "Get-VMSnapshot -VMName '"@ + vm_name@
            + "' | Select-Object Name, Id | ConvertTo-Json -Compress"@,
{
    String::from_str("Get-VMSnapshot -VMName '").concat(vm_name).concat(
        "' | Select-Object Name, Id | ConvertTo-Json -Compress",
    )
}

/// The command printing one snapshot's ID as JSON.
pub fn get_snapshot_command(vm_name: &str, snapshot_name: &str) -> (r: String)
    ensures
        r@ == "Get-VMSnapshot -VMName '"@ + vm_name@ + "' -Name '"@ + snapshot_name@
            + "' | Select-Object Id | ConvertTo-Json -Compress"@,
{
    String::from_str("Get-VMSnapshot -VMName '").concat(vm_name).concat("' -Name '").concat(
        snapshot_name,
    ).concat("' | Select-Object Id | ConvertTo-Json -Compress")
}

/// The error for a snapshot that was not found: "vm/snapshot", then
/// ": detail" when there is one.
pub fn snapshot_not_found(vm_name: &str, snapshot_name: &str, detail: Option<&str>) -> (r:
    HvError)
    ensures
        r matches HvError::SnapshotNotFound(m) && m@ == vm_name@ + "/"@ + snapshot_name@
            + match detail {
            Some(d) => ": "@ + d@,
            None => Seq::<char>::empty(),
        },
{
    let msg = String::from_str(vm_name).concat("/").concat(snapshot_name);
    let msg = match detail {
        Some(d) => msg.concat(": ").concat(d),
        None => msg,
    };
    HvError::SnapshotNotFound(msg)
}

/// The snapshot found by name: the ID defaults to the snapshot name.
pub fn snapshot_from_lookup(vm_name: &str, snapshot_name: &str, id: Option<String>) -> (r:
    Snapshot)
    ensures
        r@ == (SnapshotView {
            name: snapshot_name@,
            id: match id {
                Some(i) => i@,
                None => snapshot_name@,
            },
            vm_name: vm_name@,
        }),
{
    let id = match id {
        Some(i) => i,
        None => String::from_str(snapshot_name),
    };
    Snapshot::new(String::from_str(snapshot_name), id, String::from_str(vm_name))
}

/// The `Checkpoint-VM` command creating a snapshot. Standard snapshots
/// omit the checkpoint type.
pub fn create_snapshot_command(vm_name: &str, snapshot_name: &str, snapshot_type: SnapshotType) -> (r:
    String)
    ensures
        r@ == "Checkpoint-VM -Name '"@ + vm_name@ + "' -SnapshotName '"@ + snapshot_name@ + "'"@
            + match snapshot_type {
            SnapshotType::Standard => Seq::<char>::empty(),
            SnapshotType::Production => " -CheckpointType Production"@,
            SnapshotType::ProductionFallback => " -CheckpointType Production"@,
        },
{
    let base = String::from_str("Checkpoint-VM -Name '").concat(vm_name).concat(
        "' -SnapshotName '",
    ).concat(snapshot_name).concat("'");
    match snapshot_type {
        SnapshotType::Standard => base,
        SnapshotType::Production => base.concat(" -CheckpointType Production"),
        SnapshotType::ProductionFallback => base.concat(" -CheckpointType Production"),
    }
}

/// The snapshots that listing records describe, in order: a record without
/// a name is left out; the ID defaults to the name.
pub open spec fn listed_snapshots(infos: Seq<SnapshotInfo>, vm_name: Seq<char>) -> Seq<SnapshotView>
    decreases infos.len(),
{
    if infos.len() == 0 {
        Seq::empty()
    } else {
        let rest = listed_snapshots(infos.drop_last(), vm_name);
        let info = infos.last();
        match info.name {
            None => rest,
            Some(n) => rest.push(
                SnapshotView {
                    name: n@,
                    id: match info.id {
                        Some(i) => i@,
                        None => n@,
                    },
                    vm_name,
                },
            ),
        }
    }
}

/// The snapshots of listing records, as `listed_snapshots` describes them.
pub fn snapshots_from_records(infos: &Vec<SnapshotInfo>, vm_name: &str) -> (r: Vec<Snapshot>)
    ensures
        r@.map_values(|s: Snapshot| s@) == listed_snapshots(infos@, vm_name@),
{
    let mut out: Vec<Snapshot> = Vec::new();
    let mut i: usize = 0;
    assert(infos@.subrange(0, 0) =~= Seq::<SnapshotInfo>::empty());
    assert(out@.map_values(|s: Snapshot| s@) =~= Seq::<SnapshotView>::empty());
    while i < infos.len()
        invariant
            i <= infos.len(),
            out@.map_values(|s: Snapshot| s@) == listed_snapshots(
                infos@.subrange(0, i as int),
                vm_name@,
            ),
        decreases infos.len() - i,
    {
        let info = &infos[i];
        assert(infos@.subrange(0, i + 1).drop_last() =~= infos@.subrange(0, i as int));
        let ghost before = out@.map_values(|s: Snapshot| s@);
        match &info.name {
            None => {},
            Some(n) => {
                let id = match &info.id {
                    Some(x) => x.clone(),
                    None => n.clone(),
                };
                let snap = Snapshot::new(n.clone(), id, String::from_str(vm_name));
                out.push(snap);
                assert(out@.map_values(|s: Snapshot| s@) =~= before.push(snap@));
            },
        }
        i = i + 1;
    }
    assert(infos@.subrange(0, infos.len() as int) =~= infos@);
    out
}

/// The snapshots that a VM's snapshot listing reported: a command that
/// could not be started, or that failed, is an error carrying its reason
/// or standard error; no JSON lists none; JSON that did not decode is a
/// JSON error ("Failed to parse snapshot list: <why>" for an array,
/// "Failed to parse snapshot: <why>" for a single object); otherwise the
/// snapshots of the decoded records, as `listed_snapshots` describes them.
pub fn snapshots_listing(
    run: &Result<CommandOutput, String>,
    decoded: Result<Vec<SnapshotInfo>, String>,
    vm_name: &str,
) -> (r: Result<Vec<Snapshot>, HvError>)
    ensures
        match run {
            Err(why) => r matches Err(HvError::OperationFailed(m)) && m@ == why@,
            Ok(out) => {
                &&& !out.success ==> (r matches Err(HvError::OperationFailed(m)) && m@
                    == out.stderr@)
                &&& out.success ==> match decode_outcome(
                    out.stdout@,
                    decoded,
                    "Failed to parse snapshot list"@,
                    "Failed to parse snapshot"@,
                ) {
                    Ok(infos) => r matches Ok(v) && v@.map_values(|s: Snapshot| s@)
                        == listed_snapshots(infos, vm_name@),
                    Err(m) => r matches Err(HvError::JsonError(e)) && e@ == m,
                }
            },
        },
{
    let out = match run {
        Ok(out) => out,
        Err(why) => {
            return Err(HvError::OperationFailed(why.clone()));
        },
    };
    if !out.success {
        return Err(HvError::OperationFailed(out.stderr.clone()));
    }
    match decode_listing(out.stdout.as_str(), decoded, "Failed to parse snapshot list", "Failed to parse snapshot") {
        Ok(infos) => Ok(snapshots_from_records(&infos, vm_name)),
        Err(e) => Err(e),
    }
}

} // verus!
