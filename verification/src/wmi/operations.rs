//! WQL query text and resource identifiers for Hyper-V WMI operations.

use vstd::prelude::*;
use crate::error::HvError;
use crate::text::{chars_of, push_char, str_eq};
use crate::wmi::msvm::{MsvmMemorySettings, MsvmProcessorSettings, MsvmVm, MsvmVmSettings};

verus! {

/// VHD type for creation through `Msvm_ImageManagementService`.
#[derive(Debug, Clone, Copy, PartialEq, Eq, Structural)]
pub enum VhdType {
    /// Fixed size VHD - allocates all space upfront
    Fixed,
    /// Dynamic VHD - grows as needed (default)
    Dynamic,
    /// Differencing VHD - based on a parent VHD
    Differencing,
}

impl VhdType {
    /// The `Type` code written into `Msvm_VirtualHardDiskSettingData`.
    pub fn value(&self) -> (r: u16)
        ensures
            r == match *self {
                VhdType::Fixed => 2u16,
                VhdType::Dynamic => 3u16,
                VhdType::Differencing => 4u16,
            },
    {
        match self {
            VhdType::Fixed => 2,
            VhdType::Dynamic => 3,
            VhdType::Differencing => 4,
        }
    }
}

/// VHD format for creation through `Msvm_ImageManagementService`.
#[derive(Debug, Clone, Copy, PartialEq, Eq, Structural)]
pub enum VhdFormat {
    /// Legacy VHD format
    Vhd,
    /// Modern VHDX format (default, recommended)
    Vhdx,
}

impl VhdFormat {
    /// The `Format` code written into `Msvm_VirtualHardDiskSettingData`.
    pub fn value(&self) -> (r: u16)
        ensures
            r == match *self {
                VhdFormat::Vhd => 2u16,
                VhdFormat::Vhdx => 3u16,
            },
    {
        match self {
            VhdFormat::Vhd => 2,
            VhdFormat::Vhdx => 3,
        }
    }
}

/// Resource subtype identifiers for Hyper-V.
#[derive(Debug, Clone, Copy, PartialEq, Eq, Structural)]
pub enum ResourceSubtype {
    /// SCSI Controller
    ScsiController,
    /// Synthetic Disk Drive (attachment point on SCSI controller)
    SyntheticDiskDrive,
    /// Virtual Hard Disk (the actual VHD/VHDX)
    VirtualHardDisk,
    /// DVD Drive
    DvdDrive,
    /// Virtual CD/DVD Disk
    VirtualDvdDisk,
}

/// The WMI `ResourceSubType` string of each subtype.
pub open spec fn resource_subtype_name(s: ResourceSubtype) -> Seq<char> {
    match s {
        ResourceSubtype::ScsiController => "Microsoft:Hyper-V:Synthetic SCSI Controller"@,
        ResourceSubtype::SyntheticDiskDrive => "Microsoft:Hyper-V:Synthetic Disk Drive"@,
        ResourceSubtype::VirtualHardDisk => "Microsoft:Hyper-V:Virtual Hard Disk"@,
        ResourceSubtype::DvdDrive => "Microsoft:Hyper-V:Synthetic DVD Drive"@,
        ResourceSubtype::VirtualDvdDisk => "Microsoft:Hyper-V:Virtual CD/DVD Disk"@,
    }
}

impl ResourceSubtype {
    /// The WMI resource subtype string.
    pub fn as_str(&self) -> (r: &'static str)
        ensures
            r@ == resource_subtype_name(*self),
    {
        match self {
            ResourceSubtype::ScsiController => "Microsoft:Hyper-V:Synthetic SCSI Controller",
            ResourceSubtype::SyntheticDiskDrive => "Microsoft:Hyper-V:Synthetic Disk Drive",
            ResourceSubtype::VirtualHardDisk => "Microsoft:Hyper-V:Virtual Hard Disk",
            ResourceSubtype::DvdDrive => "Microsoft:Hyper-V:Synthetic DVD Drive",
            ResourceSubtype::VirtualDvdDisk => "Microsoft:Hyper-V:Virtual CD/DVD Disk",
        }
    }

    /// The resource type number.
    pub fn resource_type(&self) -> (r: u16)
        ensures
            r == match *self {
                ResourceSubtype::ScsiController => 6u16,
                ResourceSubtype::SyntheticDiskDrive => 17u16,
                ResourceSubtype::VirtualHardDisk => 31u16,
                ResourceSubtype::DvdDrive => 16u16,
                ResourceSubtype::VirtualDvdDisk => 21u16,
            },
    {
        match self {
            ResourceSubtype::ScsiController => 6,
            ResourceSubtype::SyntheticDiskDrive => 17,
            ResourceSubtype::VirtualHardDisk => 31,
            ResourceSubtype::DvdDrive => 16,
            ResourceSubtype::VirtualDvdDisk => 21,
        }
    }
}

/// The escaped form of one character: a backslash before `\` and `'`.
pub open spec fn escape_wql_char(c: char) -> Seq<char> {
    if c == '\\' {
        seq!['\\', '\\']
    } else if c == '\'' {
        seq!['\\', '\'']
    } else {
        seq![c]
    }
}

/// `s` escaped for use inside a single-quoted WQL string literal.
pub open spec fn escape_wql_seq(s: Seq<char>) -> Seq<char>
    decreases s.len(),
{
    if s.len() == 0 {
        Seq::empty()
    } else {
        escape_wql_char(s[0]) + escape_wql_seq(s.drop_first())
    }
}

/// Removes the escaping: a backslash keeps only the character after it.
pub open spec fn unescape_wql_seq(s: Seq<char>) -> Seq<char>
    decreases s.len(),
{
    if s.len() >= 2 && s[0] == '\\' {
        seq![s[1]] + unescape_wql_seq(s.skip(2))
    } else if s.len() > 0 {
        seq![s[0]] + unescape_wql_seq(s.drop_first())
    } else {
        Seq::empty()
    }
}

proof fn lemma_escape_wql_append(s: Seq<char>, c: char)
    ensures
        escape_wql_seq(s.push(c)) == escape_wql_seq(s) + escape_wql_char(c),
    decreases s.len(),
{
    if s.len() == 0 {
        assert(s.push(c).drop_first() =~= Seq::<char>::empty());
        assert(escape_wql_seq(Seq::<char>::empty()) =~= Seq::<char>::empty());
        assert(escape_wql_seq(s.push(c)) =~= escape_wql_char(c));
    } else {
        assert(s.push(c).drop_first() =~= s.drop_first().push(c));
        lemma_escape_wql_append(s.drop_first(), c);
        assert(escape_wql_seq(s.push(c)) =~= escape_wql_seq(s) + escape_wql_char(c));
    }
}

/// Undoing the escaping gives back the text that was escaped.
pub proof fn lemma_unescape_escape_wql(s: Seq<char>)
    ensures
        unescape_wql_seq(escape_wql_seq(s)) == s,
    decreases s.len(),
{
    if s.len() > 0 {
        let e = escape_wql_seq(s);
        let rest = escape_wql_seq(s.drop_first());
        lemma_unescape_escape_wql(s.drop_first());
        if s[0] == '\\' || s[0] == '\'' {
            assert(e.skip(2) =~= rest);
        } else {
            assert(e.drop_first() =~= rest);
        }
        assert(s =~= seq![s[0]] + s.drop_first());
    }
}

/// Escapes `s` for use inside a single-quoted WQL string literal: each `\`
/// becomes `\\` and each `'` becomes `\'`.
pub fn escape_wql(s: &str) -> (r: String)
    ensures
        r@ == escape_wql_seq(s@),
{
    let cs = chars_of(s);
    let mut out = String::new();
    let mut i: usize = 0;
    assert(s@.subrange(0, 0) =~= Seq::<char>::empty());
    while i < cs.len()
        invariant
            cs@ == s@,
            i <= cs@.len(),
            out@ == escape_wql_seq(s@.subrange(0, i as int)),
        decreases cs@.len() - i,
    {
        let c = cs[i];
        if c == '\\' {
            push_char(&mut out, '\\');
            push_char(&mut out, '\\');
        } else if c == '\'' {
            push_char(&mut out, '\\');
            push_char(&mut out, '\'');
        } else {
            push_char(&mut out, c);
        }
        proof {
            lemma_escape_wql_append(s@.subrange(0, i as int), c);
            assert(s@.subrange(0, i as int).push(c) =~= s@.subrange(0, i + 1));
        }
        i = i + 1;
        assert(out@ =~= escape_wql_seq(s@.subrange(0, i as int)));
    }
    assert(s@.subrange(0, i as int) =~= s@);
    out
}

/// The query for a VM by its display name.
pub fn vm_by_name_query(name: &str) -> (r: String)
    ensures
        r@ == "SELECT * FROM Msvm_ComputerSystem WHERE Caption = 'Virtual Machine' AND ElementName = '"@
            + escape_wql_seq(name@) + "'"@,
{
    let escaped = escape_wql(name);
    String::from_str(
        "SELECT * FROM Msvm_ComputerSystem WHERE Caption = 'Virtual Machine' AND ElementName = '",
    ).concat(escaped.as_str()).concat("'")
}

/// The query for a VM by its GUID.
pub fn vm_by_id_query(id: &str) -> (r: String)
    ensures
        r@ == "SELECT * FROM Msvm_ComputerSystem WHERE Name = '"@ + escape_wql_seq(id@) + "'"@,
{
    let escaped = escape_wql(id);
    String::from_str("SELECT * FROM Msvm_ComputerSystem WHERE Name = '").concat(
        escaped.as_str(),
    ).concat("'")
}

/// The query for a VM's realized settings.
pub fn vm_settings_query(vm_id: &str) -> (r: String)
    ensures
        r@ == "SELECT * FROM Msvm_VirtualSystemSettingData WHERE VirtualSystemIdentifier = '"@
            + escape_wql_seq(vm_id@)
            + "' AND VirtualSystemType = 'Microsoft:Hyper-V:System:Realized'"@,
{
    let escaped = escape_wql(vm_id);
    String::from_str(
        "SELECT * FROM Msvm_VirtualSystemSettingData WHERE VirtualSystemIdentifier = '",
    ).concat(escaped.as_str()).concat(
        "' AND VirtualSystemType = 'Microsoft:Hyper-V:System:Realized'",
    )
}

/// The query for a VM's snapshots.
pub fn snapshots_query(vm_id: &str) -> (r: String)
    ensures
        r@ == "SELECT * FROM Msvm_VirtualSystemSettingData WHERE VirtualSystemIdentifier = '"@
            + escape_wql_seq(vm_id@) + "' AND VirtualSystemType LIKE '%Snapshot%'"@,
{
    let escaped = escape_wql(vm_id);
    String::from_str(
        "SELECT * FROM Msvm_VirtualSystemSettingData WHERE VirtualSystemIdentifier = '",
    ).concat(escaped.as_str()).concat("' AND VirtualSystemType LIKE '%Snapshot%'")
}

/// The query for a virtual switch by name.
pub fn switch_by_name_query(name: &str) -> (r: String)
    ensures
        r@ == "SELECT * FROM Msvm_VirtualEthernetSwitch WHERE ElementName = '"@ + escape_wql_seq(
            name@,
        ) + "'"@,
{
    let escaped = escape_wql(name);
    String::from_str("SELECT * FROM Msvm_VirtualEthernetSwitch WHERE ElementName = '").concat(
        escaped.as_str(),
    ).concat("'")
}

/// The query for the objects associated with `object_path` through
/// `assoc_class` that belong to `result_class`.
pub fn associators_query(object_path: &str, assoc_class: &str, result_class: &str) -> (r: String)
    ensures
        r@ == "ASSOCIATORS OF {"@ + object_path@ + "} WHERE AssocClass = "@ + assoc_class@
            + " ResultClass = "@ + result_class@,
{
    String::from_str("ASSOCIATORS OF {").concat(object_path).concat(
        "} WHERE AssocClass = ",
    ).concat(assoc_class).concat(" ResultClass = ").concat(result_class)
}

/// The query for the primordial resource pool of a subtype.
pub fn resource_pool_query(subtype: ResourceSubtype) -> (r: String)
    ensures
        r@ == "SELECT * FROM Msvm_ResourcePool WHERE ResourceSubType = '"@
            + resource_subtype_name(subtype) + "' AND Primordial = TRUE"@,
{
    String::from_str("SELECT * FROM Msvm_ResourcePool WHERE ResourceSubType = '").concat(
        subtype.as_str(),
    ).concat("' AND Primordial = TRUE")
}

/// A VM found by name, with what its settings queries returned merged in:
/// the generation from its system settings, the memory from its memory
/// settings and the processor count from its processor settings, each
/// only when that query succeeded.
pub open spec fn vm_with_settings(
    vm: MsvmVm,
    settings: Option<MsvmVmSettings>,
    memory: Option<MsvmMemorySettings>,
    processor: Option<MsvmProcessorSettings>,
) -> MsvmVm {
    MsvmVm {
        generation: match settings {
            Some(s) => s.generation,
            None => vm.generation,
        },
        memory_mb: match memory {
            Some(m) => Some(m.virtual_quantity_mb),
            None => vm.memory_mb,
        },
        processor_count: match processor {
            Some(p) => Some(p.virtual_quantity),
            None => vm.processor_count,
        },
        ..vm
    }
}

/// The result of looking a VM up by `name`: not found when the query
/// returned no VM; else the VM with its settings merged in.
pub fn vm_by_name_result(
    name: &str,
    found: Option<MsvmVm>,
    settings: Option<MsvmVmSettings>,
    memory: Option<MsvmMemorySettings>,
    processor: Option<MsvmProcessorSettings>,
) -> (r: Result<MsvmVm, HvError>)
    ensures
        match found {
            None => r matches Err(HvError::VmNotFound(m)) && m@ == name@,
            Some(vm) => r == Ok::<MsvmVm, HvError>(
                vm_with_settings(vm, settings, memory, processor),
            ),
        },
{
    match found {
        None => Err(HvError::VmNotFound(String::from_str(name))),
        Some(vm) => {
            let mut vm = vm;
            if let Some(s) = settings {
                vm.generation = s.generation;
            }
            if let Some(m) = memory {
                vm.memory_mb = Some(m.virtual_quantity_mb);
            }
            if let Some(p) = processor {
                vm.processor_count = Some(p.virtual_quantity);
            }
            Ok(vm)
        },
    }
}

/// The result of looking a VM up by its GUID `id`: not found when the
/// query returned no VM.
pub fn vm_by_id_result(id: &str, found: Option<MsvmVm>) -> (r: Result<MsvmVm, HvError>)
    ensures
        match found {
            None => r matches Err(HvError::VmNotFound(m)) && m@ == id@,
            Some(vm) => r == Ok::<MsvmVm, HvError>(vm),
        },
{
    match found {
        None => Err(HvError::VmNotFound(String::from_str(id))),
        Some(vm) => Ok(vm),
    }
}

/// The result of a VM's settings query: an error when it found nothing.
pub fn vm_settings_result(found: Option<MsvmVmSettings>) -> (r: Result<MsvmVmSettings, HvError>)
    ensures
        match found {
            None => r matches Err(HvError::WmiError(m)) && m@ == "VM settings not found"@,
            Some(s) => r == Ok::<MsvmVmSettings, HvError>(s),
        },
{
    match found {
        None => Err(HvError::WmiError(String::from_str("VM settings not found"))),
        Some(s) => Ok(s),
    }
}

/// The result of a VM's memory settings query: an error when it found
/// nothing.
pub fn memory_settings_result(found: Option<MsvmMemorySettings>) -> (r: Result<
    MsvmMemorySettings,
    HvError,
>)
    ensures
        match found {
            None => r matches Err(HvError::WmiError(m)) && m@ == "Memory settings not found"@,
            Some(s) => r == Ok::<MsvmMemorySettings, HvError>(s),
        },
{
    match found {
        None => Err(HvError::WmiError(String::from_str("Memory settings not found"))),
        Some(s) => Ok(s),
    }
}

/// The result of a VM's processor settings query: an error when it found
/// nothing.
pub fn processor_settings_result(found: Option<MsvmProcessorSettings>) -> (r: Result<
    MsvmProcessorSettings,
    HvError,
>)
    ensures
        match found {
            None => r matches Err(HvError::WmiError(m)) && m@ == "Processor settings not found"@,
            Some(s) => r == Ok::<MsvmProcessorSettings, HvError>(s),
        },
{
    match found {
        None => Err(HvError::WmiError(String::from_str("Processor settings not found"))),
        Some(s) => Ok(s),
    }
}

/// A resource allocation setting of a VM, as its settings' associators
/// query returns it: its resource type (6 a SCSI controller, 16 a DVD
/// drive, 17 a disk drive) and parent when it has them, and its object
/// path.
#[derive(Debug, Clone)]
pub struct ResourceSetting {
    pub resource_type: Option<u32>,
    pub parent: Option<String>,
    pub path: String,
}

/// Whether a setting has resource type `resource_type` and, when `parent`
/// is given, that parent.
pub open spec fn setting_matches(s: ResourceSetting, resource_type: u32, parent: Option<Seq<char>>) -> bool {
    &&& s.resource_type == Some(resource_type)
    &&& match parent {
        None => true,
        Some(q) => s.parent matches Some(p) && p@ == q,
    }
}

/// The path of the first setting, in query order, that matches
/// `resource_type` and `parent`; none when no setting does.
pub open spec fn first_setting(rs: Seq<ResourceSetting>, resource_type: u32, parent: Option<Seq<char>>) -> Option<Seq<char>>
    decreases rs.len(),
{
    if rs.len() == 0 {
        None
    } else if setting_matches(rs[0], resource_type, parent) {
        Some(rs[0].path@)
    } else {
        first_setting(rs.drop_first(), resource_type, parent)
    }
}

/// The path of the first setting that matches, as `first_setting`
/// describes it.
fn first_setting_path(rs: &Vec<ResourceSetting>, resource_type: u32, parent: Option<&str>) -> (r: Option<String>)
    ensures
        match r {
            Some(p) => first_setting(rs@, resource_type, match parent {
                Some(q) => Some(q@),
                None => None,
            }) == Some(p@),
            None => first_setting(rs@, resource_type, match parent {
                Some(q) => Some(q@),
                None => None,
            }) is None,
        },
{
    let ghost pv: Option<Seq<char>> = match parent {
        Some(q) => Some(q@),
        None => None,
    };
    let mut i: usize = 0;
    assert(rs@.subrange(0, rs@.len() as int) =~= rs@);
    while i < rs.len()
        invariant
            i <= rs.len(),
            pv == match parent {
                Some(q) => Some(q@),
                None => None::<Seq<char>>,
            },
            first_setting(rs@, resource_type, pv) == first_setting(
                rs@.subrange(i as int, rs@.len() as int),
                resource_type,
                pv,
            ),
        decreases rs.len() - i,
    {
        let s = &rs[i];
        let ghost rest = rs@.subrange(i as int, rs@.len() as int);
        assert(rest[0] == rs@[i as int]);
        let type_ok = match s.resource_type {
            Some(t) => t == resource_type,
            None => false,
        };
        let parent_ok = match parent {
            None => true,
            Some(q) => match &s.parent {
                Some(p) => str_eq(p.as_str(), q),
                None => false,
            },
        };
        assert(setting_matches(rest[0], resource_type, pv) == (type_ok && parent_ok));
        if type_ok && parent_ok {
            return Some(s.path.clone());
        }
        assert(rest.drop_first() =~= rs@.subrange(i + 1, rs@.len() as int));
        i = i + 1;
    }
    None
}

/// The VM's SCSI controller: the first setting of resource type 6.
pub fn scsi_controller_path(rs: &Vec<ResourceSetting>) -> (r: Option<String>)
    ensures
        match r {
            Some(p) => first_setting(rs@, 6, None) == Some(p@),
            None => first_setting(rs@, 6, None) is None,
        },
{
    first_setting_path(rs, 6, None)
}

/// The disk drive attached to the SCSI controller at `scsi`: the first
/// setting of resource type 17 whose parent is `scsi`.
pub fn attached_disk_path(rs: &Vec<ResourceSetting>, scsi: &str) -> (r: Option<String>)
    ensures
        match r {
            Some(p) => first_setting(rs@, 17, Some(scsi@)) == Some(p@),
            None => first_setting(rs@, 17, Some(scsi@)) is None,
        },
{
    first_setting_path(rs, 17, Some(scsi))
}

/// The VM's DVD drive: the first setting of resource type 16.
pub fn dvd_drive_path(rs: &Vec<ResourceSetting>) -> (r: Option<String>)
    ensures
        match r {
            Some(p) => first_setting(rs@, 16, None) == Some(p@),
            None => first_setting(rs@, 16, None) is None,
        },
{
    first_setting_path(rs, 16, None)
}

/// The SCSI controller found after adding one: an error when the settings
/// still have none.
pub fn added_scsi_controller_path(rs: &Vec<ResourceSetting>) -> (r: Result<String, HvError>)
    ensures
        match first_setting(rs@, 6, None) {
            Some(p) => r matches Ok(q) && q@ == p,
            None => r matches Err(HvError::OperationFailed(m)) && m@
                == "SCSI controller was added but could not be found"@,
        },
{
    match scsi_controller_path(rs) {
        Some(p) => Ok(p),
        None => Err(HvError::OperationFailed(String::from_str("SCSI controller was added but could not be found"))),
    }
}

/// The SCSI controller that a new DVD drive goes on: an error when the VM
/// has none.
pub fn scsi_for_dvd(rs: &Vec<ResourceSetting>) -> (r: Result<String, HvError>)
    ensures
        match first_setting(rs@, 6, None) {
            Some(p) => r matches Ok(q) && q@ == p,
            None => r matches Err(HvError::OperationFailed(m)) && m@
                == "No SCSI controller found - cannot add DVD"@,
        },
{
    match scsi_controller_path(rs) {
        Some(p) => Ok(p),
        None => Err(HvError::OperationFailed(String::from_str("No SCSI controller found - cannot add DVD"))),
    }
}

/// The DVD drive found after adding one: an error when the settings still
/// have none.
pub fn added_dvd_path(rs: &Vec<ResourceSetting>) -> (r: Result<String, HvError>)
    ensures
        match first_setting(rs@, 16, None) {
            Some(p) => r matches Ok(q) && q@ == p,
            None => r matches Err(HvError::OperationFailed(m)) && m@
                == "DVD drive was added but could not be found"@,
        },
{
    match dvd_drive_path(rs) {
        Some(p) => Ok(p),
        None => Err(HvError::OperationFailed(String::from_str("DVD drive was added but could not be found"))),
    }
}

} // verus!
