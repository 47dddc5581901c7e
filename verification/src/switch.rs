//! Virtual switch types, records, and the PowerShell commands that manage
//! switches.

use vstd::prelude::*;
use crate::error::{operation_failed, HvError};
use crate::powershell::{
    decode_listing, decode_outcome, newline_pieces, nonblank_lines, optional_text, trimmed_nonblank,
    CommandOutput,
};
use crate::text::{lowercase, str_eq, to_lowercase, trim, trim_seq};

verus! {

/// Virtual switch type.
#[derive(Debug, Clone, Copy, PartialEq, Eq, Structural)]
pub enum SwitchType {
    /// External - connected to physical network adapter
    External,
    /// Internal - connects VMs to host
    Internal,
    /// Private - connects VMs to each other only
    Private,
}

/// The type for a WMI code: 1 internal, 2 external, anything else private.
pub open spec fn switch_type_of(value: u16) -> SwitchType {
    if value == 1 {
        SwitchType::Internal
    } else if value == 2 {
        SwitchType::External
    } else {
        SwitchType::Private
    }
}

/// The type named by a lowercased type name: "external", "internal", and
/// anything else private.
pub open spec fn switch_type_of_lowercase(name: Seq<char>) -> SwitchType {
    if name == "external"@ {
        SwitchType::External
    } else if name == "internal"@ {
        SwitchType::Internal
    } else {
        SwitchType::Private
    }
}

/// The name of each type.
pub open spec fn switch_type_name(t: SwitchType) -> Seq<char> {
    match t {
        SwitchType::Private => "Private"@,
        SwitchType::Internal => "Internal"@,
        SwitchType::External => "External"@,
    }
}

impl From<u16> for SwitchType {
    fn from(value: u16) -> (r: Self) {
        if value == 0 {
            SwitchType::Private
        } else if value == 1 {
            SwitchType::Internal
        } else if value == 2 {
            SwitchType::External
        } else {
            SwitchType::Private
        }
    }
}

impl vstd::std_specs::convert::FromSpecImpl<u16> for SwitchType {
    open spec fn obeys_from_spec() -> bool {
        true
    }

    open spec fn from_spec(v: u16) -> Self {
        switch_type_of(v)
    }
}

impl SwitchType {
    /// The type's name as HNS and PowerShell spell it.
    pub fn as_str(&self) -> (r: &'static str)
        ensures
            r@ == switch_type_name(*self),
    {
        match self {
            SwitchType::Private => "Private",
            SwitchType::Internal => "Internal",
            SwitchType::External => "External",
        }
    }

    /// The type named by `name`, compared without regard to case.
    pub fn from_name(name: &str) -> (r: SwitchType)
        ensures
            r == switch_type_of_lowercase(lowercase(name@)),
    {
        let lower = to_lowercase(name);
        Self::from_lowercase_name(lower.as_str())
    }

    /// The type named by an already lowercased name.
    pub fn from_lowercase_name(name: &str) -> (r: SwitchType)
        ensures
            r == switch_type_of_lowercase(name@),
    {
        if str_eq(name, "external") {
            SwitchType::External
        } else if str_eq(name, "internal") {
            SwitchType::Internal
        } else {
            SwitchType::Private
        }
    }
}

/// Subnet of an HNS network.
#[derive(Debug, Clone)]
pub struct HnsSubnet {
    pub address_prefix: Option<String>,
    pub gateway_address: Option<String>,
}

/// Information about a virtual switch from enumeration.
#[derive(Debug, Clone)]
pub struct SwitchInfo {
    pub id: Option<String>,
    pub name: Option<String>,
    pub switch_type: Option<String>,
    pub allow_management_o_s: Option<bool>,
    pub net_adapter_interface_description: Option<String>,
}

/// What is known of a switch: name, ID and, when known, its type.
pub struct VirtualSwitchView {
    pub name: Seq<char>,
    pub id: Seq<char>,
    pub switch_type: Option<SwitchType>,
}

/// A Hyper-V virtual switch.
pub struct VirtualSwitch {
    name: String,
    switch_id: String,
    switch_type: Option<SwitchType>,
}

impl View for VirtualSwitch {
    type V = VirtualSwitchView;

    closed spec fn view(&self) -> VirtualSwitchView {
        VirtualSwitchView { name: self.name@, id: self.switch_id@, switch_type: self.switch_type }
    }
}

/// The switch type an enumeration record names, if it names one.
pub open spec fn info_switch_type(info: SwitchInfo) -> Option<SwitchType> {
    match info.switch_type {
        Some(t) => Some(switch_type_of_lowercase(lowercase(t@))),
        None => None,
    }
}

impl VirtualSwitch {
    /// A switch built from enumeration data.
    pub fn from_info(id: String, name: String, switch_type: Option<SwitchType>) -> (r: Self)
        ensures
            r@ == (VirtualSwitchView { name: name@, id: id@, switch_type }),
    {
        VirtualSwitch { name, switch_id: id, switch_type }
    }

    /// A switch from an enumeration record: `None` without an ID; the name
    /// defaults to the ID.
    pub fn from_record(info: SwitchInfo) -> (r: Option<Self>)
        ensures
            match info.id {
                None => r is None,
                Some(id) => r matches Some(sw) && sw@ == (VirtualSwitchView {
                    name: match info.name {
                        Some(n) => n@,
                        None => id@,
                    },
                    id: id@,
                    switch_type: info_switch_type(info),
                }),
            },
    {
        let switch_type = match &info.switch_type {
            Some(t) => Some(SwitchType::from_name(t.as_str())),
            None => None,
        };
        match info.id {
            None => None,
            Some(id) => {
                let name = match info.name {
                    Some(n) => n,
                    None => id.clone(),
                };
                Some(VirtualSwitch::from_info(id, name, switch_type))
            },
        }
    }

    /// The switch looked up by `name`: the record must carry an ID, else
    /// the switch is reported as not found; the name defaults to `name`.
    pub fn from_lookup(name: &str, info: SwitchInfo) -> (r: Result<Self, HvError>)
        ensures
            match info.id {
                None => r matches Err(HvError::SwitchNotFound(m)) && m@ == name@,
                Some(id) => r matches Ok(sw) && sw@ == (VirtualSwitchView {
                    name: match info.name {
                        Some(n) => n@,
                        None => name@,
                    },
                    id: id@,
                    switch_type: info_switch_type(info),
                }),
            },
    {
        let switch_type = match &info.switch_type {
            Some(t) => Some(SwitchType::from_name(t.as_str())),
            None => None,
        };
        match info.id {
            None => Err(HvError::SwitchNotFound(String::from_str(name))),
            Some(id) => {
                let switch_name = match info.name {
                    Some(n) => n,
                    None => String::from_str(name),
                };
                Ok(VirtualSwitch::from_info(id, switch_name, switch_type))
            },
        }
    }

    /// The switch name.
    pub fn name(&self) -> (r: &str)
        ensures
            r@ == self@.name,
    {
        self.name.as_str()
    }

    /// The switch ID (GUID).
    pub fn id(&self) -> (r: &str)
        ensures
            r@ == self@.id,
    {
        self.switch_id.as_str()
    }

    /// The switch type when it is already known.
    pub fn cached_switch_type(&self) -> (r: Option<SwitchType>)
        ensures
            r == self@.switch_type,
    {
        self.switch_type
    }

    /// The switch type: the known one, else the one the type query printed
    /// (private when the query failed); a query that could not be started
    /// is an error.
    pub fn switch_type(&self, query: &Result<CommandOutput, String>) -> (r: Result<SwitchType, HvError>)
        ensures
            match self@.switch_type {
                Some(t) => r == Ok::<SwitchType, HvError>(t),
                None => match query {
                    Err(why) => r matches Err(HvError::OperationFailed(m)) && m@
                        == "Failed to query switch type"@ + ": "@ + why@,
                    Ok(out) => r == Ok::<SwitchType, HvError>(if out.success {
                        switch_type_of_lowercase(lowercase(trim_seq(out.stdout@)))
                    } else {
                        SwitchType::Private
                    }),
                },
            },
    {
        if let Some(st) = self.switch_type {
            return Ok(st);
        }
        let out = match query {
            Ok(out) => out,
            Err(why) => {
                return Err(operation_failed("Failed to query switch type", why.as_str()));
            },
        };
        if !out.success {
            return Ok(SwitchType::Private);
        }
        let t = trim(out.stdout.as_str());
        Ok(SwitchType::from_name(t.as_str()))
    }
}

/// The PowerShell command that prints a switch's type.
pub fn switch_type_command(switch_id: &str) -> (r: String)
    ensures
        r@ == "(Get-VMSwitch -Id '"@ + switch_id@ + "').SwitchType"@,
{
    String::from_str("(Get-VMSwitch -Id '").concat(switch_id).concat("').SwitchType")
}

/// The PowerShell command that removes a switch.
pub fn remove_switch_command(switch_id: &str) -> (r: String)
    ensures
        r@ == "Remove-VMSwitch -Id '"@ + switch_id@ + "' -Force"@,
{
    String::from_str("Remove-VMSwitch -Id '").concat(switch_id).concat("' -Force")
}

/// The PowerShell command that prints whether a switch shares its adapter
/// with the management OS.
pub fn allows_management_os_command(switch_id: &str) -> (r: String)
    ensures
        r@ == "(Get-VMSwitch -Id '"@ + switch_id@ + "').AllowManagementOS"@,
{
    String::from_str("(Get-VMSwitch -Id '").concat(switch_id).concat("').AllowManagementOS")
}

/// Whether the management-OS query answered "true" (without regard to
/// case or surrounding whitespace); a failed query answers no, and a query
/// that could not be started is an error.
pub fn allows_management_os(query: &Result<CommandOutput, String>) -> (r: Result<bool, HvError>)
    ensures
        match query {
            Err(why) => r matches Err(HvError::OperationFailed(m)) && m@
                == "Failed to query management OS"@ + ": "@ + why@,
            Ok(out) => r == Ok::<bool, HvError>(out.success && lowercase(trim_seq(out.stdout@))
                == "true"@),
        },
{
    let out = match query {
        Ok(out) => out,
        Err(why) => {
            return Err(operation_failed("Failed to query management OS", why.as_str()));
        },
    };
    if !out.success {
        return Ok(false);
    }
    let t = trim(out.stdout.as_str());
    let lower = to_lowercase(t.as_str());
    Ok(str_eq(lower.as_str(), "true"))
}

/// The PowerShell command that creates an internal or private switch.
pub fn new_switch_command(name: &str, switch_type: SwitchType) -> (r: String)
    ensures
        r@ == "New-VMSwitch -Name '"@ + name@ + "' -SwitchType "@ + switch_type_name(switch_type)
            + " | Select-Object Id | ConvertTo-Json -Compress"@,
{
    String::from_str("New-VMSwitch -Name '").concat(name).concat("' -SwitchType ").concat(
        switch_type.as_str(),
    ).concat(" | Select-Object Id | ConvertTo-Json -Compress")
}

/// Checks a request for an internal or private switch: an external switch
/// needs a network adapter and must be created with
/// `new_external_switch_command`.
pub fn check_new_switch(switch_type: SwitchType) -> (r: Result<(), HvError>)
    ensures
        switch_type == SwitchType::External ==> (r matches Err(HvError::InvalidParameter(m))
            && m@
            == "External switch requires a network adapter name. Use create_external_switch()."@),
        switch_type != SwitchType::External ==> r is Ok,
{
    if switch_type == SwitchType::External {
        return Err(
            HvError::InvalidParameter(
                String::from_str(
                    "External switch requires a network adapter name. Use create_external_switch().",
                ),
            ),
        );
    }
    Ok(())
}

/// The PowerShell command that creates an external switch bound to a
/// physical adapter.
pub fn new_external_switch_command(
    name: &str,
    network_adapter_name: &str,
    allow_management_os: bool,
) -> (r: String)
    ensures
        r@ == "New-VMSwitch -Name '"@ + name@ + "' -NetAdapterName '"@ + network_adapter_name@
            + "' -AllowManagementOS "@ + (if allow_management_os {
            "$true"@
        } else {
            "$false"@
        }) + " | Select-Object Id | ConvertTo-Json -Compress"@,
{
    let mgmt_os = if allow_management_os {
        "$true"
    } else {
        "$false"
    };
    String::from_str("New-VMSwitch -Name '").concat(name).concat("' -NetAdapterName '").concat(
        network_adapter_name,
    ).concat("' -AllowManagementOS ").concat(mgmt_os).concat(
        " | Select-Object Id | ConvertTo-Json -Compress",
    )
}

/// The PowerShell command that lists, one per line, the VMs with an adapter
/// on the switch.
pub fn connected_vms_command(switch_id: &str) -> (r: String)
    ensures
        r@ == "Get-VMNetworkAdapter -All | Where-Object { $_.SwitchId -eq '"@ + switch_id@ + "' } | Select-Object -ExpandProperty VMName | Sort-Object -Unique"@,
{
    String::from_str("Get-VMNetworkAdapter -All | Where-Object { $_.SwitchId -eq '").concat(switch_id).concat("' } | Select-Object -ExpandProperty VMName | Sort-Object -Unique")
}

/// The PowerShell command that prints the description of the physical
/// adapter behind the switch.
pub fn network_adapter_command(switch_id: &str) -> (r: String)
    ensures
        r@ == "(Get-VMSwitch -Id '"@ + switch_id@ + "').NetAdapterInterfaceDescription"@,
{
    String::from_str("(Get-VMSwitch -Id '").concat(switch_id).concat("').NetAdapterInterfaceDescription")
}

/// The VMs with an adapter on the switch, from the connected-VM query: its
/// nonblank lines, trimmed, in order; a failed query lists none, and a
/// query that could not be started is an error.
pub fn connected_vms_from_output(query: &Result<CommandOutput, String>) -> (r: Result<
    Vec<String>,
    HvError,
>)
    ensures
        match query {
            Err(why) => r matches Err(HvError::OperationFailed(m)) && m@
                == "Failed to query connected VMs"@ + ": "@ + why@,
            Ok(out) => r matches Ok(v) && v@.map_values(|x: String| x@) == (if out.success {
                trimmed_nonblank(newline_pieces(out.stdout@))
            } else {
                Seq::<Seq<char>>::empty()
            }),
        },
{
    let out = match query {
        Ok(out) => out,
        Err(why) => {
            return Err(operation_failed("Failed to query connected VMs", why.as_str()));
        },
    };
    if !out.success {
        let none: Vec<String> = Vec::new();
        assert(none@.map_values(|x: String| x@) =~= Seq::<Seq<char>>::empty());
        return Ok(none);
    }
    Ok(nonblank_lines(out.stdout.as_str()))
}

/// The description of the physical adapter behind the switch, from the
/// adapter query: none when the query failed or printed only whitespace,
/// else the trimmed output; a query that could not be started is an error.
pub fn network_adapter_from_output(query: &Result<CommandOutput, String>) -> (r: Result<
    Option<String>,
    HvError,
>)
    ensures
        match query {
            Err(why) => r matches Err(HvError::OperationFailed(m)) && m@
                == "Failed to query network adapter"@ + ": "@ + why@,
            Ok(out) => r matches Ok(a) && match a {
                Some(d) => out.success && d@ == trim_seq(out.stdout@) && d@.len() > 0,
                None => !out.success || trim_seq(out.stdout@).len() == 0,
            },
        },
{
    let out = match query {
        Ok(out) => out,
        Err(why) => {
            return Err(operation_failed("Failed to query network adapter", why.as_str()));
        },
    };
    if !out.success {
        return Ok(None);
    }
    Ok(optional_text(out.stdout.as_str()))
}

/// The PowerShell command that lists the switches as JSON.
pub fn list_switches_command() -> (r: &'static str)
    ensures
        r@ == "Get-VMSwitch | Select-Object Id, Name, SwitchType | ConvertTo-Json -Compress"@,
{
    "Get-VMSwitch | Select-Object Id, Name, SwitchType | ConvertTo-Json -Compress"
}

/// The switches that enumeration records describe, in order: a record
/// without an ID is left out; the name defaults to the ID.
pub open spec fn listed_switches(infos: Seq<SwitchInfo>) -> Seq<VirtualSwitchView>
    decreases infos.len(),
{
    if infos.len() == 0 {
        Seq::empty()
    } else {
        let rest = listed_switches(infos.drop_last());
        let info = infos.last();
        match info.id {
            None => rest,
            Some(id) => rest.push(
                VirtualSwitchView {
                    name: match info.name {
                        Some(n) => n@,
                        None => id@,
                    },
                    id: id@,
                    switch_type: info_switch_type(info),
                },
            ),
        }
    }
}

/// The switches of enumeration records, as `listed_switches` describes
/// them.
pub fn switches_from_records(infos: &Vec<SwitchInfo>) -> (r: Vec<VirtualSwitch>)
    ensures
        r@.map_values(|s: VirtualSwitch| s@) == listed_switches(infos@),
{
    let mut out: Vec<VirtualSwitch> = Vec::new();
    let mut i: usize = 0;
    assert(infos@.subrange(0, 0) =~= Seq::<SwitchInfo>::empty());
    assert(out@.map_values(|s: VirtualSwitch| s@) =~= Seq::<VirtualSwitchView>::empty());
    while i < infos.len()
        invariant
            i <= infos.len(),
            out@.map_values(|s: VirtualSwitch| s@) == listed_switches(infos@.subrange(0, i as int)),
        decreases infos.len() - i,
    {
        let info = &infos[i];
        assert(infos@.subrange(0, i + 1).drop_last() =~= infos@.subrange(0, i as int));
        let ghost before = out@.map_values(|s: VirtualSwitch| s@);
        match &info.id {
            None => {},
            Some(id) => {
                let switch_type = match &info.switch_type {
                    Some(t) => Some(SwitchType::from_name(t.as_str())),
                    None => None,
                };
                let name = match &info.name {
                    Some(n) => n.clone(),
                    None => id.clone(),
                };
                let sw = VirtualSwitch::from_info(id.clone(), name, switch_type);
                out.push(sw);
                assert(out@.map_values(|s: VirtualSwitch| s@) =~= before.push(sw@));
            },
        }
        i = i + 1;
    }
    assert(infos@.subrange(0, infos.len() as int) =~= infos@);
    out
}

/// The switches that the switch listing reported: a command that could not
/// be started, or that failed, is an error ("Failed to enumerate switches:
/// <why or stderr>"); no JSON lists none; JSON that did not decode is a
/// JSON error ("Failed to parse switch list: <why>" for an array, "Failed
/// to parse switch: <why>" for a single object); otherwise the switches of
/// the decoded records, as `listed_switches` describes them.
pub fn switches_listing(run: &Result<CommandOutput, String>, decoded: Result<Vec<SwitchInfo>, String>) -> (r:
    Result<Vec<VirtualSwitch>, HvError>)
    ensures
        match run {
            Err(why) => r matches Err(HvError::OperationFailed(m)) && m@
                == "Failed to enumerate switches"@ + ": "@ + why@,
            Ok(out) => {
                &&& !out.success ==> (r matches Err(HvError::OperationFailed(m)) && m@
                    == "Failed to enumerate switches"@ + ": "@ + out.stderr@)
                &&& out.success ==> match decode_outcome(
                    out.stdout@,
                    decoded,
                    "Failed to parse switch list"@,
                    "Failed to parse switch"@,
                ) {
                    Ok(infos) => r matches Ok(v) && v@.map_values(|s: VirtualSwitch| s@)
                        == listed_switches(infos),
                    Err(m) => r matches Err(HvError::JsonError(e)) && e@ == m,
                }
            },
        },
{
    let out = match run {
        Ok(out) => out,
        Err(why) => {
            return Err(operation_failed("Failed to enumerate switches", why.as_str()));
        },
    };
    if !out.success {
        return Err(operation_failed("Failed to enumerate switches", out.stderr.as_str()));
    }
    match decode_listing(out.stdout.as_str(), decoded, "Failed to parse switch list", "Failed to parse switch") {
        Ok(infos) => Ok(switches_from_records(&infos)),
        Err(e) => Err(e),
    }
}

/// The WMI switch type codes: 1 is internal and 2 external, exactly;
/// every other code is private. The lowercase type names "external",
/// "internal" and "private" name their own types.
pub proof fn lemma_switch_type_codes(v: u16)
    ensures
        (switch_type_of(v) == SwitchType::Internal) <==> v == 1,
        (switch_type_of(v) == SwitchType::External) <==> v == 2,
        (switch_type_of(v) == SwitchType::Private) <==> (v != 1 && v != 2),
        switch_type_of_lowercase("external"@) == SwitchType::External,
        switch_type_of_lowercase("internal"@) == SwitchType::Internal,
        switch_type_of_lowercase("private"@) == SwitchType::Private,
{
    reveal_strlit("external");
    reveal_strlit("internal");
    reveal_strlit("private");
    assert("internal"@[0] != "external"@[0]);
    assert("private"@.len() == 7 && "external"@.len() == 8 && "internal"@.len() == 8);
    assert("private"@ != "external"@ && "private"@ != "internal"@);
}

} // verus!
