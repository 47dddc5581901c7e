//! Virtual machine states and the decisions behind VM lifecycle requests.

use vstd::prelude::*;
use crate::error::HvError;
use crate::text::{str_eq, to_lowercase, lowercase};
use crate::wmi::hyperv::EnabledState;
use crate::wmi::msvm::{state_string_of, MsvmVm};

verus! {

/// VM state.
#[derive(Debug, Clone, Copy, PartialEq, Eq, Structural)]
pub enum VmState {
    Unknown,
    Running,
    Off,
    Stopping,
    Saved,
    Paused,
    Starting,
    Saving,
    Pausing,
    Resuming,
}

/// The VM state that a WMI enabled state stands for.
pub open spec fn vm_state_of_enabled(state: EnabledState) -> VmState {
    match state {
        EnabledState::Enabled => VmState::Running,
        EnabledState::Disabled => VmState::Off,
        EnabledState::Stopping => VmState::Stopping,
        EnabledState::Suspended => VmState::Saved,
        EnabledState::Paused => VmState::Paused,
        EnabledState::Starting => VmState::Starting,
        EnabledState::Starting2 => VmState::Starting,
        EnabledState::Saving => VmState::Saving,
        EnabledState::Pausing => VmState::Pausing,
        EnabledState::Resuming => VmState::Resuming,
        EnabledState::ShuttingDown => VmState::Stopping,
        _ => VmState::Unknown,
    }
}

/// The VM state named by a lowercase HCS state string.
pub open spec fn vm_state_of_hcs_name(name: Seq<char>) -> VmState {
    if name == "running"@ {
        VmState::Running
    } else if name == "stopped"@ || name == "off"@ {
        VmState::Off
    } else if name == "stopping"@ {
        VmState::Stopping
    } else if name == "saved"@ || name == "savedstate"@ {
        VmState::Saved
    } else if name == "paused"@ || name == "suspended"@ {
        VmState::Paused
    } else if name == "starting"@ {
        VmState::Starting
    } else if name == "saving"@ {
        VmState::Saving
    } else if name == "pausing"@ || name == "suspending"@ {
        VmState::Pausing
    } else if name == "resuming"@ {
        VmState::Resuming
    } else {
        VmState::Unknown
    }
}

/// The variant name of a state, as `{:?}` prints it.
pub open spec fn vm_state_name(s: VmState) -> Seq<char> {
    match s {
        VmState::Unknown => "Unknown"@,
        VmState::Running => "Running"@,
        VmState::Off => "Off"@,
        VmState::Stopping => "Stopping"@,
        VmState::Saved => "Saved"@,
        VmState::Paused => "Paused"@,
        VmState::Starting => "Starting"@,
        VmState::Saving => "Saving"@,
        VmState::Pausing => "Pausing"@,
        VmState::Resuming => "Resuming"@,
    }
}

/// The transitional states.
pub open spec fn is_transitioning_state(s: VmState) -> bool {
    s == VmState::Starting || s == VmState::Stopping || s == VmState::Saving || s
        == VmState::Pausing || s == VmState::Resuming
}

impl VmState {
    /// The state for a WMI enabled state.
    pub fn from_enabled_state(state: EnabledState) -> (r: VmState)
        ensures
            r == vm_state_of_enabled(state),
            state == EnabledState::Enabled ==> r == VmState::Running,
            state == EnabledState::Disabled ==> r == VmState::Off,
            state == EnabledState::Suspended ==> r == VmState::Saved,
            state == EnabledState::Paused ==> r == VmState::Paused,
            state == EnabledState::Starting || state == EnabledState::Starting2 ==> r
                == VmState::Starting,
            state == EnabledState::Stopping || state == EnabledState::ShuttingDown ==> r
                == VmState::Stopping,
            state == EnabledState::Saving ==> r == VmState::Saving,
            state == EnabledState::Pausing ==> r == VmState::Pausing,
            state == EnabledState::Resuming ==> r == VmState::Resuming,
    {
        match state {
            EnabledState::Enabled => VmState::Running,
            EnabledState::Disabled => VmState::Off,
            EnabledState::Stopping => VmState::Stopping,
            EnabledState::Suspended => VmState::Saved,
            EnabledState::Paused => VmState::Paused,
            EnabledState::Starting | EnabledState::Starting2 => VmState::Starting,
            EnabledState::Saving => VmState::Saving,
            EnabledState::Pausing => VmState::Pausing,
            EnabledState::Resuming => VmState::Resuming,
            EnabledState::ShuttingDown => VmState::Stopping,
            _ => VmState::Unknown,
        }
    }

    /// The state for an HCS state string, compared without regard to case
    /// (the string is lowercased first).
    pub fn from_hcs_state(state: &str) -> (r: VmState)
        ensures
            r == vm_state_of_hcs_name(lowercase(state@)),
    {
        let lower = to_lowercase(state);
        Self::from_lowercase_hcs_state(lower.as_str())
    }

    /// The state for an already lowercased HCS state string.
    pub fn from_lowercase_hcs_state(name: &str) -> (r: VmState)
        ensures
            r == vm_state_of_hcs_name(name@),
    {
        if str_eq(name, "running") {
            VmState::Running
        } else if str_eq(name, "stopped") || str_eq(name, "off") {
            VmState::Off
        } else if str_eq(name, "stopping") {
            VmState::Stopping
        } else if str_eq(name, "saved") || str_eq(name, "savedstate") {
            VmState::Saved
        } else if str_eq(name, "paused") || str_eq(name, "suspended") {
            VmState::Paused
        } else if str_eq(name, "starting") {
            VmState::Starting
        } else if str_eq(name, "saving") {
            VmState::Saving
        } else if str_eq(name, "pausing") || str_eq(name, "suspending") {
            VmState::Pausing
        } else if str_eq(name, "resuming") {
            VmState::Resuming
        } else {
            VmState::Unknown
        }
    }

    /// Whether the VM is running.
    pub fn is_running(&self) -> (r: bool)
        ensures
            r == (*self == VmState::Running),
    {
        match self {
            VmState::Running => true,
            _ => false,
        }
    }

    /// Whether the VM is off.
    pub fn is_off(&self) -> (r: bool)
        ensures
            r == (*self == VmState::Off),
    {
        match self {
            VmState::Off => true,
            _ => false,
        }
    }

    /// Whether the VM is between two stable states.
    pub fn is_transitioning(&self) -> (r: bool)
        ensures
            r == is_transitioning_state(*self),
    {
        match self {
            VmState::Starting | VmState::Stopping | VmState::Saving | VmState::Pausing
            | VmState::Resuming => true,
            _ => false,
        }
    }

    /// The variant name, as `{:?}` prints it.
    pub fn name(&self) -> (r: &'static str)
        ensures
            r@ == vm_state_name(*self),
    {
        match self {
            VmState::Unknown => "Unknown",
            VmState::Running => "Running",
            VmState::Off => "Off",
            VmState::Stopping => "Stopping",
            VmState::Saved => "Saved",
            VmState::Paused => "Paused",
            VmState::Starting => "Starting",
            VmState::Saving => "Saving",
            VmState::Pausing => "Pausing",
            VmState::Resuming => "Resuming",
        }
    }
}

/// VM generation.
#[derive(Debug, Clone, Copy, PartialEq, Eq, Structural)]
pub enum VmGeneration {
    Gen1,
    Gen2,
}

/// Properties returned from HCS.
#[derive(Debug, Clone)]
pub struct VmProperties {
    pub state: Option<String>,
    pub memory: Option<VmMemoryProperties>,
    pub processor: Option<VmProcessorProperties>,
    pub runtime_state_path: Option<String>,
}

/// Memory properties returned from HCS.
#[derive(Debug, Clone)]
pub struct VmMemoryProperties {
    pub virtual_machine_memory: Option<u64>,
    pub available_memory: Option<u64>,
}

/// Processor properties returned from HCS.
#[derive(Debug, Clone)]
pub struct VmProcessorProperties {
    pub count: Option<u32>,
}

/// A state-change request sent to the host for a VM.
#[derive(Debug, Clone, Copy, PartialEq, Eq, Structural)]
pub enum VmCommand {
    /// Power on (`RequestStateChange` to Enabled).
    Start,
    /// Graceful shutdown through the guest's shutdown service.
    Shutdown,
    /// Immediate power off (`RequestStateChange` to Disabled).
    TurnOff,
    /// Pause (`RequestStateChange` to Paused).
    Pause,
    /// Resume a paused or saved VM (`RequestStateChange` to Enabled).
    Resume,
    /// Save the VM state (`RequestStateChange` to Saved).
    Save,
}

/// The state a VM is recorded in once the host accepted a command.
pub open spec fn state_after(cmd: VmCommand) -> VmState {
    match cmd {
        VmCommand::Start => VmState::Starting,
        VmCommand::Shutdown => VmState::Stopping,
        VmCommand::TurnOff => VmState::Off,
        VmCommand::Pause => VmState::Pausing,
        VmCommand::Resume => VmState::Resuming,
        VmCommand::Save => VmState::Saving,
    }
}

/// The message of the error returned when `what` is asked of a VM in state
/// `s`: "VM must be <what> (current: <State>)".
pub open spec fn invalid_state_message(what: Seq<char>, s: VmState) -> Seq<char> {
    "VM must be "@ + what + " (current: "@ + vm_state_name(s) + ")"@
}

fn invalid_state(what: &str, s: VmState) -> (r: HvError)
    ensures
        r matches HvError::InvalidState(m) && m@ == invalid_state_message(what@, s),
{
    let msg = String::from_str("VM must be ").concat(what).concat(" (current: ").concat(
        s.name(),
    ).concat(")");
    HvError::InvalidState(msg)
}

/// What is known of a VM: identity, last observed state and cached
/// settings.
pub struct VmView {
    pub id: Seq<char>,
    pub name: Seq<char>,
    pub state: VmState,
    pub memory_mb: Option<u64>,
    pub processor_count: Option<u32>,
    pub generation: Option<u32>,
}

/// A Hyper-V virtual machine: its identity, its last known state and the
/// settings read so far.
pub struct Vm {
    id: String,
    name: String,
    current_state: VmState,
    memory_mb: Option<u64>,
    processor_count: Option<u32>,
    generation: Option<u32>,
}

impl View for Vm {
    type V = VmView;

    closed spec fn view(&self) -> VmView {
        VmView {
            id: self.id@,
            name: self.name@,
            state: self.current_state,
            memory_mb: self.memory_mb,
            processor_count: self.processor_count,
            generation: self.generation,
        }
    }
}

impl Vm {
    /// A VM handle built from its WMI record.
    pub fn from_wmi(vm: &MsvmVm) -> (r: Vm)
        ensures
            r@ == (VmView {
                id: vm.id@,
                name: vm.name@,
                state: vm_state_of_enabled(vm.enabled_state),
                memory_mb: vm.memory_mb,
                processor_count: vm.processor_count,
                generation: vm.generation,
            }),
    {
        Vm {
            id: vm.id.clone(),
            name: vm.name.clone(),
            current_state: VmState::from_enabled_state(vm.enabled_state),
            memory_mb: vm.memory_mb,
            processor_count: vm.processor_count,
            generation: vm.generation,
        }
    }

    /// The VM name.
    pub fn name(&self) -> (r: &str)
        ensures
            r@ == self@.name,
    {
        self.name.as_str()
    }

    /// The VM ID (GUID).
    pub fn id(&self) -> (r: &str)
        ensures
            r@ == self@.id,
    {
        self.id.as_str()
    }

    /// Records a freshly read enabled state and returns the VM state it
    /// stands for.
    pub fn state(&mut self, refreshed: EnabledState) -> (r: VmState)
        ensures
            r == vm_state_of_enabled(refreshed),
            refreshed == EnabledState::Suspended ==> r == VmState::Saved,
            refreshed == EnabledState::Paused ==> r == VmState::Paused,
            final(self)@ == (VmView { state: r, ..old(self)@ }),
    {
        self.current_state = VmState::from_enabled_state(refreshed);
        self.current_state
    }

    /// The last recorded state, without asking the host.
    pub fn cached_state(&self) -> (r: VmState)
        ensures
            r == self@.state,
    {
        self.current_state
    }

    /// Decides a start request against a freshly read state, which it
    /// records. A running VM needs nothing; an Off, Saved or Paused VM is
    /// sent `Start`; any other state is refused.
    pub fn start(&mut self, refreshed: EnabledState) -> (r: Result<Option<VmCommand>, HvError>)
        ensures
            ({
                let s = vm_state_of_enabled(refreshed);
                &&& final(self)@ == (VmView { state: s, ..old(self)@ })
                &&& s == VmState::Running ==> r == Ok::<Option<VmCommand>, HvError>(None)
                &&& (s == VmState::Off || s == VmState::Saved || s == VmState::Paused) ==> r
                    == Ok::<Option<VmCommand>, HvError>(Some(VmCommand::Start))
                &&& !(s == VmState::Running || s == VmState::Off || s == VmState::Saved || s
                    == VmState::Paused) ==> (r matches Err(HvError::InvalidState(m)) && m@
                    == invalid_state_message("Off, Saved, or Paused to start"@, s))
            }),
    {
        let state = self.state(refreshed);
        if state.is_running() {
            return Ok(None);
        }
        if !state.is_off() && state != VmState::Saved && state != VmState::Paused {
            return Err(invalid_state("Off, Saved, or Paused to start", state));
        }
        Ok(Some(VmCommand::Start))
    }

    /// Decides a graceful stop against a freshly read state, which it
    /// records. An Off VM needs nothing; any other is sent `Shutdown`.
    pub fn stop(&mut self, refreshed: EnabledState) -> (r: Option<VmCommand>)
        ensures
            ({
                let s = vm_state_of_enabled(refreshed);
                &&& final(self)@ == (VmView { state: s, ..old(self)@ })
                &&& r == if s == VmState::Off {
                    None::<VmCommand>
                } else {
                    Some(VmCommand::Shutdown)
                }
            }),
    {
        let state = self.state(refreshed);
        if state.is_off() {
            return None;
        }
        Some(VmCommand::Shutdown)
    }

    /// A forced power off is always sent, whatever the state.
    pub fn force_stop(&self) -> (r: VmCommand)
        ensures
            r == VmCommand::TurnOff,
    {
        VmCommand::TurnOff
    }

    /// Decides a pause against a freshly read state, which it records. A
    /// paused VM needs nothing; a running VM is sent `Pause`; any other
    /// state is refused.
    pub fn pause(&mut self, refreshed: EnabledState) -> (r: Result<Option<VmCommand>, HvError>)
        ensures
            ({
                let s = vm_state_of_enabled(refreshed);
                &&& final(self)@ == (VmView { state: s, ..old(self)@ })
                &&& s == VmState::Paused ==> r == Ok::<Option<VmCommand>, HvError>(None)
                &&& s == VmState::Running ==> r == Ok::<Option<VmCommand>, HvError>(
                    Some(VmCommand::Pause),
                )
                &&& !(s == VmState::Paused || s == VmState::Running) ==> (r matches Err(
                    HvError::InvalidState(m),
                ) && m@ == invalid_state_message("Running to pause"@, s))
            }),
    {
        let state = self.state(refreshed);
        if state == VmState::Paused {
            return Ok(None);
        }
        if !state.is_running() {
            return Err(invalid_state("Running to pause", state));
        }
        Ok(Some(VmCommand::Pause))
    }

    /// Decides a resume against a freshly read state, which it records. A
    /// running VM needs nothing; a Paused or Saved VM is sent `Resume`; any
    /// other state is refused.
    pub fn resume(&mut self, refreshed: EnabledState) -> (r: Result<Option<VmCommand>, HvError>)
        ensures
            ({
                let s = vm_state_of_enabled(refreshed);
                &&& final(self)@ == (VmView { state: s, ..old(self)@ })
                &&& s == VmState::Running ==> r == Ok::<Option<VmCommand>, HvError>(None)
                &&& (s == VmState::Paused || s == VmState::Saved) ==> r == Ok::<
                    Option<VmCommand>,
                    HvError,
                >(Some(VmCommand::Resume))
                &&& !(s == VmState::Running || s == VmState::Paused || s == VmState::Saved) ==> (
                r matches Err(HvError::InvalidState(m)) && m@ == invalid_state_message(
                    "Paused or Saved to resume"@,
                    s,
                ))
            }),
    {
        let state = self.state(refreshed);
        if state.is_running() {
            return Ok(None);
        }
        if state != VmState::Paused && state != VmState::Saved {
            return Err(invalid_state("Paused or Saved to resume", state));
        }
        Ok(Some(VmCommand::Resume))
    }

    /// Decides a save against a freshly read state, which it records. A
    /// saved VM needs nothing; a running VM is sent `Save`; any other state
    /// is refused.
    pub fn save(&mut self, refreshed: EnabledState) -> (r: Result<Option<VmCommand>, HvError>)
        ensures
            ({
                let s = vm_state_of_enabled(refreshed);
                &&& final(self)@ == (VmView { state: s, ..old(self)@ })
                &&& s == VmState::Saved ==> r == Ok::<Option<VmCommand>, HvError>(None)
                &&& s == VmState::Running ==> r == Ok::<Option<VmCommand>, HvError>(
                    Some(VmCommand::Save),
                )
                &&& !(s == VmState::Saved || s == VmState::Running) ==> (r matches Err(
                    HvError::InvalidState(m),
                ) && m@ == invalid_state_message("Running to save"@, s))
            }),
    {
        let state = self.state(refreshed);
        if state == VmState::Saved {
            return Ok(None);
        }
        if !state.is_running() {
            return Err(invalid_state("Running to save", state));
        }
        Ok(Some(VmCommand::Save))
    }

    /// Records that the host accepted `cmd`: the VM enters the state the
    /// command leads to.
    pub fn command_sent(&mut self, cmd: VmCommand)
        ensures
            final(self)@ == (VmView { state: state_after(cmd), ..old(self)@ }),
    {
        self.current_state = match cmd {
            VmCommand::Start => VmState::Starting,
            VmCommand::Shutdown => VmState::Stopping,
            VmCommand::TurnOff => VmState::Off,
            VmCommand::Pause => VmState::Pausing,
            VmCommand::Resume => VmState::Resuming,
            VmCommand::Save => VmState::Saving,
        };
    }

    /// The cached number of virtual CPUs, if it was read.
    pub fn cpu_count(&self) -> (r: Option<u32>)
        ensures
            r == self@.processor_count,
    {
        self.processor_count
    }

    /// Records the number of virtual CPUs read from the processor settings.
    pub fn set_cpu_count(&mut self, count: u32)
        ensures
            final(self)@ == (VmView { processor_count: Some(count), ..old(self)@ }),
    {
        self.processor_count = Some(count);
    }

    /// The cached memory size in MB, if it was read.
    pub fn memory_mb(&self) -> (r: Option<u64>)
        ensures
            r == self@.memory_mb,
    {
        self.memory_mb
    }

    /// Records the memory size in MB read from the memory settings.
    pub fn set_memory_mb(&mut self, mb: u64)
        ensures
            final(self)@ == (VmView { memory_mb: Some(mb), ..old(self)@ }),
    {
        self.memory_mb = Some(mb);
    }

    /// The VM generation: generation 2 is `Gen2`, any other recorded value
    /// is `Gen1`.
    pub fn generation(&self) -> (r: Option<VmGeneration>)
        ensures
            r == match self@.generation {
                Some(g) => Some(if g == 2 { VmGeneration::Gen2 } else { VmGeneration::Gen1 }),
                None => None,
            },
    {
        match self.generation {
            Some(g) => Some(if g == 2 { VmGeneration::Gen2 } else { VmGeneration::Gen1 }),
            None => None,
        }
    }
}

/// Each WMI enabled state stands for the VM state of the same meaning:
/// enabled is running, disabled is off, suspended (32769) is saved, paused
/// is paused, both starting codes are starting, stopping and shutting down
/// are stopping, and saving, pausing and resuming are themselves; the
/// other codes are unknown. The HCS reading of the same state agrees.
pub proof fn lemma_enabled_state_meaning(state: EnabledState)
    ensures
        state == EnabledState::Enabled ==> vm_state_of_enabled(state) == VmState::Running,
        state == EnabledState::Disabled ==> vm_state_of_enabled(state) == VmState::Off,
        state == EnabledState::Suspended ==> vm_state_of_enabled(state) == VmState::Saved,
        state == EnabledState::Paused ==> vm_state_of_enabled(state) == VmState::Paused,
        state == EnabledState::Starting || state == EnabledState::Starting2
            ==> vm_state_of_enabled(state) == VmState::Starting,
        state == EnabledState::Stopping || state == EnabledState::ShuttingDown
            ==> vm_state_of_enabled(state) == VmState::Stopping,
        state == EnabledState::Saving ==> vm_state_of_enabled(state) == VmState::Saving,
        state == EnabledState::Pausing ==> vm_state_of_enabled(state) == VmState::Pausing,
        state == EnabledState::Resuming ==> vm_state_of_enabled(state) == VmState::Resuming,
        state == EnabledState::Unknown || state == EnabledState::Other || state
            == EnabledState::NotApplicable || state == EnabledState::EnabledButOffline || state
            == EnabledState::InTest || state == EnabledState::Deferred || state
            == EnabledState::Quiesce ==> vm_state_of_enabled(state) == VmState::Unknown,
        vm_state_of_enabled(EnabledState::Suspended) == vm_state_of_hcs_name("saved"@),
        vm_state_of_enabled(EnabledState::Paused) == vm_state_of_hcs_name("paused"@),
        vm_state_of_enabled(EnabledState::Enabled) == vm_state_of_hcs_name("running"@),
        vm_state_of_enabled(EnabledState::Disabled) == vm_state_of_hcs_name("off"@),
{
    reveal_strlit("saved");
    reveal_strlit("savedstate");
    reveal_strlit("paused");
    reveal_strlit("running");
    reveal_strlit("off");
    reveal_strlit("stopped");
    reveal_strlit("stopping");
    assert("saved"@.len() == 5 && "paused"@.len() == 6 && "running"@.len() == 7);
    assert("stopped"@.len() == 7 && "off"@.len() == 3 && "stopping"@.len() == 8);
    assert("savedstate"@.len() == 10);
    assert("saved"@ != "running"@ && "saved"@ != "stopped"@ && "saved"@ != "off"@ && "saved"@
        != "stopping"@);
    assert("paused"@ != "running"@ && "paused"@ != "stopped"@ && "paused"@ != "off"@
        && "paused"@ != "stopping"@ && "paused"@ != "saved"@ && "paused"@ != "savedstate"@);
}

/// The HCS state names, compared after lowercasing: "running" is running;
/// "stopped" and "off" are off; "stopping" is stopping; "saved" and
/// "savedstate" are saved; "paused" and "suspended" are paused;
/// "starting", "saving" and "resuming" are themselves; "pausing" and
/// "suspending" are pausing; every other name is unknown.
pub proof fn lemma_hcs_state_names(name: Seq<char>)
    ensures
        name == "running"@ ==> vm_state_of_hcs_name(name) == VmState::Running,
        name == "stopped"@ || name == "off"@ ==> vm_state_of_hcs_name(name) == VmState::Off,
        name == "stopping"@ ==> vm_state_of_hcs_name(name) == VmState::Stopping,
        name == "saved"@ || name == "savedstate"@ ==> vm_state_of_hcs_name(name) == VmState::Saved,
        name == "paused"@ || name == "suspended"@ ==> vm_state_of_hcs_name(name) == VmState::Paused,
        name == "starting"@ ==> vm_state_of_hcs_name(name) == VmState::Starting,
        name == "saving"@ ==> vm_state_of_hcs_name(name) == VmState::Saving,
        name == "pausing"@ || name == "suspending"@ ==> vm_state_of_hcs_name(name)
            == VmState::Pausing,
        name == "resuming"@ ==> vm_state_of_hcs_name(name) == VmState::Resuming,
{
    reveal_strlit("running");
    reveal_strlit("stopped");
    reveal_strlit("off");
    reveal_strlit("stopping");
    reveal_strlit("saved");
    reveal_strlit("savedstate");
    reveal_strlit("paused");
    reveal_strlit("suspended");
    reveal_strlit("starting");
    reveal_strlit("saving");
    reveal_strlit("pausing");
    reveal_strlit("suspending");
    reveal_strlit("resuming");
    assert("stopping"@[2] != "starting"@[2]);
    assert("saving"@[0] != "paused"@[0]);
    assert("pausing"@[0] != "running"@[0] && "pausing"@[0] != "stopped"@[0]);
    assert("suspending"@[1] != "savedstate"@[1]);
    assert("resuming"@[0] != "stopping"@[0] && "resuming"@[0] != "starting"@[0]);
    assert("running"@.len() == 7 && "stopped"@.len() == 7 && "off"@.len() == 3);
    assert("stopping"@.len() == 8 && "saved"@.len() == 5 && "savedstate"@.len() == 10);
    assert("paused"@.len() == 6 && "suspended"@.len() == 9 && "starting"@.len() == 8);
    assert("saving"@.len() == 6 && "pausing"@.len() == 7 && "suspending"@.len() == 10);
    assert("resuming"@.len() == 8);
    assert("stopping"@ != "running"@ && "stopping"@ != "stopped"@ && "stopping"@ != "off"@);
    assert("saved"@ != "running"@ && "saved"@ != "stopped"@ && "saved"@ != "off"@ && "saved"@
        != "stopping"@);
    assert("savedstate"@ != "running"@ && "savedstate"@ != "stopped"@ && "savedstate"@ != "off"@
        && "savedstate"@ != "stopping"@);
}

/// The human-readable name of a WMI enabled state is the name of the VM
/// state it stands for (a suspended VM reads "Saved", a paused one
/// "Paused"); the one exception is shutting down, which stands for stopping
/// but reads "Shutting Down".
pub proof fn lemma_state_names_agree(state: EnabledState)
    ensures
        state != EnabledState::ShuttingDown ==> state_string_of(state) == vm_state_name(
            vm_state_of_enabled(state),
        ),
        vm_state_of_enabled(EnabledState::ShuttingDown) == VmState::Stopping,
        state_string_of(EnabledState::ShuttingDown) == "Shutting Down"@,
{
}

} // verus!
