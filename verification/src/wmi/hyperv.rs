//! Hyper-V state codes and the rules for interpreting WMI job results.

use vstd::prelude::*;
use crate::error::HvError;
use crate::text::{decimal_seq, push_decimal};

verus! {

/// VM enabled states from `Msvm_ComputerSystem.EnabledState`.
#[derive(Debug, Clone, Copy, PartialEq, Eq, Structural)]
pub enum EnabledState {
    Unknown,
    Other,
    Enabled,
    Disabled,
    ShuttingDown,
    NotApplicable,
    EnabledButOffline,
    InTest,
    Deferred,
    Quiesce,
    Starting,
    Paused,
    Suspended,
    Starting2,
    Saving,
    Stopping,
    Pausing,
    Resuming,
}

/// The state named by a raw `EnabledState` code; unlisted codes are
/// `Unknown`.
pub open spec fn enabled_state_of(value: u32) -> EnabledState {
    if value == 1 {
        EnabledState::Other
    } else if value == 2 {
        EnabledState::Enabled
    } else if value == 3 {
        EnabledState::Disabled
    } else if value == 4 {
        EnabledState::ShuttingDown
    } else if value == 5 {
        EnabledState::NotApplicable
    } else if value == 6 {
        EnabledState::EnabledButOffline
    } else if value == 7 {
        EnabledState::InTest
    } else if value == 8 {
        EnabledState::Deferred
    } else if value == 9 {
        EnabledState::Quiesce
    } else if value == 10 {
        EnabledState::Starting
    } else if value == 32768 {
        EnabledState::Paused
    } else if value == 32769 {
        EnabledState::Suspended
    } else if value == 32770 {
        EnabledState::Starting2
    } else if value == 32773 {
        EnabledState::Saving
    } else if value == 32774 {
        EnabledState::Stopping
    } else if value == 32776 {
        EnabledState::Pausing
    } else if value == 32777 {
        EnabledState::Resuming
    } else {
        EnabledState::Unknown
    }
}

/// The raw code of each state.
pub open spec fn enabled_state_code(s: EnabledState) -> u32 {
    match s {
        EnabledState::Unknown => 0,
        EnabledState::Other => 1,
        EnabledState::Enabled => 2,
        EnabledState::Disabled => 3,
        EnabledState::ShuttingDown => 4,
        EnabledState::NotApplicable => 5,
        EnabledState::EnabledButOffline => 6,
        EnabledState::InTest => 7,
        EnabledState::Deferred => 8,
        EnabledState::Quiesce => 9,
        EnabledState::Starting => 10,
        EnabledState::Paused => 32768,
        EnabledState::Suspended => 32769,
        EnabledState::Starting2 => 32770,
        EnabledState::Saving => 32773,
        EnabledState::Stopping => 32774,
        EnabledState::Pausing => 32776,
        EnabledState::Resuming => 32777,
    }
}

impl EnabledState {
    /// The raw WMI code of this state.
    pub fn value(&self) -> (r: u32)
        ensures
            r == enabled_state_code(*self),
    {
        match self {
            EnabledState::Unknown => 0,
            EnabledState::Other => 1,
            EnabledState::Enabled => 2,
            EnabledState::Disabled => 3,
            EnabledState::ShuttingDown => 4,
            EnabledState::NotApplicable => 5,
            EnabledState::EnabledButOffline => 6,
            EnabledState::InTest => 7,
            EnabledState::Deferred => 8,
            EnabledState::Quiesce => 9,
            EnabledState::Starting => 10,
            EnabledState::Paused => 32768,
            EnabledState::Suspended => 32769,
            EnabledState::Starting2 => 32770,
            EnabledState::Saving => 32773,
            EnabledState::Stopping => 32774,
            EnabledState::Pausing => 32776,
            EnabledState::Resuming => 32777,
        }
    }
}

impl From<u32> for EnabledState {
    fn from(value: u32) -> (r: Self) {
        if value == 1 {
            EnabledState::Other
        } else if value == 2 {
            EnabledState::Enabled
        } else if value == 3 {
            EnabledState::Disabled
        } else if value == 4 {
            EnabledState::ShuttingDown
        } else if value == 5 {
            EnabledState::NotApplicable
        } else if value == 6 {
            EnabledState::EnabledButOffline
        } else if value == 7 {
            EnabledState::InTest
        } else if value == 8 {
            EnabledState::Deferred
        } else if value == 9 {
            EnabledState::Quiesce
        } else if value == 10 {
            EnabledState::Starting
        } else if value == 32768 {
            EnabledState::Paused
        } else if value == 32769 {
            EnabledState::Suspended
        } else if value == 32770 {
            EnabledState::Starting2
        } else if value == 32773 {
            EnabledState::Saving
        } else if value == 32774 {
            EnabledState::Stopping
        } else if value == 32776 {
            EnabledState::Pausing
        } else if value == 32777 {
            EnabledState::Resuming
        } else {
            EnabledState::Unknown
        }
    }
}

impl vstd::std_specs::convert::FromSpecImpl<u32> for EnabledState {
    open spec fn obeys_from_spec() -> bool {
        true
    }

    open spec fn from_spec(v: u32) -> Self {
        enabled_state_of(v)
    }
}

/// Decoding a state's code gives the state back.
pub proof fn lemma_enabled_state_code_roundtrip(s: EnabledState)
    ensures
        enabled_state_of(enabled_state_code(s)) == s,
{
}

/// Requested state for a VM state change (`RequestStateChange`).
#[derive(Debug, Clone, Copy, PartialEq, Eq, Structural)]
pub enum RequestedState {
    Enabled,
    Disabled,
    Shutdown,
    Offline,
    Test,
    Defer,
    Quiesce,
    Reboot,
    Reset,
    Paused,
    Saved,
}

/// The raw code of each requested state.
pub open spec fn requested_state_code(s: RequestedState) -> u32 {
    match s {
        RequestedState::Enabled => 2,
        RequestedState::Disabled => 3,
        RequestedState::Shutdown => 4,
        RequestedState::Offline => 6,
        RequestedState::Test => 7,
        RequestedState::Defer => 8,
        RequestedState::Quiesce => 9,
        RequestedState::Reboot => 10,
        RequestedState::Reset => 11,
        RequestedState::Paused => 32768,
        RequestedState::Saved => 32769,
    }
}

impl RequestedState {
    /// The raw code passed as `RequestedState` to `RequestStateChange`.
    pub fn value(&self) -> (r: u32)
        ensures
            r == requested_state_code(*self),
            *self == RequestedState::Enabled ==> r == enabled_state_code(EnabledState::Enabled),
            *self == RequestedState::Disabled ==> r == enabled_state_code(EnabledState::Disabled),
            *self == RequestedState::Shutdown ==> r == enabled_state_code(EnabledState::ShuttingDown),
            *self == RequestedState::Offline ==> r == enabled_state_code(
                EnabledState::EnabledButOffline,
            ),
            *self == RequestedState::Test ==> r == enabled_state_code(EnabledState::InTest),
            *self == RequestedState::Defer ==> r == enabled_state_code(EnabledState::Deferred),
            *self == RequestedState::Quiesce ==> r == enabled_state_code(EnabledState::Quiesce),
            *self == RequestedState::Reboot ==> r == 10,
            *self == RequestedState::Reset ==> r == 11,
            *self == RequestedState::Paused ==> r == enabled_state_code(EnabledState::Paused),
            *self == RequestedState::Saved ==> r == enabled_state_code(EnabledState::Suspended),
    {
        match self {
            RequestedState::Enabled => 2,
            RequestedState::Disabled => 3,
            RequestedState::Shutdown => 4,
            RequestedState::Offline => 6,
            RequestedState::Test => 7,
            RequestedState::Defer => 8,
            RequestedState::Quiesce => 9,
            RequestedState::Reboot => 10,
            RequestedState::Reset => 11,
            RequestedState::Paused => 32768,
            RequestedState::Saved => 32769,
        }
    }
}

/// What to do after reading a WMI job's `JobState`.
#[derive(Debug, Clone, Copy, PartialEq, Eq, Structural)]
pub enum JobProgress {
    /// The job finished successfully.
    Completed,
    /// The job ended in an exception, error or termination.
    Failed,
    /// The job is still running: wait and read it again.
    Wait,
}

/// The meaning of a `JobState` value: 7 completed; 8 to 11 failed; any
/// other value means the job has not finished.
pub open spec fn job_progress_of(job_state: u32) -> JobProgress {
    if job_state == 7 {
        JobProgress::Completed
    } else if 8 <= job_state <= 11 {
        JobProgress::Failed
    } else {
        JobProgress::Wait
    }
}

/// Classifies a job's `JobState` value.
pub fn job_progress(job_state: u32) -> (r: JobProgress)
    ensures
        r == job_progress_of(job_state),
        (r == JobProgress::Completed) <==> job_state == 7,
        (r == JobProgress::Failed) <==> (job_state == 8 || job_state == 9 || job_state == 10
            || job_state == 11),
        (r == JobProgress::Wait) <==> !(7 <= job_state && job_state <= 11),
{
    if job_state == 7 {
        JobProgress::Completed
    } else if 8 <= job_state && job_state <= 11 {
        JobProgress::Failed
    } else {
        JobProgress::Wait
    }
}

/// The error reported for a failed job: "Job failed (code N): description",
/// the description defaulting to "Unknown error".
pub fn job_failure(error_code: u32, error_description: Option<String>) -> (r: HvError)
    ensures
        r matches HvError::WmiError(msg) && msg@ == "Job failed (code "@ + decimal_seq(
            error_code as nat,
        ) + "): "@ + match error_description {
            Some(d) => d@,
            None => "Unknown error"@,
        },
{
    let desc = match error_description {
        Some(d) => d,
        None => String::from_str("Unknown error"),
    };
    let mut msg = String::from_str("Job failed (code ");
    push_decimal(&mut msg, error_code as u64);
    msg.append("): ");
    msg.append(desc.as_str());
    HvError::WmiError(msg)
}

/// What to do after a method returned its `ReturnValue`.
#[derive(Debug, Clone, PartialEq, Eq)]
pub enum MethodOutcome {
    /// Completed with no error.
    Done,
    /// A job was started: wait for it to complete.
    WaitForJob,
    /// The method failed with this code.
    Failed(u32),
}

/// Classifies a WMI method's `ReturnValue`: 0 done, 4096 a job was
/// started, anything else a failure.
pub fn method_outcome(return_value: u32) -> (r: MethodOutcome)
    ensures
        return_value == 0 ==> r == MethodOutcome::Done,
        return_value == 4096 ==> r == MethodOutcome::WaitForJob,
        return_value != 0 && return_value != 4096 ==> r == MethodOutcome::Failed(return_value),
{
    if return_value == 0 {
        MethodOutcome::Done
    } else if return_value == 4096 {
        MethodOutcome::WaitForJob
    } else {
        MethodOutcome::Failed(return_value)
    }
}

/// The error reported for a failed method: "Operation failed with code N".
pub fn method_failure(code: u32) -> (r: HvError)
    ensures
        r matches HvError::WmiError(msg) && msg@ == "Operation failed with code "@
            + decimal_seq(code as nat),
{
    let mut msg = String::from_str("Operation failed with code ");
    push_decimal(&mut msg, code as u64);
    HvError::WmiError(msg)
}

/// The WMI codes of the VM states: a Hyper-V saved VM is `Suspended`
/// (32769) and a paused one `Paused` (32768), a running VM `Enabled` (2)
/// and a stopped one `Disabled` (3); distinct states have distinct codes.
pub proof fn lemma_enabled_state_codes(a: EnabledState, b: EnabledState)
    ensures
        enabled_state_code(EnabledState::Enabled) == 2,
        enabled_state_code(EnabledState::Disabled) == 3,
        enabled_state_code(EnabledState::Paused) == 32768,
        enabled_state_code(EnabledState::Suspended) == 32769,
        a != b ==> enabled_state_code(a) != enabled_state_code(b),
{
}

/// Each state requested through `RequestStateChange` is sent as the
/// `EnabledState` code of the state it asks for (saving asks for
/// `Suspended`, 32769; pausing for `Paused`, 32768; starting for
/// `Enabled`; turning off for `Disabled`), rebooting and resetting as 10
/// and 11, and distinct requests have distinct codes.
pub proof fn lemma_requested_state_codes(a: RequestedState, b: RequestedState)
    ensures
        requested_state_code(RequestedState::Saved) == enabled_state_code(EnabledState::Suspended),
        requested_state_code(RequestedState::Saved) == 32769,
        requested_state_code(RequestedState::Paused) == enabled_state_code(EnabledState::Paused),
        requested_state_code(RequestedState::Paused) == 32768,
        requested_state_code(RequestedState::Enabled) == enabled_state_code(EnabledState::Enabled),
        requested_state_code(RequestedState::Disabled) == enabled_state_code(
            EnabledState::Disabled,
        ),
        requested_state_code(RequestedState::Shutdown) == enabled_state_code(
            EnabledState::ShuttingDown,
        ),
        requested_state_code(RequestedState::Offline) == enabled_state_code(
            EnabledState::EnabledButOffline,
        ),
        requested_state_code(RequestedState::Test) == enabled_state_code(EnabledState::InTest),
        requested_state_code(RequestedState::Defer) == enabled_state_code(EnabledState::Deferred),
        requested_state_code(RequestedState::Quiesce) == enabled_state_code(EnabledState::Quiesce),
        requested_state_code(RequestedState::Reboot) == 10,
        requested_state_code(RequestedState::Reset) == 11,
        a != b ==> requested_state_code(a) != requested_state_code(b),
{
}

/// A job is completed exactly when its `JobState` is 7; it has failed
/// exactly when the state is one of the terminal error states 8 to 11
/// (terminated, killed, exception, service); every other state means it
/// is still running.
pub proof fn lemma_job_progress_states(job_state: u32)
    ensures
        (job_progress_of(job_state) == JobProgress::Completed) <==> job_state == 7,
        (job_progress_of(job_state) == JobProgress::Failed) <==> (job_state == 8 || job_state == 9
            || job_state == 10 || job_state == 11),
        (job_progress_of(job_state) == JobProgress::Wait) <==> (job_state < 7 || job_state > 11),
{
}

} // verus!
