//! The decisions of the service host: how it answers the service control
//! manager, and where it looks for its configuration.

use vstd::prelude::*;

verus! {

/// A request from the service control manager.
#[derive(Debug, Clone, Copy, PartialEq, Eq, Structural)]
pub enum ServiceControl {
    Stop,
    Interrogate,
    /// Any other request.
    Other,
}

/// The answer to a control request.
#[derive(Debug, Clone, Copy, PartialEq, Eq, Structural)]
pub enum ControlReply {
    NoError,
    NotImplemented,
}

/// How the service answers a control request, and whether it must shut
/// down: a stop is accepted and shuts the server down, an interrogation is
/// accepted, and anything else is not implemented.
pub fn control_response(control: ServiceControl) -> (r: (ControlReply, bool))
    ensures
        r == (match control {
            ServiceControl::Stop => (ControlReply::NoError, true),
            ServiceControl::Interrogate => (ControlReply::NoError, false),
            ServiceControl::Other => (ControlReply::NotImplemented, false),
        }),
{
    match control {
        ServiceControl::Stop => (ControlReply::NoError, true),
        ServiceControl::Interrogate => (ControlReply::NoError, false),
        ServiceControl::Other => (ControlReply::NotImplemented, false),
    }
}

/// The configuration file used when none is found beside the executable.
pub fn fallback_config_path() -> (r: &'static str)
    ensures
        r@ == "config.toml"@,
{
    "config.toml"
}

/// The configuration file to load: the one beside the executable when it
/// exists, else `config.toml` in the working directory.
pub fn config_path_choice(beside_executable: Option<String>, exists: bool) -> (r: String)
    ensures
        r@ == (match beside_executable {
            Some(p) => if exists {
                p@
            } else {
                "config.toml"@
            },
            None => "config.toml"@,
        }),
{
    match beside_executable {
        Some(p) => if exists {
            p
        } else {
            String::from_str(fallback_config_path())
        },
        None => String::from_str(fallback_config_path()),
    }
}

/// The kind of a service error.
#[derive(Debug, Clone, Copy, PartialEq, Eq, Structural)]
pub enum ServiceErrorKind {
    /// The platform does not offer what was asked.
    Unsupported,
}

/// An error of the service host: its kind and message.
#[derive(Debug, Clone, PartialEq, Eq)]
pub struct ServiceError {
    pub kind: ServiceErrorKind,
    pub message: String,
}

/// Running as a Windows service, where the platform has no service control
/// manager: the request is refused as unsupported, with the reason.
pub fn run_as_service() -> (r: Result<(), ServiceError>)
    ensures
        r matches Err(e) && e.kind == ServiceErrorKind::Unsupported && e.message@
            == "Windows service is only supported on Windows"@,
{
    Err(
        ServiceError {
            kind: ServiceErrorKind::Unsupported,
            message: String::from_str("Windows service is only supported on Windows"),
        },
    )
}

} // verus!
