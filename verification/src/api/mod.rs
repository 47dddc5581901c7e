//! The REST service's own logic: configuration, response envelopes, the
//! transfer objects, and the decisions its handlers make on requests.

pub mod config;
pub mod dto;
pub mod response;
pub mod requests;
pub mod service;

use vstd::prelude::*;

verus! {

/// The state shared by the handlers; the service keeps none.
#[derive(Debug, Default, Clone, Copy)]
pub struct AppState;

} // verus!
