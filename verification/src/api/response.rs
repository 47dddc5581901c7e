//! The envelope every endpoint answers with, and the error replies.

use vstd::prelude::*;

verus! {

/// HTTP status of a malformed request.
pub const STATUS_BAD_REQUEST: u16 = 400;
/// HTTP status of a missing object.
pub const STATUS_NOT_FOUND: u16 = 404;
/// HTTP status of a failed operation.
pub const STATUS_INTERNAL_SERVER_ERROR: u16 = 500;
/// HTTP status of an operation this platform does not offer.
pub const STATUS_NOT_IMPLEMENTED: u16 = 501;

/// A response body: either the data of a success or an error message.
#[derive(Debug, Clone, PartialEq, Eq)]
pub struct ApiResponse<T> {
    pub success: bool,
    pub data: Option<T>,
    pub error: Option<String>,
}

impl<T> ApiResponse<T> {
    /// A successful response carrying `data`.
    pub fn success(data: T) -> (r: Self)
        ensures
            r.success,
            r.data == Some(data),
            r.error is None,
    {
        ApiResponse { success: true, data: Some(data), error: None }
    }

    /// A failed response carrying `message`.
    pub fn error(message: &str) -> (r: Self)
        ensures
            !r.success,
            r.data is None,
            r.error matches Some(e) && e@ == message@,
    {
        ApiResponse { success: false, data: None, error: Some(String::from_str(message)) }
    }
}

/// An error reply: the HTTP status and the body.
#[derive(Debug, Clone, PartialEq, Eq)]
pub struct ApiError {
    pub status: u16,
    pub body: ApiResponse<()>,
}

/// An error reply with `status` and `message`.
pub fn api_error(status: u16, message: &str) -> (r: ApiError)
    ensures
        r.status == status,
        !r.body.success,
        r.body.data is None,
        r.body.error matches Some(e) && e@ == message@,
{
    ApiError { status, body: ApiResponse::error(message) }
}

/// The reply of every cluster endpoint where the cluster API is not offered.
pub fn cluster_not_supported() -> (r: ApiError)
    ensures
        r.status == STATUS_NOT_IMPLEMENTED,
        !r.body.success,
        r.body.error matches Some(e) && e@ == "Cluster API only available on Windows"@,
{
    api_error(STATUS_NOT_IMPLEMENTED, "Cluster API only available on Windows")
}

/// The reply of every Hyper-V endpoint where the Hyper-V API is not offered.
pub fn hyperv_not_supported() -> (r: ApiError)
    ensures
        r.status == STATUS_NOT_IMPLEMENTED,
        !r.body.success,
        r.body.error matches Some(e) && e@ == "Hyper-V API only available on Windows"@,
{
    api_error(STATUS_NOT_IMPLEMENTED, "Hyper-V API only available on Windows")
}

/// The text of the root endpoint.
pub fn root_message() -> (r: &'static str)
    ensures
        r@ == "Windows Infrastructure Management API - Use /api/v1/cluster or /api/v1/hyperv"@,
{
    "Windows Infrastructure Management API - Use /api/v1/cluster or /api/v1/hyperv"
}

/// The body of the health endpoint: success with "ok".
pub fn health() -> (r: ApiResponse<&'static str>)
    ensures
        r.success,
        r.data matches Some(d) && d@ == "ok"@,
        r.error is None,
{
    ApiResponse::success("ok")
}

} // verus!
