//! Every `error.code` the host can return.

use vstd::prelude::*;

verus! {

/// The request was not `application/octet-stream`.
pub const UNSUPPORTED_MEDIA_TYPE: &'static str = "unsupported_media_type";
/// The compressed body exceeded the limit.
pub const REQUEST_TOO_LARGE: &'static str = "request_too_large";
/// The body was unreadable or carried no PCP.
pub const INVALID_REQUEST: &'static str = "invalid_request";
/// A migration is already running.
pub const MIGRATION_IN_PROGRESS: &'static str = "migration_in_progress";
/// The PCP was in no supported compression format.
pub const UNSUPPORTED_COMPRESSION: &'static str = "unsupported_compression";
/// The PCP expanded past the limit.
pub const PCP_TOO_LARGE: &'static str = "pcp_too_large";
/// The compressed stream did not decode.
pub const INVALID_PCP: &'static str = "invalid_pcp";
/// The enclave did not finish in time.
pub const ENCLAVE_TIMEOUT: &'static str = "enclave_timeout";
/// The enclave was unreachable.
pub const ENCLAVE_UNREACHABLE: &'static str = "enclave_unreachable";
/// The migration stopped without producing a result.
pub const MIGRATION_ABANDONED: &'static str = "migration_abandoned";
/// The host failed; detail stays in its log.
pub const INTERNAL_ERROR: &'static str = "internal_error";

} // verus!
