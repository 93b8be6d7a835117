//! HTTP status codes the services answer with.

use vstd::prelude::*;

verus! {

/// 200 OK.
pub const OK: u16 = 200;
/// 400 Bad Request.
pub const BAD_REQUEST: u16 = 400;
/// 409 Conflict.
pub const CONFLICT: u16 = 409;
/// 413 Payload Too Large.
pub const PAYLOAD_TOO_LARGE: u16 = 413;
/// 415 Unsupported Media Type.
pub const UNSUPPORTED_MEDIA_TYPE: u16 = 415;
/// 500 Internal Server Error.
pub const INTERNAL_SERVER_ERROR: u16 = 500;
/// 502 Bad Gateway.
pub const BAD_GATEWAY: u16 = 502;
/// 503 Service Unavailable.
pub const SERVICE_UNAVAILABLE: u16 = 503;
/// 504 Gateway Timeout.
pub const GATEWAY_TIMEOUT: u16 = 504;

} // verus!
