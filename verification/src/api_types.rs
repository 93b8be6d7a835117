//! The HTTP contract between the dev client and its host: status codes, error codes and the
//! error envelope.

use vstd::prelude::*;

verus! {

/// Media type for the compressed PCP sent in, and the migrated PCP that comes back.
pub const MIGRATION_CONTENT_TYPE: &'static str = "application/octet-stream";

/// The largest PCP the host accepts, compressed or decompressed.
pub const MAX_PCP_BYTES: usize = 32 * 1024 * 1024;

/// The largest compressed request body the host accepts; the same number as the decompression
/// ceiling.
pub const MAX_REQUEST_BYTES: usize = 32 * 1024 * 1024;

/// `status` is a client error (4xx).
pub open spec fn spec_is_client_error(status: u16) -> bool {
    400 <= status < 500
}

/// `status` is a server error (5xx).
pub open spec fn spec_is_server_error(status: u16) -> bool {
    500 <= status < 600
}

/// Whether `status` is a client error (4xx).
pub fn is_client_error(status: u16) -> (r: bool)
    ensures
        r == spec_is_client_error(status),
{
    400 <= status && status < 500
}

/// Whether `status` is a server error (5xx).
pub fn is_server_error(status: u16) -> (r: bool)
    ensures
        r == spec_is_server_error(status),
{
    500 <= status && status < 600
}

/// The machine-readable part of an error answer.
#[derive(Debug, PartialEq, Eq)]
pub struct ErrorBody {
    /// One of `codes`.
    pub code: String,
    /// A human-readable message.
    pub message: String,
}

/// The body of every error answer.
#[derive(Debug, PartialEq, Eq)]
pub struct ErrorEnvelope {
    /// Whether the client may retry the request unchanged.
    pub allow_retry: bool,
    /// What went wrong.
    pub error: ErrorBody,
}

/// `POST /v1/migrations` answer; poll for the result.
#[derive(Debug, Clone, Copy, PartialEq, Eq, Structural)]
pub struct MigrationAccepted {
    /// Identifies the migration, as the 128 bits of its UUID.
    pub id: u128,
}

} // verus!
