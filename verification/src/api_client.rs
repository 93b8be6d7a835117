//! What the migration API answers when a migration is initiated, shared by the API and its
//! client.

use vstd::prelude::*;

verus! {

/// `POST /v1/init-migration` answer.
#[derive(Debug, Clone, PartialEq, Eq)]
pub struct InitMigrationResponse {
    /// The enclave the migration runs in.
    pub enclave_id: String,
    /// COSE attestation document, standard padded base64.
    pub attestation: String,
    /// Presigned S3 URL the PCP is uploaded to with `PUT`.
    pub presigned_url: String,
}

/// `status` is a success (2xx).
pub open spec fn spec_is_success(status: u16) -> bool {
    200 <= status < 300
}

/// Whether the API answered with a success status; anything else is surfaced as the
/// unexpected status it is.
pub fn is_success(status: u16) -> (r: bool)
    ensures
        r == spec_is_success(status),
{
    200 <= status && status < 300
}

} // verus!
