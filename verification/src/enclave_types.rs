//! The vsock contract between the dev host and its enclave.

use vstd::prelude::*;

verus! {

/// vsock port the enclave serves and the host dials; both sides ship together.
pub const PONTIFEX_PORT: u32 = 1000;

/// Route under which the enclave serves the migration of one PCP.
pub const MIGRATE_ROUTE_ID: &'static str = "/v1/migrate";

/// Errors returned by enclave operations.
#[derive(Debug, Clone, Copy, PartialEq, Eq, Structural)]
pub enum Error {
    /// The request carried no PCP.
    EmptyPcp,
    /// The enclave failed while producing a response; detail stays in its log.
    Internal,
}

/// Requests the migration of one PCP.
#[derive(Debug, Clone)]
pub struct MigrateRequest {
    /// The decompressed PCP, relayed verbatim.
    pub pcp: Vec<u8>,
}

/// The migrated PCP.
#[derive(Debug, PartialEq, Eq)]
pub struct MigrateResponse {
    /// The migrated PCP, echoed verbatim until the pipeline runs in the sandbox.
    pub pcp: Vec<u8>,
}

} // verus!
