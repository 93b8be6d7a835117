//! The enclave workload of the dev migration setup: no attestation, no keys, no decryption.
//! Until the sandboxed pipeline lands, a migration echoes the PCP back.

use vstd::prelude::*;

use crate::enclave_types::{Error, MigrateRequest, MigrateResponse};

verus! {

/// Settings fixed for the life of the enclave; the pipeline handle lands here.
#[derive(Debug, Clone, Copy)]
pub struct EnclaveState;

/// Migrates one PCP: echoes it back, refusing a request that carries none.
pub fn migrate(_state: &EnclaveState, request: MigrateRequest) -> (r: Result<MigrateResponse, Error>)
    ensures
        request.pcp@.len() == 0 <==> r matches Err(Error::EmptyPcp),
        request.pcp@.len() != 0 ==> (r matches Ok(response) && response.pcp@ == request.pcp@),
{
    if request.pcp.len() == 0 {
        return Err(Error::EmptyPcp);
    }
    Ok(MigrateResponse { pcp: request.pcp })
}

/// Answers the host's health check.
pub fn health(_state: &EnclaveState) -> (r: Result<(), Error>)
    ensures
        r is Ok,
{
    Ok(())
}

} // verus!
