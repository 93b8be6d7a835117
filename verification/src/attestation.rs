//! Source of the attestation the migration API returns with each new migration.
//!
//! The migration enclave has no boot sequence yet, so it cannot produce a Nitro attestation
//! document. Until it can, only the opt-in stub below exists and it never runs in production.

use vstd::prelude::*;

verus! {

/// What the API hands a client about the enclave that will run its migration.
#[derive(Debug, Clone)]
pub struct Attestation {
    /// The enclave the migration runs in.
    pub enclave_id: String,
    /// COSE attestation document, standard padded base64. Empty while stubbed.
    pub document: String,
}

/// Produces attestations for one enclave.
#[derive(Debug, Clone)]
pub struct Attestor {
    enclave_id: String,
}

impl View for Attestor {
    /// The id of the enclave it attests for.
    type V = Seq<char>;

    closed spec fn view(&self) -> Seq<char> {
        self.enclave_id@
    }
}

impl Attestor {
    /// An attestor that serves an empty document for `enclave_id`.
    pub fn stub(enclave_id: String) -> (r: Attestor)
        ensures
            r@ == enclave_id@,
    {
        Attestor { enclave_id }
    }

    /// The attestation for the next migration: the enclave id, and an empty document.
    pub fn attest(&self) -> (r: Attestation)
        ensures
            r.enclave_id@ == self@,
            r.document@ == Seq::<char>::empty(),
    {
        Attestation { enclave_id: self.enclave_id.clone(), document: String::new() }
    }
}

} // verus!
