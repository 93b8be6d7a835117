//! Runtime configuration of the host.
//!
//! Everything is read once at boot, and a host whose configuration is missing or malformed
//! must not start: one that does not know which enclave to dial would pass its liveness probe
//! and fail every request.

use vstd::prelude::*;

use crate::api_types::{MAX_PCP_BYTES, MAX_REQUEST_BYTES};
use crate::text::{decimal_text, law_decimal_text_parses_back, parse_unsigned, parsed_unsigned};

verus! {

/// Configuration the host resolves at boot.
#[derive(Debug, Clone, Copy, PartialEq, Eq, Structural)]
pub struct Environment {
    enclave_cid: u32,
    enclave_port: u32,
    max_request_bytes: usize,
    max_pcp_bytes: usize,
}

impl View for Environment {
    /// The enclave CID, the enclave port, the body limit and the decompression ceiling.
    type V = (u32, u32, usize, usize);

    closed spec fn view(&self) -> (u32, u32, usize, usize) {
        (self.enclave_cid, self.enclave_port, self.max_request_bytes, self.max_pcp_bytes)
    }
}

/// Why the configuration could not be resolved, naming the variable at fault.
#[derive(Debug, Clone, Copy, PartialEq, Eq)]
pub enum EnvironmentError {
    /// A required variable is not set.
    Unset(&'static str),
    /// A variable is not a valid `u32`.
    NotU32(&'static str),
    /// A variable is not a valid `usize`.
    NotUsize(&'static str),
}

/// What a required `u32` variable resolves to.
pub open spec fn required_u32(value: Option<Seq<char>>) -> Option<u32> {
    match value {
        Some(text) => match parsed_unsigned(text) {
            Some(v) => if v <= u32::MAX { Some(v as u32) } else { None },
            None => None,
        },
        None => None,
    }
}

/// What an optional `usize` variable resolves to: its default when unset.
pub open spec fn optional_usize(value: Option<Seq<char>>, default: usize) -> Option<usize> {
    match value {
        Some(text) => match parsed_unsigned(text) {
            Some(v) => if v <= usize::MAX { Some(v as usize) } else { None },
            None => None,
        },
        None => Some(default),
    }
}

/// A variable's value by its characters.
pub open spec fn var_view(value: Option<&str>) -> Option<Seq<char>> {
    match value {
        Some(v) => Some(v@),
        None => None,
    }
}

fn resolve_required_u32(name: &'static str, value: Option<&str>) -> (r: Result<u32, EnvironmentError>)
    ensures
        value is None ==> r == Err::<u32, EnvironmentError>(EnvironmentError::Unset(name)),
        value is Some ==> match required_u32(var_view(value)) {
            Some(v) => r == Ok::<u32, EnvironmentError>(v),
            None => r == Err::<u32, EnvironmentError>(EnvironmentError::NotU32(name)),
        },
{
    match value {
        None => Err(EnvironmentError::Unset(name)),
        Some(text) => match parse_unsigned(text, u32::MAX as u64) {
            Some(v) => Ok(v as u32),
            None => Err(EnvironmentError::NotU32(name)),
        },
    }
}

fn resolve_optional_usize(name: &'static str, value: Option<&str>, default: usize) -> (r: Result<usize, EnvironmentError>)
    ensures
        match optional_usize(var_view(value), default) {
            Some(v) => r == Ok::<usize, EnvironmentError>(v),
            None => r == Err::<usize, EnvironmentError>(EnvironmentError::NotUsize(name)),
        },
{
    match value {
        None => Ok(default),
        Some(text) => match parse_unsigned(text, usize::MAX as u64) {
            Some(v) => Ok(v as usize),
            None => Err(EnvironmentError::NotUsize(name)),
        },
    }
}

impl Environment {
    /// Resolves the configuration from the values of `ENCLAVE_CID`, `ENCLAVE_PORT`,
    /// `MAX_REQUEST_BYTES` and `MAX_PCP_BYTES` (`None` where a variable is unset), in that
    /// order; the first variable that is unset when required, or malformed, is the error.
    pub fn from_vars(
        enclave_cid: Option<&str>,
        enclave_port: Option<&str>,
        max_request_bytes: Option<&str>,
        max_pcp_bytes: Option<&str>,
    ) -> (r: Result<Environment, EnvironmentError>)
        ensures
            match (
                required_u32(var_view(enclave_cid)),
                required_u32(var_view(enclave_port)),
                optional_usize(var_view(max_request_bytes), MAX_REQUEST_BYTES),
                optional_usize(var_view(max_pcp_bytes), MAX_PCP_BYTES),
            ) {
                (Some(cid), Some(port), Some(request), Some(pcp)) => r matches Ok(environment)
                    && environment@ == (cid, port, request, pcp),
                _ => r is Err,
            },
            r matches Err(e) ==> e == (if enclave_cid is None {
                EnvironmentError::Unset("ENCLAVE_CID")
            } else if required_u32(var_view(enclave_cid)) is None {
                EnvironmentError::NotU32("ENCLAVE_CID")
            } else if enclave_port is None {
                EnvironmentError::Unset("ENCLAVE_PORT")
            } else if required_u32(var_view(enclave_port)) is None {
                EnvironmentError::NotU32("ENCLAVE_PORT")
            } else if optional_usize(var_view(max_request_bytes), MAX_REQUEST_BYTES) is None {
                EnvironmentError::NotUsize("MAX_REQUEST_BYTES")
            } else {
                EnvironmentError::NotUsize("MAX_PCP_BYTES")
            }),
    {
        let enclave_cid = resolve_required_u32("ENCLAVE_CID", enclave_cid)?;
        let enclave_port = resolve_required_u32("ENCLAVE_PORT", enclave_port)?;
        let max_request_bytes = resolve_optional_usize("MAX_REQUEST_BYTES", max_request_bytes, MAX_REQUEST_BYTES)?;
        let max_pcp_bytes = resolve_optional_usize("MAX_PCP_BYTES", max_pcp_bytes, MAX_PCP_BYTES)?;
        Ok(Environment { enclave_cid, enclave_port, max_request_bytes, max_pcp_bytes })
    }

    /// Builds a configuration directly, for tests that must not read the process environment.
    pub fn for_tests(enclave_cid: u32, enclave_port: u32, max_request_bytes: usize, max_pcp_bytes: usize) -> (r:
        Environment)
        ensures
            r@ == (enclave_cid, enclave_port, max_request_bytes, max_pcp_bytes),
    {
        Environment { enclave_cid, enclave_port, max_request_bytes, max_pcp_bytes }
    }

    /// The Nitro enclave CID to dial.
    pub fn enclave_cid(&self) -> (r: u32)
        ensures
            r == self@.0,
    {
        self.enclave_cid
    }

    /// The enclave's Pontifex vsock port.
    pub fn enclave_port(&self) -> (r: u32)
        ensures
            r == self@.1,
    {
        self.enclave_port
    }

    /// The largest compressed request body the host accepts.
    pub fn max_request_bytes(&self) -> (r: usize)
        ensures
            r == self@.2,
    {
        self.max_request_bytes
    }

    /// The largest PCP the host will decompress to.
    pub fn max_pcp_bytes(&self) -> (r: usize)
        ensures
            r == self@.3,
    {
        self.max_pcp_bytes
    }
}

/// A limit that is set is the number it is set to, whatever its default: set to the decimal
/// text of any `usize` `n`, an optional `usize` variable resolves to `n`; unset, to its default.
pub proof fn law_a_set_limit_is_the_number_written(n: usize, default: usize)
    ensures
        optional_usize(Some(decimal_text(n as nat)), default) == Some(n),
        optional_usize(None, default) == Some(default),
{
    law_decimal_text_parses_back(n as nat);
}

/// A required `u32` variable set to the decimal text of any `u32` `n` resolves to `n`.
pub proof fn law_a_set_u32_is_the_number_written(n: u32)
    ensures
        required_u32(Some(decimal_text(n as nat))) == Some(n),
{
    law_decimal_text_parses_back(n as nat);
}

} // verus!
