//! The decisions the host's routes make around their awaits: what a submission must look like
//! before it may take the migration slot, and what readiness reports.

use vstd::prelude::*;

use crate::api_error::{ApiError, ApiErrorView, detailed, payload_error, plain};
use crate::api_types::MIGRATION_CONTENT_TYPE;
use crate::codes;
use crate::compression::{self, spec_decompress};
use crate::enclave_client;
use crate::status;
use crate::text::text_eq;

verus! {

/// Why the request body could not be read: the status the body extractor chose, and its message.
#[derive(Debug)]
pub struct BodyRejection {
    /// The status the extractor would have answered with.
    pub status: u16,
    /// What went wrong, for the log.
    pub message: String,
}

/// What a submission comes to before it takes the slot: the decompressed PCP, or the answer
/// to refuse it with. The content type is checked first, then the body, then the payload.
pub open spec fn spec_check_submission(
    content_type: Option<Seq<char>>,
    body: Result<Seq<u8>, (u16, Seq<char>)>,
    limit: usize,
) -> Result<Seq<u8>, ApiErrorView> {
    if content_type != Some(MIGRATION_CONTENT_TYPE@) {
        Err(plain(status::UNSUPPORTED_MEDIA_TYPE, codes::UNSUPPORTED_MEDIA_TYPE@, "Expected application/octet-stream"@, false))
    } else {
        match body {
            Err((rejected, message)) => if rejected == status::PAYLOAD_TOO_LARGE {
                Err(plain(status::PAYLOAD_TOO_LARGE, codes::REQUEST_TOO_LARGE@, "The compressed PCP exceeded the body limit"@, false))
            } else {
                Err(detailed(plain(status::BAD_REQUEST, codes::INVALID_REQUEST@, "Could not read the request body"@, false), message))
            },
            Ok(bytes) => if bytes.len() == 0 {
                Err(plain(status::BAD_REQUEST, codes::INVALID_REQUEST@, "The request carried no PCP"@, false))
            } else {
                match spec_decompress(bytes, limit) {
                    Ok(pcp) => Ok(pcp),
                    Err(e) => Err(payload_error(e)),
                }
            },
        }
    }
}

/// A submission's content type by its characters.
pub open spec fn content_type_view(content_type: Option<&str>) -> Option<Seq<char>> {
    match content_type {
        Some(t) => Some(t@),
        None => None,
    }
}

/// A submission's body by the values it holds.
pub open spec fn body_view(body: Result<Vec<u8>, BodyRejection>) -> Result<Seq<u8>, (u16, Seq<char>)> {
    match body {
        Ok(bytes) => Ok(bytes@),
        Err(rejection) => Err((rejection.status, rejection.message@)),
    }
}

/// A submission's outcome by the values it holds.
pub open spec fn checked_view(r: Result<Vec<u8>, ApiError>) -> Result<Seq<u8>, ApiErrorView> {
    match r {
        Ok(pcp) => Ok(pcp@),
        Err(e) => Err(e@),
    }
}

/// Checks a submission before it may take the migration slot, so a malformed payload never
/// holds it: the content type, the body, and that the payload decompresses within `limit`.
pub fn check_submission(content_type: Option<&str>, body: Result<Vec<u8>, BodyRejection>, limit: usize) -> (r: Result<
    Vec<u8>,
    ApiError,
>)
    requires
        limit < u64::MAX,
    ensures
        checked_view(r) == spec_check_submission(content_type_view(content_type), body_view(body), limit),
{
    let expected = match content_type {
        Some(t) => text_eq(t, MIGRATION_CONTENT_TYPE),
        None => false,
    };
    if !expected {
        return Err(ApiError::new(
            status::UNSUPPORTED_MEDIA_TYPE,
            codes::UNSUPPORTED_MEDIA_TYPE,
            "Expected application/octet-stream",
            false,
        ));
    }
    let body = match body {
        Ok(bytes) => bytes,
        Err(rejection) => {
            if rejection.status == status::PAYLOAD_TOO_LARGE {
                return Err(ApiError::new(
                    status::PAYLOAD_TOO_LARGE,
                    codes::REQUEST_TOO_LARGE,
                    "The compressed PCP exceeded the body limit",
                    false,
                ));
            }
            return Err(ApiError::new(
                status::BAD_REQUEST,
                codes::INVALID_REQUEST,
                "Could not read the request body",
                false,
            ).with_detail(rejection.message));
        },
    };
    if body.len() == 0 {
        return Err(ApiError::new(status::BAD_REQUEST, codes::INVALID_REQUEST, "The request carried no PCP", false));
    }
    match compression::decompress(body.as_slice(), limit) {
        Ok(pcp) => Ok(pcp),
        Err(error) => Err(ApiError::payload(&error)),
    }
}

/// Readiness: the host takes traffic only once the enclave answers its health check.
pub fn readiness(health: &Result<(), enclave_client::Error>) -> (r: u16)
    ensures
        r == (if health is Ok { status::OK } else { status::SERVICE_UNAVAILABLE }),
{
    match health {
        Ok(()) => status::OK,
        Err(_) => status::SERVICE_UNAVAILABLE,
    }
}

/// A submission is only ever refused with a client error before the enclave is involved, and
/// nothing about it is retryable: the same bytes would be refused again.
pub proof fn law_a_refused_submission_is_not_retryable(
    content_type: Option<Seq<char>>,
    body: Result<Seq<u8>, (u16, Seq<char>)>,
    limit: usize,
)
    ensures
        spec_check_submission(content_type, body, limit) matches Err(e) ==> 400 <= e.status < 500
            && !e.allow_retry,
{
}

/// Once a submission has the binary content type and a non-empty body, it is refused exactly when
/// decompressing that body within `limit` fails, whichever format the body is in: whatever
/// `decompress` gives back is the PCP the submission goes on with, and a decompression failure is
/// answered as that failure.
pub proof fn law_a_readable_submission_is_what_its_decompression_gives(bytes: Seq<u8>, limit: usize)
    requires
        bytes.len() > 0,
    ensures
        spec_check_submission(Some(MIGRATION_CONTENT_TYPE@), Ok(bytes), limit) is Ok <==> spec_decompress(bytes, limit) is Ok,
        spec_decompress(bytes, limit) matches Ok(pcp) ==> spec_check_submission(Some(MIGRATION_CONTENT_TYPE@), Ok(bytes), limit)
            == Ok::<Seq<u8>, ApiErrorView>(pcp),
        spec_decompress(bytes, limit) matches Err(e) ==> spec_check_submission(Some(MIGRATION_CONTENT_TYPE@), Ok(bytes), limit)
            == Err::<Seq<u8>, ApiErrorView>(payload_error(e)),
{
}

} // verus!
