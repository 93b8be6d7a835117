//! Every route of the host answers failures with an `ApiError`, so status, body and retry
//! advice are decided in one place. Constructors are per route rather than one blanket
//! conversion: the mapping depends on the context.

use vstd::prelude::*;

use crate::api_types::{ErrorBody, ErrorEnvelope, spec_is_client_error};
use crate::codes;
use crate::compression;
use crate::enclave_client;
use crate::enclave_types;
use crate::migrations::{Failure, FailureView};
use crate::status;
use crate::text::{decimal_text, push_decimal};

verus! {

/// An API failure, with the status and body to return for it.
#[derive(Debug)]
pub struct ApiError {
    status: u16,
    code: &'static str,
    message: &'static str,
    allow_retry: bool,
    /// Log-only context; never serialized, since it may name internals.
    detail: Option<String>,
}

/// An `ApiError` by the values it holds.
pub struct ApiErrorView {
    pub status: u16,
    pub code: Seq<char>,
    pub message: Seq<char>,
    pub allow_retry: bool,
    pub detail: Option<Seq<char>>,
}

/// An error answer without detail.
pub open spec fn plain(status: u16, code: Seq<char>, message: Seq<char>, allow_retry: bool) -> ApiErrorView {
    ApiErrorView { status, code, message, allow_retry, detail: None }
}

/// `e` with `detail` attached.
pub open spec fn detailed(e: ApiErrorView, detail: Seq<char>) -> ApiErrorView {
    ApiErrorView { detail: Some(detail), ..e }
}

impl View for ApiError {
    type V = ApiErrorView;

    closed spec fn view(&self) -> ApiErrorView {
        ApiErrorView {
            status: self.status,
            code: self.code@,
            message: self.message@,
            allow_retry: self.allow_retry,
            detail: match self.detail {
                Some(d) => Some(d@),
                None => None,
            },
        }
    }
}

/// The answer to a payload that did not decompress.
pub open spec fn payload_error(error: compression::ErrorView) -> ApiErrorView {
    match error {
        compression::ErrorView::UnknownFormat => plain(
            status::UNSUPPORTED_MEDIA_TYPE,
            codes::UNSUPPORTED_COMPRESSION@,
            "The PCP must be gzip compressed"@,
            false,
        ),
        compression::ErrorView::TooLarge { limit } => detailed(
            plain(status::PAYLOAD_TOO_LARGE, codes::PCP_TOO_LARGE@, "The PCP expanded past the size limit"@, false),
            "limit "@ + decimal_text(limit as nat) + " bytes"@,
        ),
        compression::ErrorView::Corrupt(_, detail) => detailed(
            plain(status::BAD_REQUEST, codes::INVALID_PCP@, "The compressed PCP could not be read"@, false),
            detail,
        ),
    }
}

/// The answer when the enclave answered with an error.
pub open spec fn rejection_error(operation: enclave_types::Error) -> ApiErrorView {
    match operation {
        enclave_types::Error::EmptyPcp => detailed(
            plain(status::INTERNAL_SERVER_ERROR, codes::INTERNAL_ERROR@, "Internal server error"@, false),
            "enclave rejected a payload the host accepted: EmptyPcp"@,
        ),
        enclave_types::Error::Internal => detailed(
            plain(status::INTERNAL_SERVER_ERROR, codes::INTERNAL_ERROR@, "Internal server error"@, true),
            "Internal"@,
        ),
    }
}

/// The answer when the enclave did not finish in time.
pub open spec fn timeout_error() -> ApiErrorView {
    plain(status::GATEWAY_TIMEOUT, codes::ENCLAVE_TIMEOUT@, "The enclave did not finish the migration in time"@, true)
}

/// The answer when the enclave could not be reached.
pub open spec fn unreachable_error(detail: Seq<char>) -> ApiErrorView {
    detailed(
        plain(status::BAD_GATEWAY, codes::ENCLAVE_UNREACHABLE@, "The enclave was unreachable"@, true),
        detail,
    )
}

/// The answer to a migration's recorded failure, on the collection route.
pub open spec fn failure_error(failure: FailureView) -> ApiErrorView {
    match failure {
        FailureView::EnclaveTimeout => timeout_error(),
        FailureView::EnclaveUnreachable(detail) => unreachable_error(detail),
        FailureView::EnclaveRejected(operation) => rejection_error(operation),
        FailureView::Abandoned => plain(
            status::INTERNAL_SERVER_ERROR,
            codes::MIGRATION_ABANDONED@,
            "The migration stopped without producing a result"@,
            true,
        ),
    }
}

/// The answer to an enclave call that failed while a submission waited on it.
pub open spec fn enclave_error(error: enclave_client::ErrorView) -> ApiErrorView {
    match error {
        enclave_client::ErrorView::Timeout => timeout_error(),
        enclave_client::ErrorView::Transport(detail) => unreachable_error(detail),
        enclave_client::ErrorView::Operation(operation) => rejection_error(operation),
    }
}

/// The body an error answer carries.
pub open spec fn envelope_of(e: ApiErrorView) -> (bool, Seq<char>, Seq<char>) {
    (e.allow_retry, e.code, e.message)
}

/// An envelope by the values it holds.
pub open spec fn envelope_view(envelope: ErrorEnvelope) -> (bool, Seq<char>, Seq<char>) {
    (envelope.allow_retry, envelope.error.code@, envelope.error.message@)
}

impl ApiError {
    /// Creates an error with the given status and body.
    pub fn new(status: u16, code: &'static str, message: &'static str, allow_retry: bool) -> (r: ApiError)
        ensures
            r@ == plain(status, code@, message@, allow_retry),
    {
        ApiError { status, code, message, allow_retry, detail: None }
    }

    /// Attaches context that is logged but not returned to the client.
    pub fn with_detail(self, detail: String) -> (r: ApiError)
        ensures
            r@ == detailed(self@, detail@),
    {
        ApiError { detail: Some(detail), ..self }
    }

    /// The status this error will return.
    pub fn status(&self) -> (r: u16)
        ensures
            r == self@.status,
    {
        self.status
    }

    /// The machine-readable code this error will return.
    pub fn code(&self) -> (r: &'static str)
        ensures
            r@ == self@.code,
    {
        self.code
    }

    /// The human-readable message this error will return.
    pub fn message(&self) -> (r: &'static str)
        ensures
            r@ == self@.message,
    {
        self.message
    }

    /// Whether the client is told to retry.
    pub fn allow_retry(&self) -> (r: bool)
        ensures
            r == self@.allow_retry,
    {
        self.allow_retry
    }

    /// The log-only context, if any.
    pub fn detail(&self) -> (r: &Option<String>)
        ensures
            match (r, self@.detail) {
                (Some(d), Some(v)) => d@ == v,
                (None, None) => true,
                _ => false,
            },
    {
        &self.detail
    }

    /// The body to send for this error; the detail is never part of it.
    pub fn envelope(&self) -> (r: ErrorEnvelope)
        ensures
            envelope_view(r) == envelope_of(self@),
    {
        ErrorEnvelope {
            allow_retry: self.allow_retry,
            error: ErrorBody { code: self.code.to_owned(), message: self.message.to_owned() },
        }
    }

    /// Maps a payload that did not decompress; all client-side, so none of them retry.
    pub fn payload(error: &compression::Error) -> (r: ApiError)
        ensures
            r@ == payload_error(error@),
            spec_is_client_error(r@.status),
            !r@.allow_retry,
    {
        match error {
            compression::Error::UnknownFormat => ApiError::new(
                status::UNSUPPORTED_MEDIA_TYPE,
                codes::UNSUPPORTED_COMPRESSION,
                "The PCP must be gzip compressed",
                false,
            ),
            compression::Error::TooLarge { limit } => {
                let mut detail = "limit ".to_owned();
                push_decimal(&mut detail, *limit as u64);
                detail.append(" bytes");
                ApiError::new(
                    status::PAYLOAD_TOO_LARGE,
                    codes::PCP_TOO_LARGE,
                    "The PCP expanded past the size limit",
                    false,
                ).with_detail(detail)
            },
            compression::Error::Corrupt(_, detail) => ApiError::new(
                status::BAD_REQUEST,
                codes::INVALID_PCP,
                "The compressed PCP could not be read",
                false,
            ).with_detail(detail.clone()),
        }
    }

    /// Maps a migration's recorded failure, on the collection route.
    pub fn migration_failure(failure: &Failure) -> (r: ApiError)
        ensures
            r@ == failure_error(failure@),
    {
        match failure {
            Failure::EnclaveTimeout | Failure::EnclaveUnreachable(_) => ApiError::enclave_unreachable(failure),
            Failure::EnclaveRejected(operation) => ApiError::enclave_rejected(*operation),
            // The slot guard fired; the client just resubmits.
            Failure::Abandoned => ApiError::new(
                status::INTERNAL_SERVER_ERROR,
                codes::MIGRATION_ABANDONED,
                "The migration stopped without producing a result",
                true,
            ),
        }
    }

    /// Maps an enclave call that failed while a submission waited on it.
    pub fn enclave(error: &enclave_client::Error) -> (r: ApiError)
        ensures
            r@ == enclave_error(error@),
    {
        match error {
            enclave_client::Error::Timeout => ApiError::new(
                status::GATEWAY_TIMEOUT,
                codes::ENCLAVE_TIMEOUT,
                "The enclave did not finish the migration in time",
                true,
            ),
            enclave_client::Error::Transport(detail) => ApiError::new(
                status::BAD_GATEWAY,
                codes::ENCLAVE_UNREACHABLE,
                "The enclave was unreachable",
                true,
            ).with_detail(detail.clone()),
            enclave_client::Error::Operation(operation) => ApiError::enclave_rejected(*operation),
        }
    }

    /// The answer when a migration already holds the single slot; retryable once it finishes.
    pub fn migration_in_progress() -> (r: ApiError)
        ensures
            r@ == plain(
                status::CONFLICT,
                codes::MIGRATION_IN_PROGRESS@,
                "A migration is already running; retry once it finishes"@,
                true,
            ),
    {
        ApiError::new(
            status::CONFLICT,
            codes::MIGRATION_IN_PROGRESS,
            "A migration is already running; retry once it finishes",
            true,
        )
    }

    /// The migration never reached a working enclave.
    fn enclave_unreachable(failure: &Failure) -> (r: ApiError)
        requires
            failure is EnclaveTimeout || failure is EnclaveUnreachable,
        ensures
            r@ == failure_error(failure@),
    {
        match failure {
            Failure::EnclaveUnreachable(detail) => ApiError::new(
                status::BAD_GATEWAY,
                codes::ENCLAVE_UNREACHABLE,
                "The enclave was unreachable",
                true,
            ).with_detail(detail.clone()),
            _ => ApiError::new(
                status::GATEWAY_TIMEOUT,
                codes::ENCLAVE_TIMEOUT,
                "The enclave did not finish the migration in time",
                true,
            ),
        }
    }

    /// The enclave answered, with an error.
    fn enclave_rejected(operation: enclave_types::Error) -> (r: ApiError)
        ensures
            r@ == rejection_error(operation),
    {
        match operation {
            // The host rejects empty bodies first, so this means mismatched deploys.
            enclave_types::Error::EmptyPcp => ApiError::new(
                status::INTERNAL_SERVER_ERROR,
                codes::INTERNAL_ERROR,
                "Internal server error",
                false,
            ).with_detail("enclave rejected a payload the host accepted: EmptyPcp".to_owned()),
            enclave_types::Error::Internal => ApiError::new(
                status::INTERNAL_SERVER_ERROR,
                codes::INTERNAL_ERROR,
                "Internal server error",
                true,
            ).with_detail("Internal".to_owned()),
        }
    }
}

/// The detail of an error is logged, never sent: attaching one leaves the body unchanged.
pub proof fn law_detail_is_never_serialized(e: ApiErrorView, detail: Seq<char>)
    ensures
        envelope_of(detailed(e, detail)) == envelope_of(e),
{
}

/// A transport failure on the way to the enclave (no answer in time, or none at all) is a
/// server-side error the client may retry, on either route.
pub proof fn law_transport_failures_are_retryable(detail: Seq<char>)
    ensures
        enclave_error(enclave_client::ErrorView::Timeout).allow_retry,
        enclave_error(enclave_client::ErrorView::Transport(detail)).allow_retry,
        failure_error(FailureView::EnclaveTimeout).allow_retry,
        failure_error(FailureView::EnclaveUnreachable(detail)).allow_retry,
        500 <= enclave_error(enclave_client::ErrorView::Timeout).status < 600,
        500 <= enclave_error(enclave_client::ErrorView::Transport(detail)).status < 600,
{
}

/// Every recorded failure is answered with a server error, and every one of them may be retried
/// but one: an enclave that rejected an empty PCP, which means mismatched deploys rather than a
/// passing fault.
pub proof fn law_only_a_mismatched_deploy_is_not_retryable(failure: FailureView)
    ensures
        500 <= failure_error(failure).status < 600,
        failure_error(failure).allow_retry <==> failure != FailureView::EnclaveRejected(enclave_types::Error::EmptyPcp),
{
}

} // verus!
