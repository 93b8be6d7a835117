use axum::http::StatusCode;
use di_migration::api_error::ApiError;
use di_migration::compression;
use di_migration::enclave_client;
use di_migration::enclave_types;
use di_migration::migrations::Failure;

fn client_error(status: u16) -> bool {
    StatusCode::from_u16(status).expect("a status").is_client_error()
}

/// Pins the payload matrix; a retry loop on unchangeable bytes is what this guards.
#[test]
fn every_payload_failure_is_a_client_error_and_not_retryable() {
    let cases = [
        (
            compression::Error::UnknownFormat,
            StatusCode::UNSUPPORTED_MEDIA_TYPE,
            "unsupported_compression",
        ),
        (
            compression::Error::TooLarge { limit: 64 },
            StatusCode::PAYLOAD_TOO_LARGE,
            "pcp_too_large",
        ),
        (
            compression::Error::Corrupt("gzip", "truncated".to_owned()),
            StatusCode::BAD_REQUEST,
            "invalid_pcp",
        ),
    ];

    for (error, status, code) in cases {
        let mapped = ApiError::payload(&error);

        assert_eq!(mapped.status(), status.as_u16(), "status for {code}");
        assert_eq!(mapped.code(), code);
        assert!(client_error(mapped.status()), "{code} should be 4xx");
        assert!(!mapped.allow_retry(), "{code} should not be retryable");
    }
}

/// Pins the failure matrix; nothing else fails if one arm is changed alone.
#[test]
fn each_migration_failure_maps_to_its_own_status() {
    let cases = [
        (Failure::EnclaveTimeout, StatusCode::GATEWAY_TIMEOUT, "enclave_timeout", true),
        (
            Failure::EnclaveUnreachable("boom".to_owned()),
            StatusCode::BAD_GATEWAY,
            "enclave_unreachable",
            true,
        ),
        (
            Failure::EnclaveRejected(enclave_types::Error::Internal),
            StatusCode::INTERNAL_SERVER_ERROR,
            "internal_error",
            true,
        ),
        (Failure::Abandoned, StatusCode::INTERNAL_SERVER_ERROR, "migration_abandoned", true),
    ];

    for (failure, status, code, allow_retry) in cases {
        let mapped = ApiError::migration_failure(&failure);

        assert_eq!(mapped.status(), status.as_u16(), "status for {failure:?}");
        assert_eq!(mapped.code(), code, "code for {failure:?}");
        assert_eq!(mapped.allow_retry(), allow_retry, "retryability for {failure:?}");
    }
}

/// The one enclave rejection that is not retryable: mismatched deploys, not bad input.
#[test]
fn a_rejection_the_host_should_have_caught_is_not_retryable() {
    let operation = enclave_types::Error::EmptyPcp;
    let mapped = ApiError::migration_failure(&Failure::EnclaveRejected(operation));

    assert_eq!(mapped.status(), StatusCode::INTERNAL_SERVER_ERROR.as_u16());
    assert_eq!(mapped.code(), "internal_error");
    assert!(!mapped.allow_retry(), "{operation:?} should not be retried");
}

/// The diagnosing arm's detail must not be overwritten by a generic one.
#[test]
fn a_limit_disagreement_keeps_its_diagnostic_detail() {
    let mapped = ApiError::migration_failure(&Failure::EnclaveRejected(enclave_types::Error::EmptyPcp));

    assert_eq!(
        mapped.detail().as_deref(),
        Some("enclave rejected a payload the host accepted: EmptyPcp")
    );
}

#[test]
fn a_too_large_payload_records_its_limit_in_the_detail() {
    let mapped = ApiError::payload(&compression::Error::TooLarge { limit: 33554432 });

    assert_eq!(mapped.detail().as_deref(), Some("limit 33554432 bytes"));
}

#[test]
fn the_envelope_carries_no_detail() {
    let mapped = ApiError::new(502, "enclave_unreachable", "The enclave was unreachable", true)
        .with_detail("connection refused to cid 7".to_owned());
    let envelope = mapped.envelope();

    assert!(envelope.allow_retry);
    assert_eq!(envelope.error.code, "enclave_unreachable");
    assert_eq!(envelope.error.message, "The enclave was unreachable");
    assert_eq!(mapped.detail().as_deref(), Some("connection refused to cid 7"));
}

#[test]
fn enclave_errors_map_like_the_failures_they_record() {
    let timeout = ApiError::enclave(&enclave_client::Error::Timeout);
    assert_eq!(timeout.status(), 504);
    assert_eq!(timeout.code(), "enclave_timeout");
    assert!(timeout.allow_retry());

    let unreachable = ApiError::enclave(&enclave_client::Error::Transport("refused".to_owned()));
    assert_eq!(unreachable.status(), 502);
    assert_eq!(unreachable.code(), "enclave_unreachable");
    assert_eq!(unreachable.detail().as_deref(), Some("refused"));

    let internal = ApiError::enclave(&enclave_client::Error::Operation(enclave_types::Error::Internal));
    assert_eq!(internal.status(), 500);
    assert!(internal.allow_retry());
}

#[test]
fn a_busy_slot_is_a_retryable_conflict() {
    let busy = ApiError::migration_in_progress();

    assert_eq!(busy.status(), StatusCode::CONFLICT.as_u16());
    assert_eq!(busy.code(), "migration_in_progress");
    assert!(busy.allow_retry());
}
