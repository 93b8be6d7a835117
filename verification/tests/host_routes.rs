use std::io::Write;

use axum::http::StatusCode;
use di_migration::api_error::ApiError;
use di_migration::api_types::{MAX_PCP_BYTES, MIGRATION_CONTENT_TYPE};
use di_migration::enclave::{migrate, EnclaveState};
use di_migration::enclave_client::{self, flatten};
use di_migration::enclave_types::{self, MigrateRequest, MigrateResponse};
use di_migration::host_routes::{check_submission, readiness, BodyRejection};
use di_migration::migrations::Store;

const PCP: &[u8] = b"a perfectly ordinary pcp";

fn gzip(payload: &[u8]) -> Vec<u8> {
    let mut encoder = flate2::write::GzEncoder::new(Vec::new(), flate2::Compression::default());
    encoder.write_all(payload).expect("should encode");
    encoder.finish().expect("should finish")
}

fn submit(body: Vec<u8>) -> Result<Vec<u8>, ApiError> {
    check_submission(Some(MIGRATION_CONTENT_TYPE), Ok(body), MAX_PCP_BYTES)
}

#[test]
fn a_pcp_comes_back_migrated_and_decompressed() {
    let pcp = submit(gzip(PCP)).expect("should pass the checks");
    let migrated = migrate(&EnclaveState, MigrateRequest { pcp }).expect("should echo");

    assert_eq!(migrated.pcp, PCP);
}

/// The second claim on the store arrives while the first holds it, and busy is answered 409.
#[test]
fn a_second_claim_is_refused_while_one_runs_and_busy_is_a_conflict() {
    let mut store = Store::new();
    let first = store.start().expect("slot is free");

    assert!(store.start().is_none());
    let refused = ApiError::migration_in_progress();
    assert_eq!(refused.status(), StatusCode::CONFLICT.as_u16());
    assert_eq!(refused.code(), "migration_in_progress");

    first.succeed(&mut store, PCP.to_vec());
    assert!(store.start().is_some());
}

/// A bad payload is refused by the checks, which run before the slot is taken.
#[test]
fn an_uncompressed_payload_is_rejected_without_taking_the_slot() {
    let error = submit(PCP.to_vec()).expect_err("should reject");
    assert_eq!(error.status(), StatusCode::UNSUPPORTED_MEDIA_TYPE.as_u16());

    assert!(submit(gzip(PCP)).is_ok(), "the next submission should pass");
}

#[test]
fn a_request_without_the_binary_content_type_is_rejected() {
    let error = check_submission(Some("application/json"), Ok(gzip(PCP)), MAX_PCP_BYTES).expect_err("should reject");

    assert_eq!(error.status(), StatusCode::UNSUPPORTED_MEDIA_TYPE.as_u16());
    assert_eq!(error.code(), "unsupported_media_type");
    assert!(check_submission(None, Ok(gzip(PCP)), MAX_PCP_BYTES).is_err());
}

#[test]
fn an_empty_body_is_rejected() {
    let error = submit(Vec::new()).expect_err("should reject");

    assert_eq!(error.status(), StatusCode::BAD_REQUEST.as_u16());
}

#[test]
fn a_body_over_the_limit_or_unreadable_is_rejected() {
    let too_large = check_submission(
        Some(MIGRATION_CONTENT_TYPE),
        Err(BodyRejection { status: 413, message: "length limit exceeded".to_owned() }),
        MAX_PCP_BYTES,
    )
    .expect_err("should reject");
    assert_eq!(too_large.status(), 413);
    assert_eq!(too_large.code(), "request_too_large");

    let unreadable = check_submission(
        Some(MIGRATION_CONTENT_TYPE),
        Err(BodyRejection { status: 400, message: "stream reset".to_owned() }),
        MAX_PCP_BYTES,
    )
    .expect_err("should reject");
    assert_eq!(unreadable.status(), 400);
    assert_eq!(unreadable.code(), "invalid_request");
    assert_eq!(unreadable.detail().as_deref(), Some("stream reset"));
}

#[test]
fn an_unreachable_enclave_is_a_bad_gateway() {
    let outcome: Option<Result<Result<MigrateResponse, enclave_types::Error>, String>> =
        Some(Err("connection refused".to_owned()));
    let error = flatten(outcome).expect_err("should fail");
    assert_eq!(error, enclave_client::Error::Transport("connection refused".to_owned()));

    let mapped = ApiError::enclave(&error);
    assert_eq!(mapped.status(), StatusCode::BAD_GATEWAY.as_u16());
    assert_eq!(mapped.code(), "enclave_unreachable");
}

#[test]
fn an_enclave_timeout_is_a_gateway_timeout() {
    let outcome: Option<Result<Result<MigrateResponse, enclave_types::Error>, String>> = None;
    let error = flatten(outcome).expect_err("should time out");
    let mapped = ApiError::enclave(&error);
    assert_eq!(mapped.status(), StatusCode::GATEWAY_TIMEOUT.as_u16());
    assert_eq!(mapped.code(), "enclave_timeout");
}

/// The store's slot must be free again after a failure, or one dead enclave call wedges it.
#[test]
fn a_claim_failed_by_a_timeout_frees_the_store_slot() {
    let mut store = Store::new();
    let slot = store.start().expect("slot is free");
    slot.fail(&mut store, di_migration::migrations::Failure::EnclaveTimeout);
    assert!(store.start().is_some(), "not a 409");
}

/// The body limit and the decompression ceiling are the same number, and both answer 413,
/// so the code is what proves decompression rejected this rather than the body limit.
#[test]
fn a_compression_bomb_is_rejected_by_the_decompression_ceiling() {
    let bomb = gzip(&vec![0u8; MAX_PCP_BYTES + 1]);
    assert!(bomb.len() < MAX_PCP_BYTES, "the bomb must clear the body limit");

    let error = submit(bomb).expect_err("should reject");

    assert_eq!(error.status(), StatusCode::PAYLOAD_TOO_LARGE.as_u16());
    assert_eq!(error.code(), "pcp_too_large");
}

#[test]
fn both_probes_pass_when_the_enclave_answers() {
    assert_eq!(readiness(&Ok(())), StatusCode::OK.as_u16());
}

/// Readiness follows the enclave, so a host whose enclave is down stops taking traffic.
#[test]
fn readiness_fails_when_the_enclave_is_unreachable() {
    let health = Err(enclave_client::Error::Transport("connection refused".to_owned()));

    assert_eq!(readiness(&health), StatusCode::SERVICE_UNAVAILABLE.as_u16());
}

#[test]
fn an_enclave_answer_passes_through_the_call_layers() {
    let outcome = Some(Ok(Ok(MigrateResponse { pcp: PCP.to_vec() })));
    assert_eq!(flatten(outcome).expect("answered").pcp, PCP);

    let rejected: Option<Result<Result<MigrateResponse, enclave_types::Error>, String>> =
        Some(Ok(Err(enclave_types::Error::EmptyPcp)));
    assert_eq!(
        flatten(rejected).expect_err("rejected"),
        enclave_client::Error::Operation(enclave_types::Error::EmptyPcp)
    );
}
