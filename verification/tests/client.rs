use di_migration::api_types::{ErrorBody, ErrorEnvelope, MAX_PCP_BYTES};
use di_migration::client::{api_error, check_input_size, host_base, probe_passed, Error};

fn envelope(code: &str, allow_retry: bool) -> ErrorEnvelope {
    ErrorEnvelope {
        allow_retry,
        error: ErrorBody { code: code.to_owned(), message: "stub".to_owned() },
    }
}

/// The one code promoted to its own variant, so the caller can act without string matching.
#[test]
fn a_busy_host_is_promoted_to_its_own_error() {
    let error = api_error(409, Some(envelope("migration_in_progress", true)));

    assert!(matches!(error, Error::MigrationInProgress), "{error:?}");
}

#[test]
fn any_other_code_keeps_its_envelope() {
    let error = api_error(502, Some(envelope("enclave_unreachable", true)));

    match error {
        Error::Api { status, code, allow_retry, .. } => {
            assert_eq!(status, 502);
            assert_eq!(code, "enclave_unreachable");
            assert!(allow_retry);
        }
        other => panic!("expected an envelope, got {other:?}"),
    }
}

/// A proxy or ingress can answer without the host's envelope; that must not be a parse panic.
#[test]
fn a_failure_without_an_envelope_keeps_the_status() {
    let error = api_error(502, None);

    assert!(matches!(error, Error::Status(502)), "{error:?}");
}

#[test]
fn health_reports_each_probe_separately() {
    assert_eq!((probe_passed(200), probe_passed(503)), (true, false));
}

#[test]
fn a_host_without_a_scheme_is_rejected() {
    let error = host_base("localhost:8000").expect_err("should reject");

    assert!(matches!(error, Error::InvalidHost(_)), "{error:?}");
}

#[test]
fn trailing_slashes_are_dropped_from_the_host() {
    assert_eq!(host_base("http://localhost:8000//").expect("usable"), "http://localhost:8000");
    assert_eq!(host_base("https://host").expect("usable"), "https://host");
    match host_base("ftp://host/") {
        Err(Error::InvalidHost(message)) => {
            assert_eq!(message, "ftp://host must start with http:// or https://");
        }
        other => panic!("expected an invalid host, got {other:?}"),
    }
}

#[test]
fn an_oversized_input_is_refused_before_it_is_sent() {
    assert!(check_input_size("pcp.tgz".to_owned(), MAX_PCP_BYTES).is_ok());
    assert_eq!(
        check_input_size("pcp.tgz".to_owned(), MAX_PCP_BYTES + 1),
        Err(Error::InputTooLarge {
            path: "pcp.tgz".to_owned(),
            bytes: MAX_PCP_BYTES + 1,
            limit: MAX_PCP_BYTES,
        })
    );
}
