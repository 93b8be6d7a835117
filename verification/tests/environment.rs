use di_migration::api_types::{MAX_PCP_BYTES, MAX_REQUEST_BYTES};
use di_migration::environment::{Environment, EnvironmentError};

#[test]
fn required_variables_are_read_and_limits_default() {
    let environment = Environment::from_vars(Some("16"), Some("1000"), None, None).expect("configured");

    assert_eq!(environment.enclave_cid(), 16);
    assert_eq!(environment.enclave_port(), 1000);
    assert_eq!(environment.max_request_bytes(), MAX_REQUEST_BYTES);
    assert_eq!(environment.max_pcp_bytes(), MAX_PCP_BYTES);
}

#[test]
fn set_limits_override_the_defaults() {
    let environment = Environment::from_vars(Some("+3"), Some("5000"), Some("1024"), Some("2048")).expect("configured");

    assert_eq!(environment, Environment::for_tests(3, 5000, 1024, 2048));
}

#[test]
fn a_missing_or_malformed_variable_names_itself() {
    assert_eq!(
        Environment::from_vars(None, Some("1000"), None, None),
        Err(EnvironmentError::Unset("ENCLAVE_CID"))
    );
    assert_eq!(
        Environment::from_vars(Some("4294967296"), Some("1000"), None, None),
        Err(EnvironmentError::NotU32("ENCLAVE_CID"))
    );
    assert_eq!(
        Environment::from_vars(Some("16"), None, None, None),
        Err(EnvironmentError::Unset("ENCLAVE_PORT"))
    );
    assert_eq!(
        Environment::from_vars(Some("16"), Some("1000"), Some("lots"), None),
        Err(EnvironmentError::NotUsize("MAX_REQUEST_BYTES"))
    );
    assert_eq!(
        Environment::from_vars(Some("16"), Some("1000"), None, Some("-1")),
        Err(EnvironmentError::NotUsize("MAX_PCP_BYTES"))
    );
}
