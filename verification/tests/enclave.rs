use di_migration::enclave::{health, migrate, EnclaveState};
use di_migration::enclave_types::{self, MigrateRequest, MIGRATE_ROUTE_ID, PONTIFEX_PORT};

fn request(bytes: usize) -> MigrateRequest {
    MigrateRequest { pcp: vec![7u8; bytes] }
}

#[test]
fn a_pcp_comes_back_unchanged() {
    let response = migrate(&EnclaveState, request(32)).expect("should echo");

    assert_eq!(response.pcp, vec![7u8; 32]);
}

#[test]
fn an_empty_pcp_is_rejected() {
    let error = migrate(&EnclaveState, request(0)).expect_err("should reject");

    assert_eq!(error, enclave_types::Error::EmptyPcp);
}

#[test]
fn migrate_route_id_is_versioned_and_stable() {
    assert_eq!(MIGRATE_ROUTE_ID, "/v1/migrate");
}

#[test]
fn the_enclave_answers_its_health_check_on_its_port() {
    assert_eq!(health(&EnclaveState), Ok(()));
    assert_eq!(PONTIFEX_PORT, 1000);
}
