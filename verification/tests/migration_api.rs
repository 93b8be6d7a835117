use di_migration::api_client::is_success;
use di_migration::attestation::Attestor;
use di_migration::migration_api::{
    accepted_sub, init_migration_response, migration_item, object_key, plan_init_migration, presign_target, readiness,
    record_for,
    Attribute, MigrationRecord, RECORD_CONDITION,
};

#[test]
fn probes_when_dependencies_are_unavailable() {
    assert_eq!(readiness(false, false, false), 503);
    assert_eq!(readiness(true, true, true), 200);
}

#[test]
fn readiness_fails_when_only_sqs_is_unavailable() {
    assert_eq!(readiness(true, false, true), 503);
}

#[test]
fn init_migration_rejects_a_blank_sub() {
    assert_eq!(plan_init_migration("   "), Err(400));
}

#[test]
fn init_migration_returns_attestation_and_presigned_url() {
    let record = plan_init_migration("test-sub").expect("an acceptable subject");
    assert_eq!(record.sub, "test-sub");
    assert_eq!(record.migration_id.len(), 36);
    assert_eq!(record.object_key, format!("pcp/{}", record.migration_id));

    let attestor = Attestor::stub("i-0123456789abcdef-enc0".to_owned());
    let presigned = format!("http://127.0.0.1:9/test-bucket/{}?X-Amz-Signature=abc", record.object_key);
    let response = init_migration_response(true, Some(presigned.clone()), attestor.attest()).expect("answered");

    assert_eq!(response.enclave_id, "i-0123456789abcdef-enc0");
    assert_eq!(response.attestation, "");
    assert_eq!(response.presigned_url, presigned);
}

#[test]
fn a_failed_record_or_signature_is_a_server_error() {
    let attestor = Attestor::stub("enc".to_owned());
    assert_eq!(init_migration_response(false, None, attestor.attest()), Err(503));
    assert_eq!(init_migration_response(true, None, attestor.attest()), Err(500));
}

#[test]
fn subjects_are_trimmed_and_bounded() {
    assert_eq!(accepted_sub("  test-sub \n").as_deref(), Some("test-sub"));
    assert_eq!(accepted_sub(""), None);
    assert_eq!(accepted_sub("a\u{7}b"), None);
    assert_eq!(accepted_sub(&"x".repeat(255)).map(|s| s.len()), Some(255));
    assert_eq!(accepted_sub(&"x".repeat(256)), None);
    assert_eq!(accepted_sub(&"é".repeat(128)), None, "255 is a byte bound");
}

#[test]
fn a_record_names_its_upload_key_after_its_id() {
    let id = uuid::Uuid::parse_str("67e55044-10b1-426f-9247-bb680e5fe0c8").expect("a uuid");
    let record = record_for("sub".to_owned(), id.as_u128());

    assert_eq!(record.migration_id, "67e55044-10b1-426f-9247-bb680e5fe0c8");
    assert_eq!(record.object_key, "pcp/67e55044-10b1-426f-9247-bb680e5fe0c8");
    assert_eq!(object_key("abc"), "pcp/abc");
}

#[test]
fn init_migration_surfaces_error_statuses() {
    assert!(!is_success(503));
    assert!(is_success(200));
    assert!(is_success(204));
    assert!(!is_success(300));
}

#[test]
fn a_record_is_written_as_four_attributes() {
    let record = MigrationRecord {
        migration_id: "id-1".to_owned(),
        sub: "sub-1".to_owned(),
        object_key: "pcp/id-1".to_owned(),
    };
    let item = migration_item(&record, 1700000000);

    assert_eq!(
        item,
        vec![
            ("migration_id", Attribute::S("id-1".to_owned())),
            ("sub", Attribute::S("sub-1".to_owned())),
            ("object_key", Attribute::S("pcp/id-1".to_owned())),
            ("created_at", Attribute::N("1700000000".to_owned())),
        ]
    );
    assert_eq!(RECORD_CONDITION, "attribute_not_exists(migration_id)");
}

#[test]
fn only_a_written_record_is_presigned() {
    let record = record_for("sub".to_owned(), 1);
    assert_eq!(presign_target(&record, true), Some("pcp/00000000-0000-0000-0000-000000000001".to_owned()));
    assert_eq!(presign_target(&record, false), None);
}

#[test]
fn ids_are_written_as_lowercase_hyphenated_hex() {
    assert_eq!(record_for("s".to_owned(), 0).migration_id, "00000000-0000-0000-0000-000000000000");
    assert_eq!(record_for("s".to_owned(), u128::MAX).migration_id, "ffffffff-ffff-ffff-ffff-ffffffffffff");
    let id: u128 = 0x0123_4567_89ab_cdef_fedc_ba98_7654_3210;
    assert_eq!(record_for("s".to_owned(), id).migration_id, uuid::Uuid::from_u128(id).to_string());
    assert_eq!(record_for("s".to_owned(), id).migration_id, "01234567-89ab-cdef-fedc-ba9876543210");
}

#[test]
fn an_acceptable_subject_always_gets_a_record() {
    for sub in ["a", "  padded  ", "x-1\tinner"] {
        let trimmed = sub.trim();
        let planned = plan_init_migration(sub);
        if trimmed.chars().any(|c| c.is_control()) {
            assert_eq!(planned, Err(400));
        } else {
            let record = planned.expect("an acceptable subject");
            assert_eq!(record.sub, trimmed);
            assert_eq!(record.object_key, format!("pcp/{}", record.migration_id));
        }
    }
}
