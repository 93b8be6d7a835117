//! The decisions of the migration API's routes: which subjects may start a migration, what the
//! migration is recorded as, and how the answer follows from the outside calls.

use vstd::prelude::*;
use vstd::utf8::encode_utf8;

use crate::api_client::InitMigrationResponse;
use crate::attestation::Attestation;
use crate::ids::{fresh_id, id_text, uuid_text};
use crate::status;
use crate::text::{
    control_char, decimal_text, is_control_char, is_white_space, lemma_leading_blank, lemma_trailing_blank, push_decimal,
    string_of, trim, trimmed,
};

verus! {

broadcast use vstd::string::group_string_axioms;

/// Bounds the subject accepted; real subjects are short opaque identifiers.
pub const MAX_SUB_LEN: usize = 255;

/// The subject a migration is started for, trimmed; `None` when it is empty, longer than
/// `MAX_SUB_LEN` UTF-8 bytes, or holds a control character.
pub open spec fn spec_accepted_sub(raw: Seq<char>) -> Option<Seq<char>> {
    let sub = trimmed(raw);
    if sub.len() == 0 || encode_utf8(sub).len() > MAX_SUB_LEN || exists|i: int|
        0 <= i < sub.len() && is_control_char(#[trigger] sub[i]) {
        None
    } else {
        Some(sub)
    }
}

/// The subject a migration may be started for: `raw` trimmed, or `None` when it is not
/// acceptable.
pub fn accepted_sub(raw: &str) -> (r: Option<String>)
    ensures
        match (r, spec_accepted_sub(raw@)) {
            (Some(sub), Some(expected)) => sub@ == expected,
            (None, None) => true,
            _ => false,
        },
{
    let chars = trim(raw);
    if chars.len() == 0 {
        return None;
    }
    let sub = string_of(chars.as_slice());
    if sub.as_str().as_bytes().len() > MAX_SUB_LEN {
        return None;
    }
    let mut i: usize = 0;
    while i < chars.len()
        invariant
            chars@ == trimmed(raw@),
            i <= chars.len(),
            forall|j: int| 0 <= j < i ==> !is_control_char(#[trigger] chars@[j]),
        decreases chars.len() - i,
    {
        if control_char(chars[i]) {
            return None;
        }
        i = i + 1;
    }
    proof {
        let t = trimmed(raw@);
        assert(!exists|i: int| 0 <= i < t.len() && is_control_char(#[trigger] t[i]));
    }
    Some(sub)
}

/// Where the PCP of migration `migration_id` is uploaded.
pub open spec fn spec_object_key(migration_id: Seq<char>) -> Seq<char> {
    "pcp/"@ + migration_id
}

/// The S3 key of the PCP of migration `migration_id`.
pub fn object_key(migration_id: &str) -> (r: String)
    ensures
        r@ == spec_object_key(migration_id@),
{
    let mut key = "pcp/".to_owned();
    key.append(migration_id);
    key
}

/// A migration as it is recorded before its PCP is uploaded.
#[derive(Debug, Clone, PartialEq, Eq)]
pub struct MigrationRecord {
    /// The migration's id, the text of a random UUID.
    pub migration_id: String,
    /// The subject being migrated.
    pub sub: String,
    /// Where the PCP is uploaded.
    pub object_key: String,
}

/// The record of migration `id` for `sub`.
pub fn record_for(sub: String, id: u128) -> (r: MigrationRecord)
    ensures
        r.sub@ == sub@,
        r.migration_id@ == uuid_text(id),
        r.object_key@ == spec_object_key(uuid_text(id)),
{
    let migration_id = id_text(id);
    let object_key = object_key(migration_id.as_str());
    MigrationRecord { migration_id, sub, object_key }
}

/// Starts `POST /v1/init-migration` for the requested subject: a record under a fresh random id,
/// or 400 when the subject is not acceptable.
pub fn plan_init_migration(raw_sub: &str) -> (r: Result<MigrationRecord, u16>)
    ensures
        spec_accepted_sub(raw_sub@) is None <==> r == Err::<MigrationRecord, u16>(status::BAD_REQUEST),
        spec_accepted_sub(raw_sub@) is Some <==> r is Ok,
        r matches Ok(record) ==> spec_accepted_sub(raw_sub@) == Some(record.sub@) && exists|id: u128|
            record.migration_id@ == uuid_text(id) && record.object_key@ == spec_object_key(uuid_text(id)),
{
    let sub = match accepted_sub(raw_sub) {
        Some(sub) => sub,
        None => return Err(status::BAD_REQUEST),
    };
    let id = fresh_id();
    Ok(record_for(sub, id))
}

/// A DynamoDB attribute value, as a migration record writes them.
#[derive(Debug, Clone, PartialEq, Eq)]
pub enum Attribute {
    /// A string.
    S(String),
    /// A number, in its decimal text.
    N(String),
}

/// The condition a record is written under: a migration id is never overwritten.
pub const RECORD_CONDITION: &'static str = "attribute_not_exists(migration_id)";

/// The item that records `record`, created at `created_at` seconds past the Unix epoch.
pub fn migration_item(record: &MigrationRecord, created_at: u64) -> (r: Vec<(&'static str, Attribute)>)
    ensures
        r@.len() == 4,
        r@[0].0@ == "migration_id"@ && r@[0].1 == Attribute::S(record.migration_id),
        r@[1].0@ == "sub"@ && r@[1].1 == Attribute::S(record.sub),
        r@[2].0@ == "object_key"@ && r@[2].1 == Attribute::S(record.object_key),
        r@[3].0@ == "created_at"@ && (r@[3].1 matches Attribute::N(n) && n@ == decimal_text(created_at as nat)),
{
    let mut created = String::new();
    push_decimal(&mut created, created_at);
    let mut item: Vec<(&'static str, Attribute)> = Vec::new();
    item.push(("migration_id", Attribute::S(record.migration_id.clone())));
    item.push(("sub", Attribute::S(record.sub.clone())));
    item.push(("object_key", Attribute::S(record.object_key.clone())));
    item.push(("created_at", Attribute::N(created)));
    item
}

/// The key `POST /v1/init-migration` presigns an upload URL for once the record write has come
/// back: the record's object key when the record was written, none when it was not.
pub fn presign_target(record: &MigrationRecord, recorded: bool) -> (r: Option<String>)
    ensures
        recorded <==> r is Some,
        r matches Some(key) ==> key@ == record.object_key@,
{
    if recorded {
        Some(record.object_key.clone())
    } else {
        None
    }
}

/// Finishes `POST /v1/init-migration` from what the outside calls came to: whether the record
/// was written (503 when not), then the presigned upload URL (500 when signing failed).
pub fn init_migration_response(recorded: bool, presigned_url: Option<String>, attestation: Attestation) -> (r: Result<
    InitMigrationResponse,
    u16,
>)
    ensures
        !recorded ==> r == Err::<InitMigrationResponse, u16>(status::SERVICE_UNAVAILABLE),
        recorded && presigned_url is None ==> r == Err::<InitMigrationResponse, u16>(status::INTERNAL_SERVER_ERROR),
        recorded && presigned_url is Some ==> (r matches Ok(response) && response.enclave_id@
            == attestation.enclave_id@ && response.attestation@ == attestation.document@
            && response.presigned_url@ == presigned_url->0@),
{
    if !recorded {
        return Err(status::SERVICE_UNAVAILABLE);
    }
    match presigned_url {
        None => Err(status::INTERNAL_SERVER_ERROR),
        Some(presigned_url) => Ok(InitMigrationResponse {
            enclave_id: attestation.enclave_id,
            attestation: attestation.document,
            presigned_url,
        }),
    }
}

/// Readiness: 200 only when DynamoDB, SQS and S3 all answered.
pub fn readiness(db_ready: bool, sqs_ready: bool, s3_ready: bool) -> (r: u16)
    ensures
        r == (if db_ready && sqs_ready && s3_ready { status::OK } else { status::SERVICE_UNAVAILABLE }),
{
    if db_ready && sqs_ready && s3_ready {
        status::OK
    } else {
        status::SERVICE_UNAVAILABLE
    }
}

/// The subject a migration is recorded for is the requested one with only its surrounding white
/// space removed: for `start..end` the span of `raw` left once the white space before `start`
/// and from `end` on is cut (and which begins and ends with other characters when not empty),
/// the accepted subject is exactly `raw[start..end]`, character for character, unless that span
/// is empty, longer than `MAX_SUB_LEN` UTF-8 bytes, or holds a control character.
pub proof fn law_the_accepted_subject_is_the_requested_one_trimmed(raw: Seq<char>, start: int, end: int)
    requires
        0 <= start <= end <= raw.len(),
        forall|i: int| 0 <= i < start ==> is_white_space(#[trigger] raw[i]),
        forall|i: int| end <= i < raw.len() ==> is_white_space(#[trigger] raw[i]),
        start < end ==> !is_white_space(raw[start]) && !is_white_space(raw[end - 1]),
    ensures
        spec_accepted_sub(raw) == (if start == end || encode_utf8(raw.subrange(start, end)).len() > MAX_SUB_LEN
            || exists|i: int| start <= i < end && is_control_char(#[trigger] raw[i]) {
            None
        } else {
            Some(raw.subrange(start, end))
        }),
{
    let span = raw.subrange(start, end);
    if start == end {
        lemma_leading_blank(raw, raw.len() as int);
        assert(trimmed(raw) =~= span);
    } else {
        lemma_leading_blank(raw, start);
        let t = raw.skip(start);
        let n = raw.len() - end;
        assert forall|j: int| t.len() - n <= j < t.len() implies is_white_space(#[trigger] t[j]) by {
            assert(t[j] == raw[j + start]);
        }
        assert(t[t.len() - n - 1] == raw[end - 1]);
        lemma_trailing_blank(t, n);
        assert(trimmed(raw) =~= span);
    }
    if exists|i: int| start <= i < end && is_control_char(#[trigger] raw[i]) {
        let i = choose|i: int| start <= i < end && is_control_char(#[trigger] raw[i]);
        assert(span[i - start] == raw[i]);
    }
    if exists|i: int| 0 <= i < span.len() && is_control_char(#[trigger] span[i]) {
        let i = choose|i: int| 0 <= i < span.len() && is_control_char(#[trigger] span[i]);
        assert(span[i] == raw[i + start]);
    }
}

} // verus!
