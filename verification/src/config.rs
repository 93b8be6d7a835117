//! The migration API's configuration, checked once at boot: a value that AWS would reject, or
//! an enclave that cannot attest, stops the API before it serves anything.

use vstd::prelude::*;
use vstd::utf8::encode_utf8;

use crate::text::{blank, is_blank};

verus! {

/// S3 rejects presigned URLs that outlive seven days.
pub const MAX_PRESIGNED_URL_TTL_SECS: u64 = 7 * 24 * 60 * 60;

/// The presigned URL lifetime when none is configured.
pub const DEFAULT_PRESIGNED_URL_TTL_SECS: u64 = 900;

/// The settings the API starts with.
#[derive(Debug)]
pub struct Config {
    /// The DynamoDB table migrations are recorded in.
    pub dynamodb_table_name: String,
    /// The SQS queue the pipeline reads.
    pub sqs_queue_url: String,
    /// The bucket PCPs are uploaded to.
    pub pcp_bucket: String,
    /// How long a presigned upload URL stays valid, in seconds.
    pub presigned_url_ttl_secs: u64,
    /// LocalStack and other S3-compatible endpoints only serve path-style addressing.
    pub s3_force_path_style: bool,
    /// The enclave the migration runs in.
    pub enclave_id: String,
    /// Serve an empty attestation; never set in production.
    pub stub_attestation: bool,
}

/// Why the configuration was refused.
#[derive(Debug, Clone, Copy, PartialEq, Eq)]
pub enum ConfigError {
    /// DYNAMODB_TABLE_NAME is required.
    MissingDynamodbTableName,
    /// DYNAMODB_TABLE_NAME must be 3-255 ASCII letters, digits, underscores, hyphens, or dots.
    InvalidDynamodbTableName,
    /// SQS_QUEUE_URL is required.
    MissingSqsQueueUrl,
    /// SQS_QUEUE_URL must be an HTTP(S) URL with a queue path.
    InvalidSqsQueueUrl,
    /// The named variable is required.
    MissingVar(&'static str),
    /// PCP_BUCKET must be 3-63 lowercase letters, digits, hyphens, or dots.
    InvalidPcpBucket,
    /// PRESIGNED_URL_TTL_SECS must be a positive number of seconds, at most seven days.
    InvalidPresignedUrlTtl,
    /// ENCLAVE_ID must be 1-128 ASCII letters, digits, underscores, or hyphens.
    InvalidEnclaveId,
    /// The migration enclave cannot attest yet; STUB_ATTESTATION=true serves an empty
    /// attestation outside production.
    AttestationUnavailable,
}

/// The parts of a URI that the queue URL check reads: its scheme, whether it names an
/// authority, and its path.
#[derive(Debug)]
pub struct UriParts {
    /// The scheme, if the URI has one.
    pub scheme: Option<String>,
    /// Whether the URI names an authority (host and port).
    pub has_authority: bool,
    /// The path; empty when there is none.
    pub path: String,
}

/// The URI parts by their characters.
pub type UriPartsView = (Option<Seq<char>>, bool, Seq<char>);

/// What `axum::http::Uri` parses `text` into, by the parts the check reads; `None` when it
/// does not parse.
pub uninterp spec fn parsed_uri(text: Seq<char>) -> Option<(Option<Seq<char>>, bool, Seq<char>)>;

/// URI parts by their characters.
pub open spec fn uri_view(parts: Option<UriParts>) -> Option<UriPartsView> {
    match parts {
        Some(p) => Some(
            (
                match p.scheme {
                    Some(s) => Some(s@),
                    None => None,
                },
                p.has_authority,
                p.path@,
            ),
        ),
        None => None,
    }
}

/// Parses `text` with `axum::http::Uri`'s `FromStr`, keeping the scheme, whether there is an
/// authority, and the path.
///
/// Trusted: the parts are the ones that `parsed_uri` names.
#[verifier::external_body]
fn parse_uri(text: &str) -> (r: Option<UriParts>)
    ensures
        uri_view(r) == parsed_uri(text@),
{
    match text.parse::<axum::http::Uri>() {
        Ok(uri) => Some(UriParts {
            scheme: match uri.scheme_str() {
                Some(scheme) => Some(scheme.to_owned()),
                None => None,
            },
            has_authority: uri.authority().is_some(),
            path: uri.path().to_owned(),
        }),
        Err(_) => None,
    }
}

/// A queue URL is an HTTP(S) URL with an authority and a queue path.
pub open spec fn acceptable_queue_uri(parts: Option<UriPartsView>) -> bool {
    match parts {
        Some((scheme, has_authority, path)) => (scheme == Some("http"@) || scheme == Some("https"@)) && has_authority
            && path != "/"@,
        None => false,
    }
}

/// Whether parsed queue URL parts name an HTTP(S) queue.
pub fn queue_uri_acceptable(parts: &Option<UriParts>) -> (r: bool)
    ensures
        r == acceptable_queue_uri(uri_view(*parts)),
{
    match parts {
        None => false,
        Some(p) => {
            let scheme_ok = match &p.scheme {
                Some(s) => crate::text::text_eq(s.as_str(), "http") || crate::text::text_eq(s.as_str(), "https"),
                None => false,
            };
            scheme_ok && p.has_authority && !crate::text::text_eq(p.path.as_str(), "/")
        },
    }
}

/// `b` is an ASCII letter or digit.
pub open spec fn is_ascii_alphanumeric(b: u8) -> bool {
    (0x30 <= b <= 0x39) || (0x41 <= b <= 0x5a) || (0x61 <= b <= 0x7a)
}

/// `b` may stand in a DynamoDB table name.
pub open spec fn table_name_byte(b: u8) -> bool {
    is_ascii_alphanumeric(b) || b == 0x5f || b == 0x2d || b == 0x2e
}

/// `b` may stand in an S3 bucket name.
pub open spec fn bucket_byte(b: u8) -> bool {
    (0x61 <= b <= 0x7a) || (0x30 <= b <= 0x39) || b == 0x2d || b == 0x2e
}

/// `b` may stand in an enclave id.
pub open spec fn enclave_id_byte(b: u8) -> bool {
    is_ascii_alphanumeric(b) || b == 0x5f || b == 0x2d
}

/// Every byte of `bytes` satisfies `allowed`.
pub open spec fn all_bytes(bytes: Seq<u8>, allowed: spec_fn(u8) -> bool) -> bool {
    forall|i: int| 0 <= i < bytes.len() ==> allowed(#[trigger] bytes[i])
}

/// The first problem with a configuration, in the order the checks run; `None` when there is
/// none. Lengths and allowed characters are counted in UTF-8 bytes.
pub open spec fn config_problem(
    table: Seq<char>,
    queue: Seq<char>,
    bucket: Seq<char>,
    ttl_secs: u64,
    enclave_id: Seq<char>,
    stub_attestation: bool,
) -> Option<ConfigError> {
    let table_bytes = encode_utf8(table);
    let bucket_bytes = encode_utf8(bucket);
    let enclave_bytes = encode_utf8(enclave_id);
    if is_blank(table) {
        Some(ConfigError::MissingDynamodbTableName)
    } else if !(3 <= table_bytes.len() <= 255) || !all_bytes(table_bytes, |b: u8| table_name_byte(b)) {
        Some(ConfigError::InvalidDynamodbTableName)
    } else if queue.len() == 0 {
        Some(ConfigError::MissingSqsQueueUrl)
    } else if !acceptable_queue_uri(parsed_uri(queue)) {
        Some(ConfigError::InvalidSqsQueueUrl)
    } else if is_blank(bucket) {
        Some(ConfigError::MissingVar("PCP_BUCKET"))
    } else if !(3 <= bucket_bytes.len() <= 63) || !all_bytes(bucket_bytes, |b: u8| bucket_byte(b)) {
        Some(ConfigError::InvalidPcpBucket)
    } else if !(1 <= ttl_secs <= MAX_PRESIGNED_URL_TTL_SECS) {
        Some(ConfigError::InvalidPresignedUrlTtl)
    } else if is_blank(enclave_id) {
        Some(ConfigError::MissingVar("ENCLAVE_ID"))
    } else if enclave_bytes.len() > 128 || !all_bytes(enclave_bytes, |b: u8| enclave_id_byte(b)) {
        Some(ConfigError::InvalidEnclaveId)
    } else if !stub_attestation {
        Some(ConfigError::AttestationUnavailable)
    } else {
        None
    }
}

fn table_name_bytes_ok(bytes: &[u8]) -> (r: bool)
    ensures
        r == all_bytes(bytes@, |b: u8| table_name_byte(b)),
{
    let mut i: usize = 0;
    while i < bytes.len()
        invariant
            i <= bytes.len(),
            forall|j: int| 0 <= j < i ==> table_name_byte(#[trigger] bytes@[j]),
        decreases bytes.len() - i,
    {
        let b = bytes[i];
        if !((0x30 <= b && b <= 0x39) || (0x41 <= b && b <= 0x5a) || (0x61 <= b && b <= 0x7a) || b == 0x5f || b
            == 0x2d || b == 0x2e) {
            return false;
        }
        i = i + 1;
    }
    true
}

fn bucket_bytes_ok(bytes: &[u8]) -> (r: bool)
    ensures
        r == all_bytes(bytes@, |b: u8| bucket_byte(b)),
{
    let mut i: usize = 0;
    while i < bytes.len()
        invariant
            i <= bytes.len(),
            forall|j: int| 0 <= j < i ==> bucket_byte(#[trigger] bytes@[j]),
        decreases bytes.len() - i,
    {
        let b = bytes[i];
        if !((0x61 <= b && b <= 0x7a) || (0x30 <= b && b <= 0x39) || b == 0x2d || b == 0x2e) {
            return false;
        }
        i = i + 1;
    }
    true
}

fn enclave_id_bytes_ok(bytes: &[u8]) -> (r: bool)
    ensures
        r == all_bytes(bytes@, |b: u8| enclave_id_byte(b)),
{
    let mut i: usize = 0;
    while i < bytes.len()
        invariant
            i <= bytes.len(),
            forall|j: int| 0 <= j < i ==> enclave_id_byte(#[trigger] bytes@[j]),
        decreases bytes.len() - i,
    {
        let b = bytes[i];
        if !((0x30 <= b && b <= 0x39) || (0x41 <= b && b <= 0x5a) || (0x61 <= b && b <= 0x7a) || b == 0x5f || b
            == 0x2d) {
            return false;
        }
        i = i + 1;
    }
    true
}

impl Config {
    /// Checks the configuration, handing it back when every setting is usable.
    pub fn validate(self) -> (r: Result<Config, ConfigError>)
        ensures
            match config_problem(
                self.dynamodb_table_name@,
                self.sqs_queue_url@,
                self.pcp_bucket@,
                self.presigned_url_ttl_secs,
                self.enclave_id@,
                self.stub_attestation,
            ) {
                None => r == Ok::<Config, ConfigError>(self),
                Some(e) => r == Err::<Config, ConfigError>(e),
            },
    {
        if blank(self.dynamodb_table_name.as_str()) {
            return Err(ConfigError::MissingDynamodbTableName);
        }
        let table = self.dynamodb_table_name.as_str().as_bytes();
        if !(3 <= table.len() && table.len() <= 255) || !table_name_bytes_ok(table) {
            return Err(ConfigError::InvalidDynamodbTableName);
        }
        if self.sqs_queue_url.as_str().is_empty() {
            return Err(ConfigError::MissingSqsQueueUrl);
        }
        let parts = parse_uri(self.sqs_queue_url.as_str());
        if !queue_uri_acceptable(&parts) {
            return Err(ConfigError::InvalidSqsQueueUrl);
        }
        if blank(self.pcp_bucket.as_str()) {
            return Err(ConfigError::MissingVar("PCP_BUCKET"));
        }
        let bucket = self.pcp_bucket.as_str().as_bytes();
        if !(3 <= bucket.len() && bucket.len() <= 63) || !bucket_bytes_ok(bucket) {
            return Err(ConfigError::InvalidPcpBucket);
        }
        if !(1 <= self.presigned_url_ttl_secs && self.presigned_url_ttl_secs <= MAX_PRESIGNED_URL_TTL_SECS) {
            return Err(ConfigError::InvalidPresignedUrlTtl);
        }
        if blank(self.enclave_id.as_str()) {
            return Err(ConfigError::MissingVar("ENCLAVE_ID"));
        }
        let enclave = self.enclave_id.as_str().as_bytes();
        if enclave.len() > 128 || !enclave_id_bytes_ok(enclave) {
            return Err(ConfigError::InvalidEnclaveId);
        }
        if !self.stub_attestation {
            return Err(ConfigError::AttestationUnavailable);
        }
        Ok(self)
    }
}

/// Reads `PRESIGNED_URL_TTL_SECS`: a whole number of seconds, as `u64`'s `FromStr` reads it.
pub fn parse_presigned_url_ttl(raw: &str) -> (r: Option<u64>)
    ensures
        r == (match crate::text::parsed_unsigned(raw@) {
            Some(v) => if v <= u64::MAX { Some(v as u64) } else { None },
            None => None,
        }),
{
    crate::text::parse_unsigned(raw, u64::MAX)
}

/// Queue URLs may be plain or secure HTTP alike: a parsed URL with scheme `http` or `https` is
/// acceptable exactly when it names an authority and a path other than `/`, and which of the two
/// schemes it has makes no difference.
pub proof fn law_http_and_https_queue_urls_are_alike(has_authority: bool, path: Seq<char>)
    ensures
        acceptable_queue_uri(Some((Some("https"@), has_authority, path))) == (has_authority && path != "/"@),
        acceptable_queue_uri(Some((Some("http"@), has_authority, path))) == (has_authority && path != "/"@),
        acceptable_queue_uri(Some((Some("https"@), has_authority, path))) == acceptable_queue_uri(
            Some((Some("http"@), has_authority, path)),
        ),
{
}

/// A queue URL is refused when it does not parse, when it has no scheme, or when it has no
/// authority.
pub proof fn law_a_queue_url_needs_a_scheme_and_an_authority(
    scheme: Option<Seq<char>>,
    has_authority: bool,
    path: Seq<char>,
)
    ensures
        !acceptable_queue_uri(None),
        !acceptable_queue_uri(Some((None, has_authority, path))),
        !acceptable_queue_uri(Some((scheme, false, path))),
{
}

} // verus!
