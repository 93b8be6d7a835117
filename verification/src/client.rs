//! The decisions of the dev CLI: which host URLs it accepts, which PCPs it sends, and how it
//! reads the host's error answers.

use vstd::prelude::*;

use crate::api_types::{ErrorEnvelope, MAX_PCP_BYTES};
use crate::codes;
use crate::text::{chars_of, text_eq};

verus! {

broadcast use vstd::string::group_string_axioms;

/// Failures running a command.
#[derive(Debug, Clone, PartialEq, Eq)]
pub enum Error {
    /// The input file could not be read: the file, and why.
    ReadInput { path: String, source: String },
    /// The output file could not be written: the file, and why.
    WriteOutput { path: String, source: String },
    /// The PCP is larger than the host will accept, caught before sending it.
    InputTooLarge {
        /// The file that failed.
        path: String,
        /// Its size.
        bytes: usize,
        /// What the host accepts.
        limit: usize,
    },
    /// The host URL was not usable.
    InvalidHost(String),
    /// The request never completed; why.
    Request(String),
    /// A migration is already running.
    ///
    /// Promoted out of `Api` because it is the one code with an obvious action: wait and run
    /// the command again.
    MigrationInProgress,
    /// The host answered with an error envelope.
    Api {
        /// The status the host chose.
        status: u16,
        /// Machine-readable code from the envelope.
        code: String,
        /// The host's human-readable message.
        message: String,
        /// Whether the host says the request may be retried.
        allow_retry: bool,
    },
    /// The host answered with a non-success status and no readable envelope.
    Status(u16),
}

/// `s` without the `/` characters it ends with.
pub open spec fn without_trailing_slashes(s: Seq<char>) -> Seq<char>
    decreases s.len(),
{
    if s.len() > 0 && s.last() == '/' {
        without_trailing_slashes(s.drop_last())
    } else {
        s
    }
}

/// `prefix` is where `s` begins.
pub open spec fn begins_with(s: Seq<char>, prefix: Seq<char>) -> bool {
    prefix.len() <= s.len() && s.subrange(0, prefix.len() as int) == prefix
}

/// A host URL the client can talk to: it names its scheme.
pub open spec fn usable_host(host: Seq<char>) -> bool {
    begins_with(host, "http://"@) || begins_with(host, "https://"@)
}

proof fn lemma_without_trailing_slashes(s: Seq<char>, end: int)
    requires
        0 <= end <= s.len(),
        forall|j: int| end <= j < s.len() ==> #[trigger] s[j] == '/',
        end == 0 || s[end - 1] != '/',
    ensures
        without_trailing_slashes(s) == s.take(end),
    decreases s.len() - end,
{
    if end < s.len() {
        let t = s.drop_last();
        assert forall|j: int| end <= j < t.len() implies #[trigger] t[j] == '/' by {
            assert(t[j] == s[j]);
        }
        if end > 0 {
            assert(t[end - 1] == s[end - 1]);
        }
        lemma_without_trailing_slashes(t, end);
        assert(t.take(end) =~= s.take(end));
    } else {
        assert(s.take(end) =~= s);
    }
}

/// Whether `s` begins with the characters of `prefix`.
fn begins_with_text(s: &Vec<char>, prefix: &str) -> (r: bool)
    ensures
        r == begins_with(s@, prefix@),
{
    let p = chars_of(prefix);
    if p.len() > s.len() {
        return false;
    }
    let mut i: usize = 0;
    while i < p.len()
        invariant
            p@ == prefix@,
            p.len() <= s.len(),
            i <= p.len(),
            forall|j: int| 0 <= j < i ==> s@[j] == p@[j],
        decreases p.len() - i,
    {
        if s[i] != p[i] {
            assert(s@.subrange(0, p@.len() as int)[i as int] != p@[i as int]);
            return false;
        }
        i = i + 1;
    }
    assert(s@.subrange(0, p@.len() as int) =~= p@);
    true
}

/// The base URL of the host named by `host`, without trailing slashes; refused unless it
/// starts with `http://` or `https://`.
pub fn host_base(host: &str) -> (r: Result<String, Error>)
    ensures
        usable_host(without_trailing_slashes(host@)) ==> (r matches Ok(base) && base@
            == without_trailing_slashes(host@)),
        !usable_host(without_trailing_slashes(host@)) ==> (r matches Err(Error::InvalidHost(message))
            && message@ == without_trailing_slashes(host@) + " must start with http:// or https://"@),
{
    let chars = chars_of(host);
    let mut end: usize = chars.len();
    while end > 0 && chars[end - 1] == '/'
        invariant
            chars@ == host@,
            end <= chars.len(),
            forall|j: int| end <= j < chars.len() ==> #[trigger] host@[j] == '/',
        decreases end,
    {
        end = end - 1;
    }
    proof {
        lemma_without_trailing_slashes(host@, end as int);
    }
    let base = host.substring_char(0, end).to_owned();
    let mut trimmed: Vec<char> = Vec::new();
    let mut i: usize = 0;
    while i < end
        invariant
            chars@ == host@,
            i <= end <= chars.len(),
            trimmed@ == host@.take(i as int),
        decreases end - i,
    {
        trimmed.push(chars[i]);
        assert(host@.take(i + 1) =~= host@.take(i as int).push(host@[i as int]));
        i = i + 1;
    }
    if !begins_with_text(&trimmed, "http://") && !begins_with_text(&trimmed, "https://") {
        let mut message = base;
        message.append(" must start with http:// or https://");
        return Err(Error::InvalidHost(message));
    }
    Ok(base)
}

/// Refuses a PCP larger than the host accepts before it is sent, so an oversized file is a
/// local message rather than a round trip and a 413.
pub fn check_input_size(path: String, bytes: usize) -> (r: Result<(), Error>)
    ensures
        bytes <= MAX_PCP_BYTES ==> r is Ok,
        bytes > MAX_PCP_BYTES ==> (r matches Err(Error::InputTooLarge { path: p, bytes: b, limit })
            && p@ == path@ && b == bytes && limit == MAX_PCP_BYTES),
{
    if bytes > MAX_PCP_BYTES {
        return Err(Error::InputTooLarge { path, bytes, limit: MAX_PCP_BYTES });
    }
    Ok(())
}

/// Reads the host's error answer, promoting the one code the caller can act on: `envelope`
/// is the envelope the body held, or `None` when it held none that could be read.
pub fn api_error(status: u16, envelope: Option<ErrorEnvelope>) -> (r: Error)
    ensures
        match envelope {
            None => r == Error::Status(status),
            Some(e) => if e.error.code@ == codes::MIGRATION_IN_PROGRESS@ {
                r == Error::MigrationInProgress
            } else {
                r matches Error::Api { status: s, code, message, allow_retry } && s == status && code@
                    == e.error.code@ && message@ == e.error.message@ && allow_retry == e.allow_retry
            },
        },
{
    let envelope = match envelope {
        None => return Error::Status(status),
        Some(envelope) => envelope,
    };
    if text_eq(envelope.error.code.as_str(), codes::MIGRATION_IN_PROGRESS) {
        return Error::MigrationInProgress;
    }
    Error::Api {
        status,
        code: envelope.error.code,
        message: envelope.error.message,
        allow_retry: envelope.allow_retry,
    }
}

/// A probe's answer: the host is up (or ready) exactly when it answers 200.
pub fn probe_passed(status: u16) -> (r: bool)
    ensures
        r == (status == crate::status::OK),
{
    status == crate::status::OK
}

} // verus!
