//! Bounded decompression of the inline PCP; the format is sniffed from its leading bytes.

use std::io::Read;

use vstd::prelude::*;

verus! {

/// Compression formats the host accepts.
#[derive(Debug, Clone, Copy, PartialEq, Eq, Structural)]
pub enum Format {
    /// RFC 1952 gzip.
    Gzip,
    /// RFC 8878 zstandard.
    Zstd,
}

/// The two bytes every gzip member starts with.
pub open spec fn gzip_magic() -> Seq<u8> {
    seq![0x1fu8, 0x8bu8]
}

/// The four bytes every zstandard frame starts with.
pub open spec fn zstd_magic() -> Seq<u8> {
    seq![0x28u8, 0xb5u8, 0x2fu8, 0xfdu8]
}

/// `prefix` is where `bytes` begins.
pub open spec fn starts_with(bytes: Seq<u8>, prefix: Seq<u8>) -> bool {
    prefix.len() <= bytes.len() && bytes.subrange(0, prefix.len() as int) =~= prefix
}

/// The format a payload announces by its magic bytes; gzip is checked first.
pub open spec fn spec_detect(payload: Seq<u8>) -> Option<Format> {
    if starts_with(payload, gzip_magic()) {
        Some(Format::Gzip)
    } else if starts_with(payload, zstd_magic()) {
        Some(Format::Zstd)
    } else {
        None
    }
}

/// Whether `bytes` begins with `prefix`.
fn has_prefix(bytes: &[u8], prefix: &[u8]) -> (r: bool)
    ensures
        r == starts_with(bytes@, prefix@),
{
    if prefix.len() > bytes.len() {
        return false;
    }
    let mut i: usize = 0;
    while i < prefix.len()
        invariant
            prefix.len() <= bytes.len(),
            i <= prefix.len(),
            forall|j: int| 0 <= j < i ==> bytes@[j] == prefix@[j],
        decreases prefix.len() - i,
    {
        if bytes[i] != prefix[i] {
            assert(bytes@.subrange(0, prefix@.len() as int)[i as int] != prefix@[i as int]);
            return false;
        }
        i = i + 1;
    }
    assert(bytes@.subrange(0, prefix@.len() as int) =~= prefix@);
    true
}

/// Identifies the compression format from the payload's leading bytes.
pub fn detect(payload: &[u8]) -> (r: Option<Format>)
    ensures
        r == spec_detect(payload@),
{
    let gzip: [u8; 2] = [0x1f, 0x8b];
    let zstd: [u8; 4] = [0x28, 0xb5, 0x2f, 0xfd];
    assert(gzip@ =~= gzip_magic());
    assert(zstd@ =~= zstd_magic());
    if has_prefix(payload, gzip.as_slice()) {
        Some(Format::Gzip)
    } else if has_prefix(payload, zstd.as_slice()) {
        Some(Format::Zstd)
    } else {
        None
    }
}


/// Failures decompressing a request payload.
#[derive(Debug)]
pub enum Error {
    /// The payload began with neither the gzip nor the zstd magic bytes.
    UnknownFormat,
    /// The payload expanded past the ceiling.
    TooLarge {
        /// The ceiling that was exceeded.
        limit: usize,
    },
    /// The stream was truncated or malformed: the format's name and the decoder's message.
    Corrupt(&'static str, String),
}

/// An `Error` by the values it holds.
pub enum ErrorView {
    UnknownFormat,
    TooLarge { limit: usize },
    Corrupt(Seq<char>, Seq<char>),
}

impl View for Error {
    type V = ErrorView;

    open spec fn view(&self) -> ErrorView {
        match self {
            Error::UnknownFormat => ErrorView::UnknownFormat,
            Error::TooLarge { limit } => ErrorView::TooLarge { limit: *limit },
            Error::Corrupt(name, detail) => ErrorView::Corrupt(name@, detail@),
        }
    }
}

/// What the gzip decoder of `flate2` yields for `payload` when at most `cap` bytes of output
/// are read: those bytes, or the message of the error that stopped it.
pub uninterp spec fn gzip_read_at_most(payload: Seq<u8>, cap: nat) -> Result<Seq<u8>, Seq<char>>;

/// What the zstandard decoder of `ruzstd` yields for `payload` when at most `cap` bytes of
/// output are read: those bytes, or the message of the error that stopped it (in setting up
/// the frame or in decoding it).
pub uninterp spec fn zstd_read_at_most(payload: Seq<u8>, cap: nat) -> Result<Seq<u8>, Seq<char>>;

/// A decoder's outcome, by its views.
pub open spec fn outcome_view(r: Result<Vec<u8>, String>) -> Result<Seq<u8>, Seq<char>> {
    match r {
        Ok(bytes) => Ok(bytes@),
        Err(message) => Err(message@),
    }
}

/// Reads at most `cap` bytes out of `flate2::read::GzDecoder` over `payload`.
///
/// Trusted: the outcome is the one that `gzip_read_at_most` names, and, as `std::io::Read::take`
/// documents, never holds more than `cap` bytes.
#[verifier::external_body]
fn gunzip_at_most(payload: &[u8], cap: u64) -> (r: Result<Vec<u8>, String>)
    ensures
        outcome_view(r) == gzip_read_at_most(payload@, cap as nat),
        r matches Ok(bytes) ==> bytes@.len() <= cap,
{
    let mut out = Vec::new();
    match flate2::read::GzDecoder::new(payload).take(cap).read_to_end(&mut out) {
        Ok(_) => Ok(out),
        Err(error) => Err(error.to_string()),
    }
}

/// Reads at most `cap` bytes out of `ruzstd::decoding::StreamingDecoder` over `payload`.
///
/// Trusted: the outcome is the one that `zstd_read_at_most` names (a frame that cannot be set up
/// and a block that does not decode both end in the error's message), and, as
/// `std::io::Read::take` documents, never holds more than `cap` bytes.
#[verifier::external_body]
fn unzstd_at_most(payload: &[u8], cap: u64) -> (r: Result<Vec<u8>, String>)
    ensures
        outcome_view(r) == zstd_read_at_most(payload@, cap as nat),
        r matches Ok(bytes) ==> bytes@.len() <= cap,
{
    let decoder = match ruzstd::decoding::StreamingDecoder::new(payload) {
        Ok(decoder) => decoder,
        Err(error) => return Err(error.to_string()),
    };
    let mut out = Vec::new();
    match decoder.take(cap).read_to_end(&mut out) {
        Ok(_) => Ok(out),
        Err(error) => Err(error.to_string()),
    }
}

/// The name a format goes by in error messages.
pub open spec fn format_name(format: Format) -> Seq<char> {
    match format {
        Format::Gzip => "gzip"@,
        Format::Zstd => "zstd"@,
    }
}

/// What the decoder of `format` yields for `payload`, reading at most `cap` bytes.
pub open spec fn read_at_most(format: Format, payload: Seq<u8>, cap: nat) -> Result<Seq<u8>, Seq<char>> {
    match format {
        Format::Gzip => gzip_read_at_most(payload, cap),
        Format::Zstd => zstd_read_at_most(payload, cap),
    }
}

/// A decompression answer by the values it holds.
pub open spec fn answer_view(r: Result<Vec<u8>, Error>) -> Result<Seq<u8>, ErrorView> {
    match r {
        Ok(pcp) => Ok(pcp@),
        Err(e) => Err(e@),
    }
}

/// What a decoder's outcome comes to: a decoder error is `Corrupt`, named after the format,
/// and output past `limit` is `TooLarge`.
pub open spec fn spec_finish_decoding(
    format: Format,
    decoded: Result<Seq<u8>, Seq<char>>,
    limit: usize,
) -> Result<Seq<u8>, ErrorView> {
    match decoded {
        Err(message) => Err(ErrorView::Corrupt(format_name(format), message)),
        Ok(bytes) => if bytes.len() > limit {
            Err(ErrorView::TooLarge { limit })
        } else {
            Ok(bytes)
        },
    }
}

/// What `decompress(payload, limit)` answers: the format is sniffed and its decoder is read
/// one byte past `limit` (its claimed size is attacker-controlled).
pub open spec fn spec_decompress(payload: Seq<u8>, limit: usize) -> Result<Seq<u8>, ErrorView> {
    match spec_detect(payload) {
        None => Err(ErrorView::UnknownFormat),
        Some(format) => spec_finish_decoding(format, read_at_most(format, payload, limit as nat + 1), limit),
    }
}

/// Turns what the decoder of `format` yielded into the decompressed PCP or the failure.
pub fn finish_decoding(format: Format, decoded: Result<Vec<u8>, String>, limit: usize) -> (r: Result<Vec<u8>, Error>)
    ensures
        answer_view(r) == spec_finish_decoding(format, outcome_view(decoded), limit),
{
    match decoded {
        Err(detail) => {
            let name = match format {
                Format::Gzip => "gzip",
                Format::Zstd => "zstd",
            };
            Err(Error::Corrupt(name, detail))
        },
        Ok(pcp) => {
            if pcp.len() > limit {
                Err(Error::TooLarge { limit })
            } else {
                Ok(pcp)
            }
        },
    }
}

/// Decompresses `payload`, refusing to hold more than `limit` bytes. CPU-bound; call it off
/// the async runtime.
pub fn decompress(payload: &[u8], limit: usize) -> (r: Result<Vec<u8>, Error>)
    requires
        limit < u64::MAX,
    ensures
        answer_view(r) == spec_decompress(payload@, limit),
        r matches Ok(pcp) ==> pcp@.len() <= limit,
{
    let format = match detect(payload) {
        Some(format) => format,
        None => return Err(Error::UnknownFormat),
    };
    let cap: u64 = limit as u64 + 1;
    let decoded = match format {
        Format::Gzip => gunzip_at_most(payload, cap),
        Format::Zstd => unzstd_at_most(payload, cap),
    };
    finish_decoding(format, decoded, limit)
}

} // verus!
