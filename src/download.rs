//! Download planning: status, headers and the transport strategy for a file
//! response. The caller performs the reads the plan names.

use vstd::prelude::*;
use vstd::string::StringExecFns;
use vstd::utf8::{decode_utf8, valid_utf8};
use crate::decimal::{dec_text, push_char, push_decimal};
use crate::range::{header_view, parse_range, range_outcome, RangeOutcome};

verus! {

/// Whole files below this size are served from a read-only memory map.
pub const MAP_LIMIT: u64 = 4194304;

/// Ranges shorter than this are read into memory in one piece.
pub const SMALL_RANGE_LIMIT: u64 = 4194304;

/// Read buffer of a streamed transfer.
pub const STREAM_BUFFER: usize = 1048576;

/// How the body of a response is produced.
#[derive(Clone, Copy, Debug, PartialEq, Eq, Structural)]
pub enum Transport {
    /// The whole file, memory-mapped.
    Mapped,
    /// The whole file, streamed through a large buffer on a blocking-capable worker.
    BufferedFull,
    /// The whole file, streamed through a fast gzip compressor.
    CompressedStream,
    /// `len` bytes from `start`, read into memory in one piece.
    BufferedRange { start: u64, len: u64 },
    /// `len` bytes from `start`, streamed.
    StreamedRange { start: u64, len: u64 },
    /// No body.
    Empty,
}

/// The transport for a range outcome on a file of `size` bytes.
pub open spec fn transport_of(outcome: RangeOutcome, size: u64, gzip: bool) -> Transport {
    match outcome {
        RangeOutcome::Full => if gzip {
            Transport::CompressedStream
        } else if size < MAP_LIMIT {
            Transport::Mapped
        } else {
            Transport::BufferedFull
        },
        RangeOutcome::Partial(br) => {
            let len = (br.end - br.start + 1) as u64;
            if len < SMALL_RANGE_LIMIT {
                Transport::BufferedRange { start: br.start, len }
            } else {
                Transport::StreamedRange { start: br.start, len }
            }
        },
        _ => Transport::Empty,
    }
}

/// The bytes a transport delivers from a file holding `content` (before any
/// compression).
pub open spec fn served(content: Seq<u8>, t: Transport) -> Seq<u8> {
    match t {
        Transport::Mapped | Transport::BufferedFull | Transport::CompressedStream => content,
        Transport::BufferedRange { start, len } | Transport::StreamedRange { start, len } => content.subrange(
            start as int,
            start + len,
        ),
        Transport::Empty => Seq::empty(),
    }
}

/// Chooses how to send the body for a range outcome.
pub fn choose_transport(outcome: RangeOutcome, size: u64, gzip: bool) -> (r: Transport)
    requires
        outcome matches RangeOutcome::Partial(br) ==> br.within(size as nat),
    ensures
        r == transport_of(outcome, size, gzip),
{
    match outcome {
        RangeOutcome::Full => if gzip {
            Transport::CompressedStream
        } else if size < MAP_LIMIT {
            Transport::Mapped
        } else {
            Transport::BufferedFull
        },
        RangeOutcome::Partial(br) => {
            let len = br.end - br.start + 1;
            if len < SMALL_RANGE_LIMIT {
                Transport::BufferedRange { start: br.start, len }
            } else {
                Transport::StreamedRange { start: br.start, len }
            }
        },
        _ => Transport::Empty,
    }
}

pub open spec fn lower_ascii(b: u8) -> u8 {
    if 65 <= b <= 90 {
        (b + 32) as u8
    } else {
        b
    }
}

/// `h` names the gzip coding at index `i` (any letter case).
pub open spec fn gzip_at(h: Seq<u8>, i: int) -> bool {
    &&& 0 <= i
    &&& i + 4 <= h.len()
    &&& lower_ascii(h[i]) == 103u8
    &&& lower_ascii(h[i + 1]) == 122u8
    &&& lower_ascii(h[i + 2]) == 105u8
    &&& lower_ascii(h[i + 3]) == 112u8
}

/// `h` names the gzip coding somewhere.
pub open spec fn mentions_gzip(h: Seq<u8>) -> bool {
    exists|i: int| gzip_at(h, i)
}

/// Whether an `Accept-Encoding` header offers gzip.
pub open spec fn offers_gzip(header: Option<Seq<u8>>) -> bool {
    match header {
        None => false,
        Some(h) => mentions_gzip(h),
    }
}

/// Whether the client accepts a gzip-compressed body.
pub fn accepts_gzip(header: Option<&[u8]>) -> (r: bool)
    ensures
        r == offers_gzip(
            header_view(header),
        ),
{
    match header {
        None => false,
        Some(h) => names_gzip(h),
    }
}

fn names_gzip(h: &[u8]) -> (r: bool)
    ensures
        r == mentions_gzip(h@),
{
    if h.len() < 4 {
        assert(forall|i: int| !gzip_at(h@, i));
        return false;
    }
    let mut i: usize = 0;
    let last = h.len() - 4;
    while i <= last
        invariant
            0 <= i <= last + 1,
            last == h@.len() - 4,
            forall|j: int| 0 <= j < i ==> !gzip_at(h@, j),
        decreases last + 1 - i,
    {
        if lower(h[i]) == 103 && lower(h[i + 1]) == 122 && lower(h[i + 2]) == 105 && lower(h[i + 3]) == 112 {
            assert(gzip_at(h@, i as int));
            assert(mentions_gzip(h@));
            return true;
        }
        i = i + 1;
    }
    assert(forall|j: int| !gzip_at(h@, j));
    false
}

fn lower(b: u8) -> (r: u8)
    ensures
        r == lower_ascii(b),
{
    if b >= 65 && b <= 90 {
        b + 32
    } else {
        b
    }
}

/// A planned file response: what the caller sends besides the common headers.
pub struct DownloadPlan {
    pub status: u16,
    pub transport: Transport,
    /// `Content-Range`, when the response has one.
    pub content_range: Option<String>,
    /// `Content-Length`; absent when the body is compressed.
    pub content_length: Option<u64>,
    /// The body is gzip-compressed (`Content-Encoding: gzip`, chunked, `Vary`).
    pub gzip: bool,
}

/// `bytes <start>-<end>/<size>`
pub open spec fn content_range_text(start: nat, end: nat, size: nat) -> Seq<char> {
    "bytes "@ + dec_text(start) + "-"@ + dec_text(end) + "/"@ + dec_text(size)
}

/// `bytes */<size>`
pub open spec fn unsatisfied_range_text(size: nat) -> Seq<char> {
    "bytes */"@ + dec_text(size)
}

/// The `Content-Range` value of a partial response.
pub fn content_range_value(start: u64, end: u64, size: u64) -> (r: String)
    ensures
        r@ == content_range_text(start as nat, end as nat, size as nat),
{
    let mut s = String::from_str("bytes ");
    push_decimal(&mut s, start);
    s.append("-");
    push_decimal(&mut s, end);
    s.append("/");
    push_decimal(&mut s, size);
    s
}

/// The `Content-Range` value of a 416 response.
pub fn unsatisfied_range_value(size: u64) -> (r: String)
    ensures
        r@ == unsatisfied_range_text(size as nat),
{
    let mut s = String::from_str("bytes */");
    push_decimal(&mut s, size);
    s
}

/// The status of a file response for a range outcome.
pub open spec fn status_of(outcome: RangeOutcome) -> u16 {
    match outcome {
        RangeOutcome::Full => 200,
        RangeOutcome::Partial(_) => 206,
        RangeOutcome::Unsatisfiable => 416,
        RangeOutcome::Malformed => 400,
    }
}

/// The plan, as a spec, for a file of `size` bytes.
pub open spec fn plan_matches(p: DownloadPlan, outcome: RangeOutcome, size: u64, gzip: bool) -> bool {
    let compressed = outcome == RangeOutcome::Full && gzip;
    &&& p.status == status_of(outcome)
    &&& p.transport == transport_of(outcome, size, gzip)
    &&& p.gzip == compressed
    &&& match outcome {
        RangeOutcome::Full => p.content_range is None && p.content_length == (if compressed {
            None
        } else {
            Some(size)
        }),
        RangeOutcome::Partial(br) => p.content_range matches Some(c) && c@ == content_range_text(
            br.start as nat,
            br.end as nat,
            size as nat,
        ) && p.content_length == Some((br.end - br.start + 1) as u64),
        RangeOutcome::Unsatisfiable => p.content_range matches Some(c) && c@
            == unsatisfied_range_text(size as nat) && p.content_length == Some(0u64),
        RangeOutcome::Malformed => p.content_range is None && p.content_length == Some(0u64),
    }
}

/// Plans the response for a regular file of `size` bytes, given the request's
/// `Range` and `Accept-Encoding` headers. Compression applies to whole-file
/// responses only.
pub fn plan_download(range: Option<&[u8]>, accept_encoding: Option<&[u8]>, size: u64) -> (r:
    DownloadPlan)
    ensures
        plan_matches(
            r,
            range_outcome(
                header_view(range),
                size,
            ),
            size,
            offers_gzip(
                header_view(accept_encoding),
            ),
        ),
{
    let outcome = parse_range(range, size);
    let gzip = accepts_gzip(accept_encoding);
    let transport = choose_transport(outcome, size, gzip);
    match outcome {
        RangeOutcome::Full => DownloadPlan {
            status: 200,
            transport,
            content_range: None,
            content_length: if gzip {
                None
            } else {
                Some(size)
            },
            gzip,
        },
        RangeOutcome::Partial(br) => DownloadPlan {
            status: 206,
            transport,
            content_range: Some(content_range_value(br.start, br.end, size)),
            content_length: Some(br.end - br.start + 1),
            gzip: false,
        },
        RangeOutcome::Unsatisfiable => DownloadPlan {
            status: 416,
            transport,
            content_range: Some(unsatisfied_range_value(size)),
            content_length: Some(0),
            gzip: false,
        },
        RangeOutcome::Malformed => DownloadPlan {
            status: 400,
            transport,
            content_range: None,
            content_length: Some(0),
            gzip: false,
        },
    }
}

/// Every whole-file download returns the file as it is: status 200, a body of
/// exactly the stored bytes, and, when uncompressed, a `Content-Length` equal to
/// their number.
pub proof fn lemma_whole_file_download(content: Seq<u8>, accept_encoding: Option<Seq<u8>>, p: DownloadPlan)
    requires
        content.len() <= u64::MAX,
        plan_matches(p, range_outcome(None, content.len() as u64), content.len() as u64, offers_gzip(accept_encoding)),
    ensures
        range_outcome(None, content.len() as u64) == RangeOutcome::Full,
        p.status == 200,
        served(content, p.transport) == content,
        !offers_gzip(accept_encoding) ==> p.content_length == Some(content.len() as u64),
{
}

pub open spec fn is_alnum(b: u8) -> bool {
    (48 <= b <= 57) || (65 <= b <= 90) || (97 <= b <= 122)
}

/// The upper-case hex digit of `d < 16`.
pub open spec fn hex_upper(d: nat) -> char {
    if d < 10 {
        ((48 + d) as u8) as char
    } else {
        ((55 + d) as u8) as char
    }
}

/// Percent-encoding of every byte that is not an ASCII letter or digit.
pub open spec fn pct_encoded(s: Seq<u8>) -> Seq<char>
    decreases s.len(),
{
    if s.len() == 0 {
        Seq::empty()
    } else {
        let head = if is_alnum(s[0]) {
            seq![s[0] as char]
        } else {
            seq!['%', hex_upper(s[0] as nat / 16), hex_upper(s[0] as nat % 16)]
        };
        head + pct_encoded(s.drop_first())
    }
}

/// Relies on percent_encoding::percent_encode with NON_ALPHANUMERIC, which
/// keeps ASCII letters and digits and writes every other byte as `%XX`.
#[verifier::external_body]
fn percent_encode_text(b: &[u8]) -> (r: String)
    ensures
        r@ == pct_encoded(b@),
{
    percent_encoding::percent_encode(b, percent_encoding::NON_ALPHANUMERIC).to_string()
}

/// A character that may stand in a quoted header parameter as it is.
pub open spec fn header_safe(c: char) -> bool {
    ' ' <= c <= '~' && c != '"' && c != '\\'
}

/// The name with every character that is not header-safe replaced by `_`.
pub open spec fn ascii_safe(s: Seq<char>) -> Seq<char> {
    s.map_values(|c: char| if header_safe(c) { c } else { '_' })
}

/// `attachment; filename="<ascii-safe name>"; filename*=UTF-8''<percent-encoded name>`
pub open spec fn disposition_text(name: Seq<char>) -> Seq<char> {
    "attachment; filename=\""@ + ascii_safe(name) + "\"; filename*=UTF-8''"@ + pct_encoded(
        vstd::utf8::encode_utf8(name),
    )
}

/// The `Content-Disposition` value that offers the file under `name`.
pub fn content_disposition(name: &str) -> (r: String)
    ensures
        r@ == disposition_text(name@),
{
    let mut s = String::from_str("attachment; filename=\"");
    let ghost start = s@;
    let n = name.unicode_len();
    let mut i: usize = 0;
    while i < n
        invariant
            0 <= i <= n,
            n == name@.len(),
            s@ == start + ascii_safe(name@.subrange(0, i as int)),
        decreases n - i,
    {
        let c = name.get_char(i);
        let safe = c >= ' ' && c <= '~' && c != '"' && c != '\\';
        push_char(&mut s, if safe { c } else { '_' });
        assert(ascii_safe(name@.subrange(0, i + 1)) =~= ascii_safe(name@.subrange(0, i as int)).push(
            if header_safe(c) { c } else { '_' },
        ));
        i = i + 1;
    }
    assert(name@.subrange(0, n as int) =~= name@);
    s.append("\"; filename*=UTF-8''");
    let encoded = percent_encode_text(name.as_bytes());
    s.append(encoded.as_str());
    s
}

/// The media type that the extension of a name suggests.
pub uninterp spec fn mime_of(name: Seq<char>) -> Seq<char>;

/// Relies on mime_guess::from_path(..).first_or_octet_stream(): the first media
/// type registered for the name's extension, `application/octet-stream` when
/// none is.
#[verifier::external_body]
fn guess_mime(name: &str) -> (r: String)
    ensures
        r@ == mime_of(name@),
{
    mime_guess::from_path(name).first_or_octet_stream().as_ref().to_string()
}

/// Relies on String::from_utf8: it succeeds exactly on valid UTF-8, which it
/// decodes.
#[verifier::external_body]
fn utf8_text(b: Vec<u8>) -> (r: Option<String>)
    ensures
        r is Some <==> valid_utf8(b@),
        r matches Some(s) ==> s@ == decode_utf8(b@),
{
    String::from_utf8(b).ok()
}

/// The name a file is offered under: its last component when that is UTF-8,
/// else `file`.
pub open spec fn offered_name(path: Seq<Seq<u8>>) -> Seq<char> {
    if path.len() > 0 && valid_utf8(path.last()) {
        decode_utf8(path.last())
    } else {
        "file"@
    }
}

/// Computes `offered_name` of a canonical path.
pub fn file_name_of(path: &[Vec<u8>]) -> (r: String)
    ensures
        r@ == offered_name(crate::resolve::names(path@)),
{
    if path.len() == 0 {
        return String::from_str("file");
    }
    let last = vstd::slice::slice_to_vec(path[path.len() - 1].as_slice());
    match utf8_text(last) {
        Some(s) => s,
        None => String::from_str("file"),
    }
}

/// The headers every file response carries.
pub struct FileHeaders {
    pub content_type: String,
    pub content_disposition: String,
    pub accept_ranges: String,
    /// The file's true size, also when the body is compressed.
    pub file_size: String,
}

/// The headers of a file response for the file `name` of `size` bytes.
pub fn file_headers(name: &str, size: u64) -> (r: FileHeaders)
    ensures
        r.content_type@ == mime_of(name@),
        r.content_disposition@ == disposition_text(name@),
        r.accept_ranges@ == "bytes"@,
        r.file_size@ == dec_text(size as nat),
{
    let mut file_size = String::new();
    push_decimal(&mut file_size, size);
    FileHeaders {
        content_type: guess_mime(name),
        content_disposition: content_disposition(name),
        accept_ranges: String::from_str("bytes"),
        file_size,
    }
}

} // verus!
