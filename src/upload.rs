//! Upload planning: whole-file multipart parts and the header-driven chunk
//! protocol. The caller streams bytes to disk as the plans say; the names it
//! writes to, the offsets, and when a temp file is created or finalized are
//! decided here.

use vstd::prelude::*;
use vstd::string::StringExecFns;
use crate::decimal::{dec_text, parse_decimal, push_decimal};
use crate::range::header_view;
use crate::urlpath::{decode_percent_text, pct_decoded, utf8_lossy};

verus! {

/// The record reported for one upload request or one stored part.
pub struct UploadResponse {
    pub success: bool,
    pub message: String,
    pub filename: Option<String>,
    pub size: Option<u64>,
}

impl UploadResponse {
    /// The record of a stored file.
    pub fn saved(filename: String, size: u64) -> (r: UploadResponse)
        ensures
            r.success,
            r.message@ == "上传成功"@,
            r.filename matches Some(f) && f@ == filename@,
            r.size == Some(size),
    {
        UploadResponse {
            success: true,
            message: String::from_str("上传成功"),
            filename: Some(filename),
            size: Some(size),
        }
    }
}

/// Why an upload request was refused; each is answered with 400.
#[derive(Clone, Copy, Debug, PartialEq, Eq, Structural)]
pub enum UploadError {
    /// No `Content-Type` header on a multipart upload.
    MissingContentType,
    /// The `Content-Type` is not multipart/form-data with a boundary.
    BadBoundary,
    /// The chunk count is zero, or the chunk index is not below it.
    BadChunkHeader,
    /// The file name is empty once sanitized.
    EmptyFilename,
    /// The final name would be the temp file's own name.
    NameClash,
}

impl UploadError {
    /// The HTTP status that reports this refusal.
    pub fn status(&self) -> (r: u16)
        ensures
            r == 400,
    {
        400
    }
}

/// The boundary that a `Content-Type` value declares, if it is
/// multipart/form-data with one.
pub uninterp spec fn boundary_of(content_type: Seq<char>) -> Option<Seq<char>>;

/// Relies on multer::parse_boundary, which parses the value as a media type and
/// returns its `boundary` parameter when the type is multipart/form-data.
#[verifier::external_body]
fn parse_boundary_of(content_type: &str) -> (r: Option<String>)
    ensures
        match r {
            Some(b) => boundary_of(content_type@) == Some(b@),
            None => boundary_of(content_type@) is None,
        },
{
    multer::parse_boundary(content_type).ok()
}

/// The multipart boundary of a whole-file upload.
pub fn multipart_boundary(content_type: Option<&str>) -> (r: Result<String, UploadError>)
    ensures
        match content_type {
            None => r == Err::<String, UploadError>(UploadError::MissingContentType),
            Some(ct) => match boundary_of(ct@) {
                None => r == Err::<String, UploadError>(UploadError::BadBoundary),
                Some(b) => r matches Ok(s) && s@ == b,
            },
        },
{
    match content_type {
        None => Err(UploadError::MissingContentType),
        Some(ct) => match parse_boundary_of(ct) {
            None => Err(UploadError::BadBoundary),
            Some(b) => Ok(b),
        },
    }
}

/// What `sanitize_filename::sanitize` makes of a client-supplied name.
pub uninterp spec fn sanitized(name: Seq<char>) -> Seq<char>;

/// A name that stays in the directory it is joined onto: no separator, not
/// `.` or `..`.
pub open spec fn single_component(name: Seq<char>) -> bool {
    &&& forall|i: int| 0 <= i < name.len() ==> name[i] != '/'
    &&& name != "."@
    &&& name != ".."@
}

/// Relies on sanitize_filename::sanitize: it removes `/ ? < > \ : * | "` and
/// control characters and replaces a name made only of dots with the empty
/// name, so what it returns has no separator and is neither `.` nor `..`.
#[verifier::external_body]
fn sanitize_name(name: &str) -> (r: String)
    ensures
        r@ == sanitized(name@),
        single_component(r@),
{
    sanitize_filename::sanitize(name)
}

/// The file name a multipart part is stored under: parts without a file name
/// are form fields and are skipped; a name that sanitizes to nothing is refused.
pub fn part_target(declared: Option<&str>) -> (r: Result<Option<String>, UploadError>)
    ensures
        match declared {
            None => r matches Ok(None),
            Some(f) => if sanitized(f@).len() == 0 {
                r == Err::<Option<String>, UploadError>(UploadError::EmptyFilename)
            } else {
                r matches Ok(Some(n)) && n@ == sanitized(f@)
            },
        },
        r matches Ok(Some(n)) ==> single_component(n@) && n@.len() > 0,
{
    match declared {
        None => Ok(None),
        Some(f) => {
            let n = sanitize_name(f);
            if n.unicode_len() == 0 {
                Err(UploadError::EmptyFilename)
            } else {
                Ok(Some(n))
            }
        },
    }
}

/// Whether the chunk-protocol marker header selects the chunk protocol.
pub fn is_chunk_upload(marker: Option<&str>) -> (r: bool)
    ensures
        r == (marker matches Some(m) && m@ == "true"@),
{
    match marker {
        None => false,
        Some(m) => {
            let t = String::from_str("true");
            let m = String::from_str(m);
            m == t
        },
    }
}

/// One chunk request, as its headers give it, validated and with its names
/// sanitized.
pub struct ChunkRequest {
    pub file_id: String,
    /// The final name in the target directory.
    pub filename: String,
    /// The temp file's name in the target directory.
    pub temp_name: String,
    pub chunk_index: u64,
    pub total_chunks: u64,
    pub total_size: u64,
    pub chunk_start: u64,
}

/// The temp file name of a transfer: `.<sanitized id>.tmp`.
pub open spec fn temp_name_of(file_id: Seq<char>) -> Seq<char> {
    "."@ + sanitized(file_id) + ".tmp"@
}

/// A header number, or its default when the header is absent or not a number.
pub open spec fn number_or(h: Option<Seq<u8>>, default: u64) -> u64 {
    match h {
        Some(v) => if crate::decimal::all_digits(v) && v.len() > 0 && crate::decimal::digits_value(v)
            <= u64::MAX {
            crate::decimal::digits_value(v) as u64
        } else {
            default
        },
        None => default,
    }
}

fn number_or_default(h: Option<&[u8]>, default: u64) -> (r: u64)
    ensures
        r == number_or(header_view(h), default),
{
    match h {
        None => default,
        Some(v) => match parse_decimal(v) {
            Some(n) => n,
            None => default,
        },
    }
}

/// The final name requested: the percent-decoded, sanitized file name header,
/// or `file_<id>` sanitized when there is none.
pub open spec fn final_name_of(filename: Option<Seq<u8>>, file_id: Seq<char>) -> Seq<char> {
    match filename {
        Some(raw) => sanitized(utf8_lossy(pct_decoded(raw))),
        None => sanitized("file_"@ + file_id),
    }
}

/// The chunk request the headers describe, as a spec. An absent or unreadable
/// number takes its default: index 0, one chunk, size 0, start 0; an absent id
/// is `unknown`.
pub open spec fn chunk_request_spec(
    file_id: Option<Seq<char>>,
    filename: Option<Seq<u8>>,
    chunk_index: Option<Seq<u8>>,
    total_chunks: Option<Seq<u8>>,
    total_size: Option<Seq<u8>>,
    chunk_start: Option<Seq<u8>>,
    r: Result<ChunkRequest, UploadError>,
) -> bool {
    let id = match file_id {
        Some(i) => i,
        None => "unknown"@,
    };
    let index = number_or(chunk_index, 0);
    let total = number_or(total_chunks, 1);
    let name = final_name_of(filename, id);
    let temp = temp_name_of(id);
    if total == 0 || index >= total {
        r == Err::<ChunkRequest, UploadError>(UploadError::BadChunkHeader)
    } else if name.len() == 0 {
        r == Err::<ChunkRequest, UploadError>(UploadError::EmptyFilename)
    } else if name == temp {
        r == Err::<ChunkRequest, UploadError>(UploadError::NameClash)
    } else {
        r matches Ok(c) && c.file_id@ == id && c.filename@ == name && c.temp_name@ == temp
            && c.chunk_index == index && c.total_chunks == total && c.total_size == number_or(
            total_size,
            0,
        ) && c.chunk_start == number_or(chunk_start, 0)
    }
}

impl ChunkRequest {
    /// Both names stay in the target directory and differ; the index is in range.
    pub open spec fn wf(self) -> bool {
        &&& single_component(self.filename@)
        &&& single_component(self.temp_name@)
        &&& self.filename@.len() > 0
        &&& self.filename@ != self.temp_name@
        &&& self.chunk_index < self.total_chunks
    }

    /// Reads a chunk request from its header values.
    pub fn from_headers(
        file_id: Option<&str>,
        filename: Option<&[u8]>,
        chunk_index: Option<&[u8]>,
        total_chunks: Option<&[u8]>,
        total_size: Option<&[u8]>,
        chunk_start: Option<&[u8]>,
    ) -> (r: Result<ChunkRequest, UploadError>)
        ensures
            chunk_request_spec(
                match file_id {
                    Some(i) => Some(i@),
                    None => None,
                },
                header_view(filename),
                header_view(chunk_index),
                header_view(total_chunks),
                header_view(total_size),
                header_view(chunk_start),
                r,
            ),
            r matches Ok(c) ==> c.wf(),
    {
        let id = match file_id {
            Some(i) => String::from_str(i),
            None => String::from_str("unknown"),
        };
        let index = number_or_default(chunk_index, 0);
        let total = number_or_default(total_chunks, 1);
        if total == 0 || index >= total {
            return Err(UploadError::BadChunkHeader);
        }
        let name = match filename {
            Some(raw) => {
                let decoded = decode_percent_text(raw);
                sanitize_name(decoded.as_str())
            },
            None => {
                let mut fallback = String::from_str("file_");
                fallback.append(id.as_str());
                sanitize_name(fallback.as_str())
            },
        };
        if name.unicode_len() == 0 {
            return Err(UploadError::EmptyFilename);
        }
        let mut temp = String::from_str(".");
        let safe_id = sanitize_name(id.as_str());
        temp.append(safe_id.as_str());
        temp.append(".tmp");
        proof {
            reveal_strlit(".");
            reveal_strlit("..");
            reveal_strlit(".tmp");
            assert forall|i: int| 0 <= i < temp@.len() implies temp@[i] != '/' by {
                if 1 <= i < 1 + safe_id@.len() {
                    assert(temp@[i] == safe_id@[i - 1]);
                }
            }
            assert(temp@.len() == safe_id@.len() + 5);
        }
        if name == temp {
            return Err(UploadError::NameClash);
        }
        Ok(
            ChunkRequest {
                file_id: id,
                filename: name,
                temp_name: temp,
                chunk_index: index,
                total_chunks: total,
                total_size: number_or_default(total_size, 0),
                chunk_start: number_or_default(chunk_start, 0),
            },
        )
    }

    /// The first chunk creates (truncates) the temp file and sizes it.
    pub fn creates_temp(&self) -> (r: bool)
        ensures
            r == (self.chunk_index == 0),
    {
        self.chunk_index == 0
    }

    pub open spec fn spec_finalizes(self) -> bool {
        self.chunk_index + 1 == self.total_chunks
    }

    /// The last chunk renames the temp file to the final name.
    pub fn finalizes(&self) -> (r: bool)
        ensures
            r == self.spec_finalizes(),
    {
        self.total_chunks > 0 && self.chunk_index == self.total_chunks - 1
    }

    /// The message reported for this chunk.
    pub open spec fn message_text(self) -> Seq<char> {
        if self.spec_finalizes() {
            "文件上传完成"@
        } else {
            "分块 "@ + dec_text((self.chunk_index + 1) as nat) + "/"@ + dec_text(self.total_chunks as nat)
                + " 上传成功"@
        }
    }

    /// The record reported once this chunk's `body_len` bytes are written.
    pub fn response(&self, body_len: u64) -> (r: UploadResponse)
        requires
            self.wf(),
        ensures
            r.success,
            r.message@ == self.message_text(),
            r.filename matches Some(f) && f@ == self.filename@,
            r.size == Some(body_len),
    {
        let message = if self.finalizes() {
            String::from_str("文件上传完成")
        } else {
            let mut m = String::from_str("分块 ");
            push_decimal(&mut m, self.chunk_index + 1);
            m.append("/");
            push_decimal(&mut m, self.total_chunks);
            m.append(" 上传成功");
            m
        };
        UploadResponse {
            success: true,
            message,
            filename: Some(self.filename.clone()),
            size: Some(body_len),
        }
    }
}

/// Whether a directory entry is a temp file of the chunk protocol, to be swept
/// at startup: a name that starts with `.` and ends with `.tmp`.
pub open spec fn is_temp_name(name: Seq<char>) -> bool {
    name.len() >= 1 && name[0] == '.' && name.len() >= 4 && name.subrange(
        name.len() - 4,
        name.len() as int,
    ) == ".tmp"@
}

/// Decides whether the startup sweep removes an entry.
pub fn is_temp_file_name(name: &str) -> (r: bool)
    ensures
        r == is_temp_name(name@),
{
    let n = name.unicode_len();
    if n < 4 {
        return false;
    }
    if name.get_char(0) != '.' {
        return false;
    }
    let tail = name.substring_char(n - 4, n);
    let tail = String::from_str(tail);
    let suffix = String::from_str(".tmp");
    tail == suffix
}

} // verus!
