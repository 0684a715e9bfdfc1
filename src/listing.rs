//! Helpers of the directory listing: parent links, human-readable sizes,
//! extensions and icons.

use vstd::prelude::*;
use vstd::string::StringExecFns;
use vstd::arithmetic::div_mod::{lemma_div_is_ordered, lemma_div_is_ordered_by_denominator};
use crate::decimal::{dec_text, push_decimal};

verus! {

/// `s` without its trailing separators.
pub open spec fn trim_trailing_slashes(s: Seq<char>) -> Seq<char>
    decreases s.len(),
{
    if s.len() > 0 && s.last() == '/' {
        trim_trailing_slashes(s.drop_last())
    } else {
        s
    }
}

/// Index of the last `c` in `s`, or -1.
pub open spec fn last_index(s: Seq<char>, c: char) -> int
    decreases s.len(),
{
    if s.len() == 0 {
        -1
    } else if s.last() == c {
        s.len() - 1
    } else {
        last_index(s.drop_last(), c)
    }
}

/// The link one level up from a listing path: the path without trailing
/// separators, cut before its last separator, and always starting with `/`.
pub open spec fn parent_text(s: Seq<char>) -> Seq<char> {
    let t = trim_trailing_slashes(s);
    let k = last_index(t, '/');
    let p = if k < 0 {
        seq!['/']
    } else {
        t.subrange(0, k)
    };
    if p.len() > 0 && p[0] == '/' {
        p
    } else {
        seq!['/'] + p
    }
}

/// Finds `last_index(s[0..end], c)` by scanning back from `end`.
fn last_index_before(s: &str, end: usize, c: char) -> (r: usize)
    requires
        end <= s@.len(),
    ensures
        r <= end,
        r == 0 ==> last_index(s@.subrange(0, end as int), c) == -1,
        r > 0 ==> last_index(s@.subrange(0, end as int), c) == r - 1,
{
    let mut j = end;
    while j > 0 && s.get_char(j - 1) != c
        invariant
            j <= end <= s@.len(),
            last_index(s@.subrange(0, end as int), c) == last_index(s@.subrange(0, j as int), c),
        decreases j,
    {
        assert(s@.subrange(0, j as int).drop_last() =~= s@.subrange(0, j - 1));
        j = j - 1;
    }
    if j > 0 {
        assert(s@.subrange(0, j as int).last() == c);
    }
    j
}

/// The link to the parent of a listing path.
pub fn parent_path(current_path: &str) -> (r: String)
    ensures
        r@ == parent_text(current_path@),
{
    let s = current_path;
    let n = s.unicode_len();
    let mut end = n;
    assert(s@.subrange(0, n as int) =~= s@);
    while end > 0 && s.get_char(end - 1) == '/'
        invariant
            end <= n,
            n == s@.len(),
            trim_trailing_slashes(s@) == trim_trailing_slashes(s@.subrange(0, end as int)),
        decreases end,
    {
        assert(s@.subrange(0, end as int).drop_last() =~= s@.subrange(0, end - 1));
        end = end - 1;
    }
    let ghost t = s@.subrange(0, end as int);
    assert(trim_trailing_slashes(t) == t);
    let j = last_index_before(s, end, '/');
    let mut out = String::from_str("/");
    proof {
        reveal_strlit("/");
    }
    assert(out@ =~= seq!['/']);
    if j == 0 {
        return out;
    }
    let p = s.substring_char(0, j - 1);
    assert(p@ =~= t.subrange(0, j - 1));
    if j - 1 > 0 && p.get_char(0) == '/' {
        return String::from_str(p);
    }
    out.append(p);
    out
}

/// 1024 to the power `k`, for the units up to PB.
pub open spec fn unit_divisor(k: nat) -> nat {
    if k == 0 {
        1
    } else if k == 1 {
        1024
    } else if k == 2 {
        1048576
    } else if k == 3 {
        1073741824
    } else if k == 4 {
        1099511627776
    } else {
        1125899906842624
    }
}

/// The largest unit, up to PB, that `size` bytes reach.
pub open spec fn unit_index(size: nat) -> nat {
    if size >= 1125899906842624 {
        5
    } else if size >= 1099511627776 {
        4
    } else if size >= 1073741824 {
        3
    } else if size >= 1048576 {
        2
    } else if size >= 1024 {
        1
    } else {
        0
    }
}

pub open spec fn unit_name(k: nat) -> Seq<char> {
    if k == 0 {
        "B"@
    } else if k == 1 {
        "KB"@
    } else if k == 2 {
        "MB"@
    } else if k == 3 {
        "GB"@
    } else if k == 4 {
        "TB"@
    } else {
        "PB"@
    }
}

/// `size / d` in tenths, rounded to nearest, ties to even.
pub open spec fn rounded_tenths(size: nat, d: nat) -> nat {
    let num = size * 10;
    let q = num / d;
    let rem = num % d;
    if 2 * rem > d || (2 * rem == d && q % 2 == 1) {
        q + 1
    } else {
        q
    }
}

/// A size as `<whole>.<tenth> <unit>`, in the largest unit it reaches.
pub open spec fn size_text(size: nat) -> Seq<char> {
    let k = unit_index(size);
    let t = rounded_tenths(size, unit_divisor(k));
    dec_text(t / 10) + "."@ + dec_text(t % 10) + " "@ + unit_name(k)
}

/// Writes a byte count with one decimal in B, KB, MB, GB, TB or PB.
pub fn human_readable_size(size: u64) -> (r: String)
    ensures
        r@ == size_text(size as nat),
{
    let (k, d): (u64, u64) = if size >= 1125899906842624 {
        (5, 1125899906842624)
    } else if size >= 1099511627776 {
        (4, 1099511627776)
    } else if size >= 1073741824 {
        (3, 1073741824)
    } else if size >= 1048576 {
        (2, 1048576)
    } else if size >= 1024 {
        (1, 1024)
    } else {
        (0, 1)
    };
    assert(k as nat == unit_index(size as nat) && d as nat == unit_divisor(k as nat));
    let num: u128 = size as u128 * 10;
    let q: u128 = num / (d as u128);
    let rem: u128 = num % (d as u128);
    proof {
        lemma_div_is_ordered_by_denominator(num as int, 1, d as int);
    }
    let t: u128 = if 2 * rem > d as u128 || (2 * rem == d as u128 && q % 2 == 1) {
        q + 1
    } else {
        q
    };
    proof {
        lemma_div_is_ordered(t as int, num as int + 1, 10);
        assert((num as int + 1) / 10 == size as int);
    }
    let whole = (t / 10) as u64;
    let tenth = (t % 10) as u64;
    let mut out = String::new();
    push_decimal(&mut out, whole);
    out.append(".");
    push_decimal(&mut out, tenth);
    out.append(" ");
    let unit = if k == 0 {
        "B"
    } else if k == 1 {
        "KB"
    } else if k == 2 {
        "MB"
    } else if k == 3 {
        "GB"
    } else if k == 4 {
        "TB"
    } else {
        "PB"
    };
    out.append(unit);
    out
}

/// What `str::to_lowercase` makes of a text.
pub uninterp spec fn lower_of(s: Seq<char>) -> Seq<char>;

/// Relies on str::to_lowercase: the result depends on the characters alone.
#[verifier::external_body]
fn lowercase(s: &str) -> (r: String)
    ensures
        r@ == lower_of(s@),
{
    s.to_lowercase()
}

/// The text after the last `.` of a name, or the whole name when it has none.
pub open spec fn after_last_dot(s: Seq<char>) -> Seq<char> {
    s.subrange(last_index(s, '.') + 1, s.len() as int)
}

/// The extension of a file name, lower-cased.
pub fn get_file_extension(filename: &str) -> (r: String)
    ensures
        r@ == lower_of(after_last_dot(filename@)),
{
    let n = filename.unicode_len();
    assert(filename@.subrange(0, n as int) =~= filename@);
    let j = last_index_before(filename, n, '.');
    lowercase(filename.substring_char(j, n))
}

/// The icon class for a lower-cased extension.
pub open spec fn icon_of(ext: Seq<char>) -> Seq<char> {
    if ext == "pdf"@ {
        "fa-file-pdf"@
    } else if ext == "doc"@ || ext == "docx"@ {
        "fa-file-word"@
    } else if ext == "xls"@ || ext == "xlsx"@ {
        "fa-file-excel"@
    } else if ext == "ppt"@ || ext == "pptx"@ {
        "fa-file-powerpoint"@
    } else if ext == "zip"@ || ext == "rar"@ || ext == "7z"@ || ext == "tar"@ || ext == "gz"@ {
        "fa-file-archive"@
    } else if ext == "jpg"@ || ext == "jpeg"@ || ext == "png"@ || ext == "gif"@ || ext == "svg"@
        || ext == "webp"@ || ext == "bmp"@ {
        "fa-file-image"@
    } else if ext == "mp3"@ || ext == "wav"@ || ext == "flac"@ || ext == "aac"@ || ext == "ogg"@ {
        "fa-file-audio"@
    } else if ext == "mp4"@ || ext == "avi"@ || ext == "mkv"@ || ext == "mov"@ || ext == "wmv"@
        || ext == "flv"@ {
        "fa-file-video"@
    } else if ext == "js"@ || ext == "ts"@ || ext == "py"@ || ext == "java"@ || ext == "c"@ || ext
        == "cpp"@ || ext == "rs"@ || ext == "go"@ || ext == "html"@ || ext == "css"@ || ext == "php"@
        || ext == "rb"@ {
        "fa-file-code"@
    } else if ext == "txt"@ || ext == "md"@ || ext == "log"@ || ext == "csv"@ {
        "fa-file-alt"@
    } else if ext == "json"@ || ext == "xml"@ || ext == "yaml"@ || ext == "yml"@ || ext == "toml"@ {
        "fa-file-code"@
    } else {
        "fa-file"@
    }
}

fn is(ext: &String, lit: &str) -> (r: bool)
    ensures
        r == (ext@ == lit@),
{
    *ext == String::from_str(lit)
}

/// The icon class shown beside a file with the given extension.
pub fn get_file_icon(ext: &str) -> (r: &'static str)
    ensures
        r@ == icon_of(ext@),
{
    let e = String::from_str(ext);
    if is(&e, "pdf") {
        "fa-file-pdf"
    } else if is(&e, "doc") || is(&e, "docx") {
        "fa-file-word"
    } else if is(&e, "xls") || is(&e, "xlsx") {
        "fa-file-excel"
    } else if is(&e, "ppt") || is(&e, "pptx") {
        "fa-file-powerpoint"
    } else if is(&e, "zip") || is(&e, "rar") || is(&e, "7z") || is(&e, "tar") || is(&e, "gz") {
        "fa-file-archive"
    } else if is(&e, "jpg") || is(&e, "jpeg") || is(&e, "png") || is(&e, "gif") || is(&e, "svg")
        || is(&e, "webp") || is(&e, "bmp") {
        "fa-file-image"
    } else if is(&e, "mp3") || is(&e, "wav") || is(&e, "flac") || is(&e, "aac") || is(&e, "ogg") {
        "fa-file-audio"
    } else if is(&e, "mp4") || is(&e, "avi") || is(&e, "mkv") || is(&e, "mov") || is(&e, "wmv")
        || is(&e, "flv") {
        "fa-file-video"
    } else if is(&e, "js") || is(&e, "ts") || is(&e, "py") || is(&e, "java") || is(&e, "c") || is(
        &e,
        "cpp",
    ) || is(&e, "rs") || is(&e, "go") || is(&e, "html") || is(&e, "css") || is(&e, "php") || is(
        &e,
        "rb",
    ) {
        "fa-file-code"
    } else if is(&e, "txt") || is(&e, "md") || is(&e, "log") || is(&e, "csv") {
        "fa-file-alt"
    } else if is(&e, "json") || is(&e, "xml") || is(&e, "yaml") || is(&e, "yml") || is(&e, "toml") {
        "fa-file-code"
    } else {
        "fa-file"
    }
}

/// The nonempty `/`-separated segments of a path, in order.
pub open spec fn segments(s: Seq<char>) -> Seq<Seq<char>>
    decreases s.len(),
{
    let k = last_index(s, '/');
    if k < 0 || k >= s.len() {
        if s.len() == 0 {
            Seq::empty()
        } else {
            seq![s]
        }
    } else {
        let tail = s.subrange(k + 1, s.len() as int);
        let front = segments(s.subrange(0, k));
        if tail.len() == 0 {
            front
        } else {
            front.push(tail)
        }
    }
}

proof fn lemma_last_index_bounds(s: Seq<char>, c: char)
    ensures
        -1 <= last_index(s, c) < s.len(),
        last_index(s, c) >= 0 ==> s[last_index(s, c)] == c,
    decreases s.len(),
{
    if s.len() > 0 && s.last() != c {
        lemma_last_index_bounds(s.drop_last(), c);
    }
}

/// Splits a path into its nonempty segments.
pub fn path_segments(s: &str) -> (r: Vec<String>)
    ensures
        r@.len() == segments(s@).len(),
        forall|i: int| 0 <= i < r@.len() ==> #[trigger] r@[i]@ == segments(s@)[i],
    decreases s@.len(),
{
    let n = s.unicode_len();
    assert(s@.subrange(0, n as int) =~= s@);
    proof {
        lemma_last_index_bounds(s@, '/');
    }
    let j = last_index_before(s, n, '/');
    if j == 0 {
        let mut v: Vec<String> = Vec::new();
        if n > 0 {
            v.push(String::from_str(s));
        }
        return v;
    }
    let front = s.substring_char(0, j - 1);
    let tail = s.substring_char(j, n);
    let mut v = path_segments(front);
    if tail.unicode_len() > 0 {
        v.push(String::from_str(tail));
    }
    v
}

/// Text with `&`, `<` and `>` written as HTML entities.
pub open spec fn html_escaped(s: Seq<char>) -> Seq<char>
    decreases s.len(),
{
    if s.len() == 0 {
        Seq::empty()
    } else {
        let head = if s[0] == '&' {
            seq!['&', 'a', 'm', 'p', ';']
        } else if s[0] == '<' {
            seq!['&', 'l', 't', ';']
        } else if s[0] == '>' {
            seq!['&', 'g', 't', ';']
        } else {
            seq![s[0]]
        };
        head + html_escaped(s.drop_first())
    }
}

/// Relies on html_escape::encode_text, which writes `&`, `<` and `>` as
/// `&amp;`, `&lt;` and `&gt;` and keeps every other character.
#[verifier::external_body]
fn escape_text(s: &str) -> (r: String)
    ensures
        r@ == html_escaped(s@),
{
    html_escape::encode_text(s).into_owned()
}

/// The link of the crumb after the first `i` segments: `/seg0/seg1/...`.
pub open spec fn crumb_link(segs: Seq<Seq<char>>, i: int) -> Seq<char>
    decreases i,
{
    if i <= 0 {
        Seq::empty()
    } else {
        crumb_link(segs, i - 1) + seq!['/'] + segs[i - 1]
    }
}

/// One crumb: the last is plain text, the others are links followed by ` / `.
pub open spec fn crumb_html(link: Seq<char>, name: Seq<char>, last: bool) -> Seq<char> {
    if last {
        "<span>"@ + html_escaped(name) + "</span>"@
    } else {
        "<a href='"@ + html_escaped(link) + "'>"@ + html_escaped(name) + "</a> / "@
    }
}

/// The first `n` crumbs of a path with segments `segs`: the root crumb, then one
/// per segment.
pub open spec fn crumbs_upto(segs: Seq<Seq<char>>, n: int) -> Seq<char>
    decreases n,
{
    if n <= 0 {
        Seq::empty()
    } else {
        let i = n - 1;
        let last = i == segs.len();
        let piece = if i == 0 {
            crumb_html("/"@, "根目录"@, last)
        } else {
            crumb_html(crumb_link(segs, i), segs[i - 1], last)
        };
        crumbs_upto(segs, i) + piece
    }
}

/// The breadcrumb trail of a listing path.
pub open spec fn breadcrumbs_text(path: Seq<char>) -> Seq<char> {
    crumbs_upto(segments(path), segments(path).len() + 1int)
}

fn push_crumb(out: &mut String, link: &str, name: &str, last: bool)
    ensures
        final(out)@ == old(out)@ + crumb_html(link@, name@, last),
{
    if last {
        out.append("<span>");
        let e = escape_text(name);
        out.append(e.as_str());
        out.append("</span>");
    } else {
        out.append("<a href='");
        let l = escape_text(link);
        out.append(l.as_str());
        out.append("'>");
        let e = escape_text(name);
        out.append(e.as_str());
        out.append("</a> / ");
    }
}

/// Renders the breadcrumb trail of a listing path.
pub fn generate_breadcrumbs(path: &str) -> (r: String)
    ensures
        r@ == breadcrumbs_text(path@),
{
    let segs = path_segments(path);
    let ghost sv = segments(path@);
    let m = segs.len();
    let mut out = String::new();
    push_crumb(&mut out, "/", "根目录", m == 0);
    assert(crumbs_upto(sv, 0) == Seq::<char>::empty());
    assert(out@ =~= crumbs_upto(sv, 1));
    let mut link = String::new();
    let mut i: usize = 0;
    while i < m
        invariant
            m == segs@.len(),
            m == sv.len(),
            sv == segments(path@),
            forall|j: int| 0 <= j < m ==> #[trigger] segs@[j]@ == sv[j],
            0 <= i <= m,
            out@ == crumbs_upto(sv, i + 1),
            link@ == crumb_link(sv, i as int),
        decreases m - i,
    {
        link.append("/");
        link.append(segs[i].as_str());
        assert(link@ =~= crumb_link(sv, i + 1)) by {
            reveal_strlit("/");
        }
        push_crumb(&mut out, link.as_str(), segs[i].as_str(), i + 1 == m);
        i = i + 1;
    }
    out
}

} // verus!
