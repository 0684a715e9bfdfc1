//! Request paths: percent-decoding and the part below the root.

use vstd::prelude::*;
use vstd::utf8::{decode_utf8, valid_utf8};

verus! {

/// The value of an ASCII hex digit of either case.
pub open spec fn hex_val(b: u8) -> Option<nat> {
    if 48 <= b <= 57 {
        Some((b - 48) as nat)
    } else if 97 <= b <= 102 {
        Some((b - 87) as nat)
    } else if 65 <= b <= 70 {
        Some((b - 55) as nat)
    } else {
        None
    }
}

/// Percent-decoding: `%` and two hex digits become the byte they spell; any
/// other byte, a lone `%` included, stands for itself.
pub open spec fn pct_decoded(s: Seq<u8>) -> Seq<u8>
    decreases s.len(),
{
    if s.len() == 0 {
        Seq::empty()
    } else if s[0] == 37 && s.len() >= 3 && hex_val(s[1]) is Some && hex_val(s[2]) is Some {
        seq![(hex_val(s[1])->0 * 16 + hex_val(s[2])->0) as u8] + pct_decoded(s.subrange(3, s.len() as int))
    } else {
        seq![s[0]] + pct_decoded(s.subrange(1, s.len() as int))
    }
}

/// The text that `String::from_utf8_lossy` makes of some bytes.
pub uninterp spec fn utf8_lossy(b: Seq<u8>) -> Seq<char>;

/// Relies on percent_encoding::percent_decode, which yields the bytes of
/// `pct_decoded`.
#[verifier::external_body]
fn percent_decode_bytes(raw: &[u8]) -> (r: Vec<u8>)
    ensures
        r@ == pct_decoded(raw@),
{
    percent_encoding::percent_decode(raw).collect()
}

/// Relies on String::from_utf8_lossy: valid UTF-8 is decoded as it stands,
/// anything else with replacement characters.
#[verifier::external_body]
fn lossy_string(b: &[u8]) -> (r: String)
    ensures
        r@ == utf8_lossy(b@),
        valid_utf8(b@) ==> r@ == decode_utf8(b@),
{
    String::from_utf8_lossy(b).into_owned()
}

/// Percent-decodes a request path or header value into text.
pub fn decode_percent_text(raw: &[u8]) -> (r: String)
    ensures
        r@ == utf8_lossy(pct_decoded(raw@)),
        valid_utf8(pct_decoded(raw@)) ==> r@ == decode_utf8(pct_decoded(raw@)),
{
    let bytes = percent_decode_bytes(raw);
    lossy_string(bytes.as_slice())
}

/// `s` without its leading separators.
pub open spec fn strip_leading_slashes(s: Seq<char>) -> Seq<char>
    decreases s.len(),
{
    if s.len() > 0 && s[0] == '/' {
        strip_leading_slashes(s.drop_first())
    } else {
        s
    }
}

/// The part of a decoded request path below the root: the path without its
/// leading separators, to be joined onto the root.
pub fn relative_part(decoded: &str) -> (r: &str)
    ensures
        r@ == strip_leading_slashes(decoded@),
        r@.len() == 0 || r@[0] != '/',
{
    let n = decoded.unicode_len();
    let mut i: usize = 0;
    assert(decoded@.subrange(0, n as int) =~= decoded@);
    while i < n && decoded.get_char(i) == '/'
        invariant
            0 <= i <= n,
            n == decoded@.len(),
            strip_leading_slashes(decoded@) == strip_leading_slashes(
                decoded@.subrange(i as int, n as int),
            ),
        decreases n - i,
    {
        let ghost rest = decoded@.subrange(i as int, n as int);
        assert(rest.drop_first() =~= decoded@.subrange(i + 1, n as int));
        i = i + 1;
    }
    let r = decoded.substring_char(i, n);
    r
}

} // verus!
