//! The HTTP `Range` header, single-range form `bytes=<start>-<end>`.

use vstd::prelude::*;
use crate::decimal::{all_digits, digits_value, dec_digits, is_digit, lemma_dec_digits, parse_decimal};

verus! {

/// An inclusive byte interval `start..=end` of a file.
#[derive(Clone, Copy, Debug, PartialEq, Eq, Structural)]
pub struct ByteRange {
    pub start: u64,
    pub end: u64,
}

impl ByteRange {
    /// Well-formed over a file of `size` bytes: `start <= end < size`.
    pub open spec fn within(self, size: nat) -> bool {
        self.start <= self.end && self.end < size
    }

    /// Number of bytes in the interval.
    pub open spec fn spec_len(self) -> nat {
        (self.end - self.start + 1) as nat
    }
}

/// What a `Range` header asks of a file of known size.
#[derive(Clone, Copy, Debug, PartialEq, Eq, Structural)]
pub enum RangeOutcome {
    /// No header: the whole file.
    Full,
    /// A satisfiable interval.
    Partial(ByteRange),
    /// Well-formed but outside the file: answered with 416.
    Unsatisfiable,
    /// Not of the form `bytes=<digits>-<digits>`: answered with 400.
    Malformed,
}

/// The bytes of an optional header value.
pub open spec fn header_view(h: Option<&[u8]>) -> Option<Seq<u8>> {
    match h {
        Some(v) => Some(v@),
        None => None,
    }
}

pub open spec fn bytes_unit() -> Seq<u8> {
    seq![98u8, 121u8, 116u8, 101u8, 115u8, 61u8]
}

/// `h` is `bytes=` + digits + `-` + digits, with the dash at index `k`.
pub open spec fn range_split(h: Seq<u8>, k: int) -> bool {
    &&& 6 <= k < h.len()
    &&& h.subrange(0, 6) == bytes_unit()
    &&& h[k] == 45u8
    &&& all_digits(h.subrange(6, k))
    &&& all_digits(h.subrange(k + 1, h.len() as int))
}

pub open spec fn is_range_form(h: Seq<u8>) -> bool {
    exists|k: int| range_split(h, k)
}

pub open spec fn fits_u64(s: Seq<u8>) -> bool {
    digits_value(s) <= u64::MAX
}

/// The outcome of a header `h` (when present) against a file of `size` bytes.
/// An empty start means 0; an empty end means the last byte; an end past the
/// file is clamped to its last byte.
pub open spec fn range_outcome(h: Option<Seq<u8>>, size: u64) -> RangeOutcome {
    match h {
        None => RangeOutcome::Full,
        Some(h) => {
            if !is_range_form(h) {
                RangeOutcome::Malformed
            } else {
                let k = choose|k: int| range_split(h, k);
                let a = h.subrange(6, k);
                let b = h.subrange(k + 1, h.len() as int);
                if !fits_u64(a) || !fits_u64(b) {
                    RangeOutcome::Malformed
                } else if size == 0 {
                    RangeOutcome::Unsatisfiable
                } else {
                    let start = digits_value(a);
                    let last = (size - 1) as nat;
                    let end = if b.len() == 0 || digits_value(b) > last {
                        last
                    } else {
                        digits_value(b)
                    };
                    if start > end || start >= size {
                        RangeOutcome::Unsatisfiable
                    } else {
                        RangeOutcome::Partial(ByteRange { start: start as u64, end: end as u64 })
                    }
                }
            }
        }
    }
}

/// The dash of a range header sits right after the run of digits that follows
/// `bytes=`, so a header splits in at most one way.
pub proof fn lemma_range_split_unique(h: Seq<u8>, k1: int, k2: int)
    requires
        range_split(h, k1),
        range_split(h, k2),
    ensures
        k1 == k2,
{
    if k1 < k2 {
        assert(h.subrange(6, k2)[k1 - 6] == h[k1]);
        assert(is_digit(h.subrange(6, k2)[k1 - 6]));
    } else if k2 < k1 {
        assert(h.subrange(6, k1)[k2 - 6] == h[k2]);
        assert(is_digit(h.subrange(6, k1)[k2 - 6]));
    }
}

/// Parses an optional `Range` header against a file of `size` bytes.
pub fn parse_range(header: Option<&[u8]>, size: u64) -> (r: RangeOutcome)
    ensures
        r == range_outcome(
            header_view(header),
            size,
        ),
        r matches RangeOutcome::Partial(br) ==> br.within(size as nat),
{
    let h = match header {
        None => return RangeOutcome::Full,
        Some(h) => h,
    };
    let n = h.len();
    if n < 7 || h[0] != 98 || h[1] != 121 || h[2] != 116 || h[3] != 101 || h[4] != 115 || h[5] != 61 {
        proof {
            if is_range_form(h@) {
                let k = choose|k: int| range_split(h@, k);
                assert(h@.subrange(0, 6)[0] == h@[0]);
                assert(h@.subrange(0, 6)[1] == h@[1]);
                assert(h@.subrange(0, 6)[2] == h@[2]);
                assert(h@.subrange(0, 6)[3] == h@[3]);
                assert(h@.subrange(0, 6)[4] == h@[4]);
                assert(h@.subrange(0, 6)[5] == h@[5]);
            }
        }
        return RangeOutcome::Malformed;
    }
    let mut k: usize = 6;
    while k < n && h[k] >= 48 && h[k] <= 57
        invariant
            6 <= k <= n,
            n == h@.len(),
            forall|j: int| 6 <= j < k ==> is_digit(#[trigger] h@[j]),
        decreases n - k,
    {
        k = k + 1;
    }
    if k == n || h[k] != 45 {
        proof {
            if is_range_form(h@) {
                let k2 = choose|k2: int| range_split(h@, k2);
                if k2 < k {
                    assert(h@.subrange(6, k2 + 1)[k2 - 6] == h@[k2]);
                } else if k2 > k {
                    assert(h@.subrange(6, k2)[k - 6] == h@[k as int]);
                    assert(is_digit(h@.subrange(6, k2)[k - 6]));
                }
            }
        }
        return RangeOutcome::Malformed;
    }
    let mut m: usize = k + 1;
    while m < n && h[m] >= 48 && h[m] <= 57
        invariant
            k + 1 <= m <= n,
            n == h@.len(),
            forall|j: int| k + 1 <= j < m ==> is_digit(#[trigger] h@[j]),
        decreases n - m,
    {
        m = m + 1;
    }
    let ghost a = h@.subrange(6, k as int);
    let ghost b = h@.subrange(k + 1, n as int);
    assert(all_digits(a)) by {
        assert forall|j: int| 0 <= j < a.len() implies is_digit(#[trigger] a[j]) by {
            assert(a[j] == h@[j + 6]);
        }
    }
    assert(h@.subrange(0, 6) =~= bytes_unit());
    if m < n {
        proof {
            assert(!is_digit(h@[m as int]));
            if is_range_form(h@) {
                let k2 = choose|k2: int| range_split(h@, k2);
                if k2 < k {
                    assert(h@.subrange(6, k2 + 1)[k2 - 6] == h@[k2]);
                } else if k2 > k {
                    assert(h@.subrange(6, k2)[k - 6] == h@[k as int]);
                    assert(is_digit(h@.subrange(6, k2)[k - 6]));
                }
                assert(b[m - k - 1] == h@[m as int]);
            }
        }
        return RangeOutcome::Malformed;
    }
    assert(all_digits(b)) by {
        assert forall|j: int| 0 <= j < b.len() implies is_digit(#[trigger] b[j]) by {
            assert(b[j] == h@[j + k + 1]);
        }
    }
    assert(range_split(h@, k as int));
    proof {
        let k2 = choose|k2: int| range_split(h@, k2);
        lemma_range_split_unique(h@, k as int, k2);
    }
    let (a_slice, rest) = h.split_at(k);
    let (_, a_slice) = a_slice.split_at(6);
    let (_, b_slice) = rest.split_at(1);
    assert(a_slice@ =~= a);
    assert(b_slice@ =~= b);
    let start: u64 = if a_slice.len() == 0 {
        0
    } else {
        match parse_decimal(a_slice) {
            Some(v) => v,
            None => return RangeOutcome::Malformed,
        }
    };
    let requested_end: Option<u64> = if b_slice.len() == 0 {
        None
    } else {
        match parse_decimal(b_slice) {
            Some(v) => Some(v),
            None => return RangeOutcome::Malformed,
        }
    };
    if size == 0 {
        return RangeOutcome::Unsatisfiable;
    }
    let last = size - 1;
    let end = match requested_end {
        None => last,
        Some(e) => if e > last { last } else { e },
    };
    if start > end || start >= size {
        RangeOutcome::Unsatisfiable
    } else {
        RangeOutcome::Partial(ByteRange { start, end })
    }
}

/// The header that asks for `start..=end`.
pub open spec fn range_header(start: nat, end: nat) -> Seq<u8> {
    bytes_unit() + dec_digits(start) + seq![45u8] + dec_digits(end)
}

/// A header `bytes=<start>-<end>` with `start <= end < size` yields exactly that
/// interval, and one with `start > end` or `start >= size` is unsatisfiable.
pub proof fn lemma_explicit_range(start: u64, end: u64, size: u64)
    ensures
        start <= end < size ==> range_outcome(Some(range_header(start as nat, end as nat)), size)
            == RangeOutcome::Partial(ByteRange { start, end }),
        (start > end || start >= size) ==> range_outcome(
            Some(range_header(start as nat, end as nat)),
            size,
        ) == RangeOutcome::Unsatisfiable,
{
    let a = dec_digits(start as nat);
    let b = dec_digits(end as nat);
    let h = range_header(start as nat, end as nat);
    lemma_dec_digits(start as nat);
    lemma_dec_digits(end as nat);
    let k: int = 6 + a.len() as int;
    assert(h.subrange(0, 6) =~= bytes_unit());
    assert(h.subrange(6, k) =~= a);
    assert(h.subrange(k + 1, h.len() as int) =~= b);
    assert(h[k] == 45u8);
    assert(range_split(h, k));
    let k2 = choose|k2: int| range_split(h, k2);
    lemma_range_split_unique(h, k, k2);
}

} // verus!
