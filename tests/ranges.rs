use file_transfer::decimal::{decimal_bytes, parse_decimal};
use file_transfer::download::{accepts_gzip, choose_transport, plan_download, Transport};
use file_transfer::range::{parse_range, ByteRange, RangeOutcome};

fn body_of(content: &[u8], t: Transport) -> Vec<u8> {
    match t {
        Transport::Mapped | Transport::BufferedFull | Transport::CompressedStream => content.to_vec(),
        Transport::BufferedRange { start, len } | Transport::StreamedRange { start, len } => {
            content[start as usize..(start + len) as usize].to_vec()
        }
        Transport::Empty => Vec::new(),
    }
}

#[test]
fn partial_range_on_ten_byte_file() {
    let content: Vec<u8> = (0u8..10).collect();
    let plan = plan_download(Some(b"bytes=2-5"), None, 10);
    assert_eq!(plan.status, 206);
    assert_eq!(plan.content_range.as_deref(), Some("bytes 2-5/10"));
    assert_eq!(plan.content_length, Some(4));
    assert!(!plan.gzip);
    assert_eq!(plan.transport, Transport::BufferedRange { start: 2, len: 4 });
    assert_eq!(body_of(&content, plan.transport), vec![2u8, 3, 4, 5]);
}

#[test]
fn range_past_end_is_unsatisfiable() {
    let plan = plan_download(Some(b"bytes=20-30"), None, 10);
    assert_eq!(plan.status, 416);
    assert_eq!(plan.content_range.as_deref(), Some("bytes */10"));
    assert_eq!(plan.transport, Transport::Empty);
}

#[test]
fn explicit_ranges_parse_exactly() {
    for (s, e, size) in [(0u64, 0u64, 1u64), (0, 9, 10), (3, 3, 10), (5, 99, 100), (7, 12, u64::MAX)] {
        let h = format!("bytes={}-{}", s, e);
        assert_eq!(
            parse_range(Some(h.as_bytes()), size),
            RangeOutcome::Partial(ByteRange { start: s, end: e })
        );
    }
}

#[test]
fn start_after_end_or_size_is_unsatisfiable() {
    assert_eq!(parse_range(Some(b"bytes=6-5"), 10), RangeOutcome::Unsatisfiable);
    assert_eq!(parse_range(Some(b"bytes=10-12"), 10), RangeOutcome::Unsatisfiable);
    assert_eq!(parse_range(Some(b"bytes=10-"), 10), RangeOutcome::Unsatisfiable);
    assert_eq!(parse_range(Some(b"bytes=0-0"), 0), RangeOutcome::Unsatisfiable);
}

#[test]
fn open_and_clamped_ranges() {
    assert_eq!(parse_range(None, 10), RangeOutcome::Full);
    assert_eq!(parse_range(Some(b"bytes=4-"), 10), RangeOutcome::Partial(ByteRange { start: 4, end: 9 }));
    assert_eq!(parse_range(Some(b"bytes=4-1000"), 10), RangeOutcome::Partial(ByteRange { start: 4, end: 9 }));
    assert_eq!(parse_range(Some(b"bytes=-3"), 10), RangeOutcome::Partial(ByteRange { start: 0, end: 3 }));
    assert_eq!(parse_range(Some(b"bytes=-"), 10), RangeOutcome::Partial(ByteRange { start: 0, end: 9 }));
}

#[test]
fn malformed_ranges() {
    for h in [
        &b"bytes=0-10,20-30"[..],
        b"bytes 0-10",
        b"items=0-1",
        b"bytes=a-3",
        b"bytes=1-2-3",
        b"bytes=",
        b"bytes=12",
        b"bytes=+1-2",
        b"bytes=99999999999999999999-",
        b"",
    ] {
        assert_eq!(parse_range(Some(h), 10), RangeOutcome::Malformed);
    }
    let plan = plan_download(Some(b"bytes=x"), None, 10);
    assert_eq!(plan.status, 400);
    assert_eq!(plan.content_range, None);
}

#[test]
fn whole_file_download_round_trip() {
    let content = b"Hello, this is a test file content!".to_vec();
    let plan = plan_download(None, None, content.len() as u64);
    assert_eq!(plan.status, 200);
    assert_eq!(plan.content_length, Some(content.len() as u64));
    assert_eq!(plan.transport, Transport::Mapped);
    assert_eq!(body_of(&content, plan.transport), content);
}

#[test]
fn gzip_whole_file_has_no_length() {
    let plan = plan_download(None, Some(b"deflate, GZip;q=1.0"), 100);
    assert_eq!(plan.status, 200);
    assert!(plan.gzip);
    assert_eq!(plan.content_length, None);
    assert_eq!(plan.transport, Transport::CompressedStream);
    let partial = plan_download(Some(b"bytes=0-1"), Some(b"gzip"), 100);
    assert!(!partial.gzip);
    assert_eq!(partial.content_length, Some(2));
}

#[test]
fn accept_encoding_detection() {
    assert!(accepts_gzip(Some(b"gzip")));
    assert!(accepts_gzip(Some(b"br, GZIP")));
    assert!(!accepts_gzip(Some(b"br, deflate")));
    assert!(!accepts_gzip(Some(b"gz")));
    assert!(!accepts_gzip(None));
}

#[test]
fn transport_thresholds() {
    let big: u64 = 10 * 1024 * 1024 * 1024;
    assert_eq!(choose_transport(RangeOutcome::Full, 4 * 1024 * 1024 - 1, false), Transport::Mapped);
    assert_eq!(choose_transport(RangeOutcome::Full, 4 * 1024 * 1024, false), Transport::BufferedFull);
    assert_eq!(
        choose_transport(RangeOutcome::Partial(ByteRange { start: 0, end: 4 * 1024 * 1024 - 2 }), big, false),
        Transport::BufferedRange { start: 0, len: 4 * 1024 * 1024 - 1 }
    );
    assert_eq!(
        choose_transport(RangeOutcome::Partial(ByteRange { start: 1, end: 4 * 1024 * 1024 }), big, true),
        Transport::StreamedRange { start: 1, len: 4 * 1024 * 1024 }
    );
    assert_eq!(choose_transport(RangeOutcome::Malformed, big, true), Transport::Empty);
}

#[test]
fn decimal_numbers() {
    assert_eq!(parse_decimal(b"0"), Some(0));
    assert_eq!(parse_decimal(b"18446744073709551615"), Some(u64::MAX));
    assert_eq!(parse_decimal(b"18446744073709551616"), None);
    assert_eq!(parse_decimal(b""), None);
    assert_eq!(parse_decimal(b"1a"), None);
    assert_eq!(decimal_bytes(0), b"0".to_vec());
    assert_eq!(decimal_bytes(1234567890), b"1234567890".to_vec());
}
