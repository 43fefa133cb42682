use parallel_download::probe::{
    accepts_byte_ranges, content_length_of, plan_download, wants_range_probe, Strategy,
};

#[test]
fn content_length_parses_decimal() {
    assert_eq!(content_length_of(Some("123")), Some(123));
    assert_eq!(content_length_of(Some("+7")), Some(7));
    assert_eq!(content_length_of(Some("18446744073709551615")), Some(u64::MAX));
}

#[test]
fn content_length_rejects_other_text() {
    assert_eq!(content_length_of(None), None);
    assert_eq!(content_length_of(Some("")), None);
    assert_eq!(content_length_of(Some("abc")), None);
    assert_eq!(content_length_of(Some("-1")), None);
    assert_eq!(content_length_of(Some(" 12")), None);
    assert_eq!(content_length_of(Some("18446744073709551616")), None);
}

#[test]
fn accept_ranges_header() {
    assert!(accepts_byte_ranges(Some("bytes")));
    assert!(!accepts_byte_ranges(Some("none")));
    assert!(!accepts_byte_ranges(Some("Bytes")));
    assert!(!accepts_byte_ranges(Some("bytes ")));
    assert!(!accepts_byte_ranges(None));
}

#[test]
fn range_probe_only_when_worth_it() {
    assert!(wants_range_probe(Some(100), true, 10));
    assert!(!wants_range_probe(Some(10), true, 10));
    assert!(!wants_range_probe(Some(100), false, 10));
    assert!(!wants_range_probe(None, true, 10));
}

#[test]
fn parallel_only_when_confirmed() {
    let p = plan_download(Some(100), true, 10, Some(206));
    assert_eq!(p.strategy, Strategy::Parallel);
    assert_eq!(p.content_length, Some(100));
    assert!(p.accepts_ranges);
    assert_eq!(plan_download(Some(100), true, 10, Some(200)).strategy, Strategy::Serial);
    assert_eq!(plan_download(Some(100), true, 10, None).strategy, Strategy::Serial);
    assert_eq!(plan_download(None, true, 10, Some(206)).strategy, Strategy::Serial);
    assert_eq!(plan_download(Some(100), false, 10, Some(206)).strategy, Strategy::Serial);
    assert_eq!(plan_download(Some(10), true, 10, Some(206)).strategy, Strategy::Serial);
    assert_eq!(plan_download(Some(0), true, 0, Some(206)).strategy, Strategy::Serial);
}
