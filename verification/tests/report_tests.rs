//! Tests of the verdict reporter.

use sockprobe::report::{decimal_bytes, render_line, verdict_word_bytes};
use sockprobe::verdict::{verdict_word, Verdict};

#[test]
fn word_bytes_match_the_words() {
    let all = [
        Verdict::Supported,
        Verdict::Unsupported,
        Verdict::NotApplicable,
        Verdict::Buggy,
        Verdict::Maybe,
    ];
    for v in all {
        assert_eq!(verdict_word_bytes(&v), verdict_word(&v).as_bytes());
    }
}

#[test]
fn decimal_rendering_exact_values() {
    assert_eq!(decimal_bytes(0), b"0");
    assert_eq!(decimal_bytes(7), b"7");
    assert_eq!(decimal_bytes(10), b"10");
    assert_eq!(decimal_bytes(100), b"100");
    assert_eq!(decimal_bytes(12345), b"12345");
    assert_eq!(decimal_bytes(usize::MAX), usize::MAX.to_string().as_bytes());
}

#[test]
fn line_without_detail() {
    let line = render_line(b"std_bind_max_len_path", &verdict_word_bytes(&Verdict::Supported), None);
    assert_eq!(line, b"std_bind_max_len_path yes");
}

#[test]
fn line_with_detail() {
    let line = render_line(
        b"std_includes_nuls_long",
        &verdict_word_bytes(&Verdict::Supported),
        Some(&decimal_bytes(1)),
    );
    assert_eq!(line, b"std_includes_nuls_long yes (1)");
}

#[test]
fn line_with_free_text_detail() {
    let line = render_line(
        b"accept_timeout",
        &verdict_word_bytes(&Verdict::Buggy),
        Some(b"accept() unexpectedly succeeded"),
    );
    assert_eq!(line, b"accept_timeout buggy (accept() unexpectedly succeeded)");
}
