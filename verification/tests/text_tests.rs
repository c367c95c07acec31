use cliprust::digest::{fingerprint_text, to_hex_lower};
use cliprust::history::{pin_report, pinned_summary, stored_content_type, PinReport};
use cliprust::text::{
    blank, byte_prefix, is_whitespace, last_path_segment, replace_newlines, shorten, starts_with,
    trimmed,
};
use cliprust::types::ContentType;

#[test]
fn whitespace_matches_std() {
    for c in ['\t', '\n', '\u{0B}', '\u{0C}', '\r', ' ', '\u{85}', '\u{A0}', '\u{1680}', '\u{2000}',
        '\u{200A}', '\u{2028}', '\u{2029}', '\u{202F}', '\u{205F}', '\u{3000}', 'a', '0', '\u{200B}',
        '\u{FEFF}', '_']
    {
        assert_eq!(is_whitespace(c), c.is_whitespace(), "char {:?}", c);
    }
}

#[test]
fn blank_and_trim() {
    assert!(blank(""));
    assert!(blank(" \t\n"));
    assert!(!blank(" a "));
    assert_eq!(trimmed("  foo bar \n"), "foo bar");
    assert_eq!(trimmed("   "), "");
    assert_eq!(trimmed("x"), "x");
}

#[test]
fn prefixes() {
    assert!(starts_with("file:///tmp/a", "file://"));
    assert!(!starts_with("file:/", "file://"));
    assert!(!starts_with(" file://", "file://"));
    assert!(starts_with("anything", ""));
}

#[test]
fn path_segments() {
    assert_eq!(last_path_segment("file:///home/user/report.pdf"), "report.pdf");
    assert_eq!(last_path_segment("no-slash"), "no-slash");
    assert_eq!(last_path_segment("dir/"), "");
    assert_eq!(last_path_segment(""), "");
}

#[test]
fn shortened_previews() {
    let exact: String = "a".repeat(80);
    assert_eq!(shorten(&exact, 80, 77), exact);
    let long: String = "b".repeat(81);
    assert_eq!(shorten(&long, 80, 77), format!("{}...", "b".repeat(77)));
    // 41 two-byte characters take 82 bytes but are fewer than 77 characters.
    let wide: String = "é".repeat(41);
    assert_eq!(shorten(&wide, 80, 77), format!("{}...", wide));
    assert_eq!(shorten("short", 30, 27), "short");
}

#[test]
fn newlines_become_spaces() {
    assert_eq!(replace_newlines("a\nb\n"), "a b ");
    assert_eq!(replace_newlines("no change"), "no change");
}

#[test]
fn byte_prefixes() {
    assert_eq!(byte_prefix("héllo", 3), "hé");
    assert_eq!(byte_prefix("abc", 0), "");
}

#[test]
fn hex_spelling() {
    assert_eq!(to_hex_lower(&[0x00, 0xff, 0x1a, 0x09]), "00ff1a09");
    assert_eq!(to_hex_lower(&[]), "");
}

#[test]
fn text_fingerprints_are_sha256_hex() {
    assert_eq!(
        fingerprint_text("abc"),
        "ba7816bf8f01cfea414140de5dae2223b00361a396177a9cb410ff61f20015ad"
    );
    assert_eq!(
        fingerprint_text(""),
        "e3b0c44298fc1c149afbf4c8996fb92427ae41e4649b934ca495991b7852b855"
    );
}

#[test]
fn stored_content_types() {
    assert_eq!(stored_content_type("image"), ContentType::Image);
    assert_eq!(stored_content_type("file"), ContentType::File);
    assert_eq!(stored_content_type("text"), ContentType::Text);
    assert_eq!(stored_content_type("video"), ContentType::Text);
}

#[test]
fn pinned_summaries() {
    assert_eq!(pinned_summary(None), "[Binary/Image Data]");
    assert_eq!(pinned_summary(Some("line one\nline two")), "line one line two");
    let fifty = "x".repeat(50);
    assert_eq!(pinned_summary(Some(&fifty)), fifty);
    let long = format!("{}\n{}", "y".repeat(40), "z".repeat(20));
    assert_eq!(pinned_summary(Some(&long)), format!("{} {}...", "y".repeat(40), "z".repeat(6)));
}

#[test]
fn pin_reports() {
    assert_eq!(pin_report(1, true), PinReport::Pinned);
    assert_eq!(pin_report(3, false), PinReport::Unpinned);
    assert_eq!(pin_report(0, true), PinReport::NotFound);
}
