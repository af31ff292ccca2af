use filezoom::preview::{
    directory_preview_text, file_preview_text, is_binary, is_control_heavy,
    preview_failure_message, PreviewError, MAX_DIR_PREVIEW_ENTRIES,
};

#[test]
fn is_binary_detects_nul_and_non_utf8() {
    let text = b"hello world";
    assert!(!is_binary(text));

    let with_nul = b"hello\0world";
    assert!(is_binary(with_nul));

    let invalid = &[0x80u8, 0x80u8, 0x80u8];
    assert!(is_binary(invalid));
}

#[test]
fn empty_sample_is_text() {
    assert!(!is_binary(b""));
}

#[test]
fn control_heavy_threshold_is_thirty_percent() {
    // 3 of 10 characters are control characters: not more than 30%.
    assert!(!is_control_heavy("\u{1}\u{2}\u{3}abcdefg"));
    // 4 of 10: more than 30%.
    assert!(is_control_heavy("\u{1}\u{2}\u{3}\u{4}abcdef"));
    // Tabs and line feeds do not count.
    assert!(!is_control_heavy("\t\n\r\t\n\r"));
    assert!(is_binary("\u{1}\u{2}\u{3}\u{4}abcdef".as_bytes()));
}

#[test]
fn build_file_preview_text_and_truncation() {
    let content = "a".repeat(1024);
    let s = file_preview_text(&content.as_bytes()[..512], true).unwrap();
    assert!(s.contains("... (truncated)"));
    assert_eq!(s, format!("{}\n... (truncated)", "a".repeat(512)));

    let s2 = file_preview_text(content.as_bytes(), false).unwrap();
    assert!(!s2.contains("... (truncated)"));
    assert_eq!(s2, content);
}

#[test]
fn preview_decodes_utf8_and_strips_bom() {
    let s = file_preview_text("\u{feff}h\u{e9}llo".as_bytes(), false).unwrap();
    assert_eq!(s, "h\u{e9}llo");
}

#[test]
fn preview_of_binary_sample_is_error() {
    assert_eq!(file_preview_text(b"ab\0cd", false), Err(PreviewError::Binary));
}

#[test]
fn build_directory_preview_lists_entries() {
    let names = vec!["b.txt".to_string(), "a.txt".to_string()];
    let preview = directory_preview_text("/tmp/d", true, names);
    assert!(preview.contains("Directory:"));
    assert!(preview.contains("a.txt"));
    assert!(preview.contains("b.txt"));
    assert_eq!(preview, "Directory: /tmp/d\na.txt\nb.txt\n");
}

#[test]
fn directory_preview_of_non_directory_has_header_only() {
    let preview = directory_preview_text("/tmp/f", false, vec!["x".to_string()]);
    assert_eq!(preview, "Directory: /tmp/f\n");
}

#[test]
fn directory_preview_is_capped() {
    let names: Vec<String> = (0..60).map(|i| format!("n{:02}", i)).collect();
    let preview = directory_preview_text("/d", true, names);
    assert_eq!(preview.lines().count(), 1 + MAX_DIR_PREVIEW_ENTRIES);
    assert!(preview.contains("n49\n"));
    assert!(!preview.contains("n50"));
}

#[test]
fn preview_failure_messages() {
    assert_eq!(
        preview_failure_message("/x/y.bin", PreviewError::Binary),
        "Binary file: /x/y.bin (preview not available)"
    );
    assert_eq!(
        preview_failure_message("/x/y", PreviewError::Unreadable),
        "Cannot preview file: /x/y (unreadable)"
    );
}
