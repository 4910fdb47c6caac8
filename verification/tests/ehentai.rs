use gallery_sync::ehentai::{extract_fileindex, fileindex_from_capture, parse_u32};

#[test]
fn the_file_index_is_read_from_the_address() {
    assert_eq!(
        extract_fileindex("https://a.hath.network/h/abc/keystamp=1;fileindex=123456789;xres=org/x.jpg"),
        Some(123456789)
    );
    assert_eq!(extract_fileindex("fileindex=7"), Some(7));
    assert_eq!(extract_fileindex("fileindex=0042&x"), Some(42));
}

#[test]
fn an_address_without_a_file_index_gives_none() {
    assert_eq!(extract_fileindex(""), None);
    assert_eq!(extract_fileindex("https://host/picture.jpg"), None);
    assert_eq!(extract_fileindex("fileindex="), None);
    assert_eq!(extract_fileindex("fileindex=x12"), None);
    assert_eq!(extract_fileindex("FILEINDEX=12"), None);
}

#[test]
fn the_first_file_index_counts() {
    assert_eq!(extract_fileindex("fileindex=1;fileindex=2"), Some(1));
    assert_eq!(extract_fileindex("fileindex=;fileindex=2"), Some(2));
}

#[test]
fn a_file_index_that_does_not_fit_gives_none() {
    assert_eq!(extract_fileindex("fileindex=4294967295"), Some(u32::MAX));
    assert_eq!(extract_fileindex("fileindex=4294967296"), None);
    assert_eq!(extract_fileindex("fileindex=99999999999999999999999999"), None);
}

#[test]
fn digits_of_other_scripts_are_found_but_not_read() {
    // The search takes any decimal digit; the number is written in ASCII digits only.
    assert_eq!(extract_fileindex("fileindex=\u{0661}\u{0662};fileindex=12"), None);
}

#[test]
fn a_capture_is_read_as_a_number() {
    assert_eq!(fileindex_from_capture(&Some(Some("15".to_string()))), Some(15));
    assert_eq!(fileindex_from_capture(&Some(Some("1x".to_string()))), None);
    assert_eq!(fileindex_from_capture(&Some(None)), None);
    assert_eq!(fileindex_from_capture(&None), None);
}

#[test]
fn numbers_are_read_as_the_standard_library_reads_them() {
    for text in [
        "0", "7", "42", "+42", "007", "4294967295", "4294967296", "", "+", "-1", "1 ", " 1", "1_000",
        "++1", "12a", "\u{0661}", "00000000000000000001", "18446744073709551616",
    ] {
        assert_eq!(parse_u32(text), text.parse::<u32>().ok(), "for {:?}", text);
    }
}
