use waifu_vault::paths::{determine_output_location, last_segment};

#[test]
fn default_location_is_filename_in_current_directory() {
    let r = determine_output_location("https://host/abc/report.pdf", &None, false);
    assert_eq!(r, "./report.pdf");
}

#[test]
fn existing_directory_gets_the_filename_appended() {
    let r = determine_output_location(
        "https://host/abc/report.pdf",
        &Some("/tmp".to_string()),
        true,
    );
    assert_eq!(r, "/tmp/report.pdf");
}

#[test]
fn directory_with_trailing_separator_gets_no_second_separator() {
    let r = determine_output_location(
        "https://host/abc/report.pdf",
        &Some("/tmp/".to_string()),
        true,
    );
    assert_eq!(r, "/tmp/report.pdf");
}

#[test]
fn non_directory_output_is_used_verbatim() {
    let r = determine_output_location(
        "https://host/abc/report.pdf",
        &Some("/tmp/custom.bin".to_string()),
        false,
    );
    assert_eq!(r, "/tmp/custom.bin");
}

#[test]
fn last_segment_takes_the_part_after_the_last_slash() {
    assert_eq!(last_segment("https://host/abc/report.pdf"), "report.pdf");
    assert_eq!(last_segment("report.pdf"), "report.pdf");
    assert_eq!(last_segment("a/b/c"), "c");
}

#[test]
fn last_segment_of_a_trailing_slash_is_empty() {
    assert_eq!(last_segment("https://host/abc/"), "");
    assert_eq!(last_segment(""), "");
}
