use recorder::text::into_byte_format;
use recorder::Recorder;

#[test]
fn first_filename_from_path() {
    let rec = Recorder::new("/tmp/log.txt".to_string()).unwrap();
    assert_eq!(rec.get_filename(), "log_rec1.txt");
}

#[test]
fn first_filename_bare_name() {
    let rec = Recorder::new("session".to_string()).unwrap();
    assert_eq!(rec.get_filename(), "session_rec1.txt");
}

#[test]
fn only_last_extension_is_stripped() {
    let rec = Recorder::new("archive.tar.gz".to_string()).unwrap();
    assert_eq!(rec.get_filename(), "archive.tar_rec1.txt");
}

#[test]
fn hidden_file_keeps_its_name() {
    let rec = Recorder::new(".gitignore".to_string()).unwrap();
    assert_eq!(rec.get_filename(), ".gitignore_rec1.txt");
}

#[test]
fn directories_are_dropped() {
    let rec = Recorder::new("dir/sub/name".to_string()).unwrap();
    assert_eq!(rec.get_filename(), "name_rec1.txt");
}

#[test]
fn trailing_separator_is_ignored() {
    let rec = Recorder::new("notes/".to_string()).unwrap();
    assert_eq!(rec.get_filename(), "notes_rec1.txt");
}

#[test]
fn multi_byte_characters_survive_the_stem() {
    let rec = Recorder::new("dir/número.txt".to_string()).unwrap();
    assert_eq!(rec.get_filename(), "número_rec1.txt");
}

#[test]
fn multi_byte_content_is_counted_in_bytes() {
    let mut rec = Recorder::new("take.txt".to_string()).unwrap();
    rec.start_record();
    let payload = rec.add_content("héllo".to_string()).unwrap();
    assert_eq!(payload, "héllo\r\n");
    rec.content_written(payload.len());
    // "héllo" is six bytes in UTF-8, plus the two line-end bytes.
    assert_eq!(rec.get_size_bytes(), 8);
}

#[test]
fn new_rejects_separator_only() {
    let err = Recorder::new("/".to_string()).unwrap_err();
    assert_eq!(err, "Cannot get filename to record");
}

#[test]
fn new_rejects_empty_path() {
    assert!(Recorder::new(String::new()).is_err());
}

#[test]
fn new_rejects_current_and_parent_dir() {
    assert!(Recorder::new(".".to_string()).is_err());
    assert!(Recorder::new("..".to_string()).is_err());
    assert!(Recorder::new("a/..".to_string()).is_err());
}

#[test]
fn stem_that_collapses_to_a_dot_falls_back() {
    // "a/..b" keeps "..b" as its file name, whose stem is just ".";
    // re-reading "a/." as a path yields "a".
    let rec = Recorder::new("a/..b".to_string()).unwrap();
    assert_eq!(rec.get_filename(), "a_rec1.txt");
    assert!(Recorder::new("..b".to_string()).is_err());
    assert!(Recorder::new("...".to_string()).is_err());
}

#[test]
fn start_and_stop_drive_the_session() {
    let mut rec = Recorder::new("take.txt".to_string()).unwrap();
    assert!(!rec.is_recording());
    rec.start_record();
    assert!(rec.is_recording());
    rec.stop_record();
    assert!(!rec.is_recording());
    assert_eq!(rec.get_suffix(), 2);
    assert_eq!(rec.get_size_bytes(), 0);
}

#[test]
fn content_without_newline_gets_crlf() {
    let mut rec = Recorder::new("take.txt".to_string()).unwrap();
    rec.start_record();
    let payload = rec.add_content("hello".to_string()).unwrap();
    assert_eq!(payload, "hello\r\n");
    rec.content_written(payload.len());
    assert_eq!(rec.get_size_bytes(), 7);
}

#[test]
fn content_with_newline_is_kept_verbatim() {
    let mut rec = Recorder::new("take.txt".to_string()).unwrap();
    rec.start_record();
    let payload = rec.add_content("hello\n".to_string()).unwrap();
    assert_eq!(payload, "hello\n");
    rec.content_written(payload.len());
    assert_eq!(rec.get_size_bytes(), 6);
}

#[test]
fn empty_content_becomes_a_blank_line() {
    let mut rec = Recorder::new("take.txt".to_string()).unwrap();
    rec.start_record();
    let payload = rec.add_content(String::new()).unwrap();
    assert_eq!(payload, "\r\n");
    rec.content_written(payload.len());
    assert_eq!(rec.get_size_bytes(), 2);
}

#[test]
fn add_content_outside_a_session_fails() {
    let rec = Recorder::new("take.txt".to_string()).unwrap();
    let err = rec.add_content("hello".to_string()).unwrap_err();
    assert_eq!(err, "No file recording now");
    assert_eq!(rec.get_size_bytes(), 0);
}

#[test]
fn stopping_twice_advances_the_suffix_twice() {
    let mut rec = Recorder::new("take.txt".to_string()).unwrap();
    rec.stop_record();
    rec.stop_record();
    assert_eq!(rec.get_suffix(), 3);
    assert!(!rec.is_recording());
    assert_eq!(rec.get_size_bytes(), 0);
}

#[test]
fn a_full_session_rotates_the_file_name() {
    let mut rec = Recorder::new("/tmp/log.txt".to_string()).unwrap();
    rec.start_record();
    let payload = rec.add_content("a".to_string()).unwrap();
    assert_eq!(payload, "a\r\n");
    rec.content_written(payload.len());
    assert_eq!(rec.get_size_bytes(), 3);
    rec.stop_record();
    rec.start_record();
    assert_eq!(rec.get_filename(), "log_rec2.txt");
}

#[test]
fn starting_over_an_active_session_keeps_the_accounting() {
    let mut rec = Recorder::new("take.txt".to_string()).unwrap();
    rec.start_record();
    let payload = rec.add_content("abc".to_string()).unwrap();
    rec.content_written(payload.len());
    rec.start_record();
    assert!(rec.is_recording());
    assert_eq!(rec.get_suffix(), 1);
    assert_eq!(rec.get_size_bytes(), 5);
}

#[test]
fn suffix_grows_into_two_digits() {
    let mut rec = Recorder::new("take.txt".to_string()).unwrap();
    for _ in 0..9 {
        rec.stop_record();
    }
    assert_eq!(rec.get_suffix(), 10);
    assert_eq!(rec.get_filename(), "take_rec10.txt");
}

#[test]
fn byte_format_of_the_largest_count() {
    assert_eq!(into_byte_format(u128::MAX), "295147905179352825855.9 EB");
}

#[test]
fn byte_format_of_plain_bytes() {
    assert_eq!(into_byte_format(0), "0 B");
    assert_eq!(into_byte_format(7), "7 B");
    assert_eq!(into_byte_format(1023), "1023 B");
}

#[test]
fn byte_format_scales_by_1024() {
    assert_eq!(into_byte_format(1024), "1.0 KB");
    assert_eq!(into_byte_format(1536), "1.5 KB");
    assert_eq!(into_byte_format(10 * 1024), "10.0 KB");
    assert_eq!(into_byte_format(1024 * 1024), "1.0 MB");
    assert_eq!(into_byte_format(5 * 1024 * 1024 * 1024), "5.0 GB");
    assert_eq!(into_byte_format(3 * 1024 * 1024 * 1024 * 1024), "3.0 TB");
    assert_eq!(into_byte_format(1024 * 1024 * 1024 * 1024 * 1024), "1.0 PB");
    assert_eq!(into_byte_format(1024 * 1024 * 1024 * 1024 * 1024 * 1024), "1.0 EB");
}

#[test]
fn byte_format_rounds_down_the_decimal() {
    // 1100 bytes is 1.07... KB and is shown with its first decimal digit.
    assert_eq!(into_byte_format(1100), "1.0 KB");
    assert_eq!(into_byte_format(1945), "1.8 KB");
}

#[test]
fn get_size_renders_the_current_count() {
    let mut rec = Recorder::new("take.txt".to_string()).unwrap();
    assert_eq!(rec.get_size(), "0 B");
    rec.start_record();
    let payload = rec.add_content("hello".to_string()).unwrap();
    rec.content_written(payload.len());
    assert_eq!(rec.get_size(), "7 B");
}
