use win_watcher::archive::{
    decimal_text, digit_text, entry_name, CreateZipRequest, CreateZipResponse,
};

#[test]
fn digits_are_written_one_by_one() {
    let all: Vec<&str> = (0..10).map(digit_text).collect();
    assert_eq!(all, vec!["0", "1", "2", "3", "4", "5", "6", "7", "8", "9"]);
}

#[test]
fn numbers_are_written_in_decimal() {
    assert_eq!(decimal_text(0), "0");
    assert_eq!(decimal_text(7), "7");
    assert_eq!(decimal_text(10), "10");
    assert_eq!(decimal_text(405), "405");
    assert_eq!(decimal_text(usize::MAX), usize::MAX.to_string());
}

#[test]
fn an_entry_takes_the_file_name() {
    assert_eq!(
        entry_name("C:\\docs\\report.pdf", Some("report.pdf".to_string())),
        Ok("report.pdf".to_string())
    );
}

#[test]
fn a_path_without_a_file_name_is_refused() {
    assert_eq!(entry_name("C:\\docs\\..", None), Err("Invalid file name: C:\\docs\\..".to_string()));
}

#[test]
fn the_response_counts_the_files() {
    let request = CreateZipRequest {
        file_paths: vec!["a".to_string(), "b".to_string(), "c".to_string()],
        output_path: "out.zip".to_string(),
    };
    let r = CreateZipResponse::created(request.file_paths.len(), request.output_path, 1234);
    assert!(r.success);
    assert_eq!(r.message, "Created zip with 3 files");
    assert_eq!(r.output_path, "out.zip");
    assert_eq!(r.size, 1234);
}

#[test]
fn the_response_to_an_empty_archive() {
    let r = CreateZipResponse::created(0, "e.zip".to_string(), 22);
    assert_eq!(r.message, "Created zip with 0 files");
}
