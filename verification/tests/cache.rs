use ress::cache::{
    cache_exists, cache_path, read_cache, write_cache, write_cache_report, CacheRead, CacheWrite, CACHE_FILE,
    CACHE_SUMMARY,
};

fn round_trip(text: &str) -> String {
    let load = read_cache(CacheRead::Contents(write_cache(text)));
    assert!(load.notice.is_none());
    load.text
}

#[test]
fn cache_file_name_is_fixed() {
    assert_eq!(CACHE_FILE, "cache.dat");
    assert_eq!(CACHE_SUMMARY, "std::fs");
}

#[test]
fn written_bytes_are_the_text_verbatim() {
    assert_eq!(write_cache("/tmp/game"), b"/tmp/game".to_vec());
    assert_eq!(write_cache(""), Vec::<u8>::new());
    assert_eq!(write_cache("é"), vec![0xC3, 0xA9]);
}

#[test]
fn save_then_load_gives_the_text_back() {
    assert_eq!(round_trip("/tmp/game"), "/tmp/game");
    assert_eq!(round_trip("C:\\Games\\Old Stuff"), "C:\\Games\\Old Stuff");
    assert_eq!(round_trip("päth/日本語/🦀\n"), "päth/日本語/🦀\n");
}

#[test]
fn save_then_load_of_empty_text() {
    assert_eq!(round_trip(""), "");
}

#[test]
fn load_without_cache_file_is_empty_and_silent() {
    let load = read_cache(CacheRead::Absent);
    assert_eq!(load.text, "");
    assert!(load.notice.is_none());
}

#[test]
fn load_decodes_file_content() {
    let load = read_cache(CacheRead::Contents(vec![0x2F, 0x61, 0xC3, 0xA9]));
    assert_eq!(load.text, "/aé");
    assert!(load.notice.is_none());
}

#[test]
fn load_reports_open_failure() {
    let load = read_cache(CacheRead::OpenFailed(String::from("Permission denied (os error 13)")));
    assert_eq!(load.text, "");
    let notice = load.notice.unwrap();
    assert_eq!(notice.summary, "std::fs");
    assert_eq!(
        notice.body,
        "Error upon calling read_cache (File::open): Permission denied (os error 13)"
    );
    assert_eq!(notice.appname, "RE:[SSO] Launcher");
}

#[test]
fn load_reports_read_failure() {
    let load = read_cache(CacheRead::ReadFailed(String::from("Is a directory (os error 21)")));
    assert_eq!(load.text, "");
    let notice = load.notice.unwrap();
    assert_eq!(notice.summary, "std::fs");
    assert_eq!(
        notice.body,
        "Error upon calling read_cache (File.read_to_string): Is a directory (os error 21)"
    );
}

#[test]
fn load_reports_content_that_is_not_text() {
    let load = read_cache(CacheRead::Contents(vec![0x2F, 0xFF, 0x61]));
    assert_eq!(load.text, "");
    let notice = load.notice.unwrap();
    assert_eq!(notice.summary, "std::fs");
    assert_eq!(
        notice.body,
        "Error upon calling read_cache (File.read_to_string): stream did not contain valid UTF-8"
    );
}

#[test]
fn load_rejects_truncated_and_overlong_content() {
    assert_eq!(read_cache(CacheRead::Contents(vec![0xC3])).text, "");
    assert!(read_cache(CacheRead::Contents(vec![0xC3])).notice.is_some());
    assert_eq!(read_cache(CacheRead::Contents(vec![0xC0, 0xAF])).text, "");
    assert_eq!(read_cache(CacheRead::Contents(vec![0xED, 0xA0, 0x80])).text, "");
}

#[test]
fn successful_write_is_silent() {
    assert!(write_cache_report(&CacheWrite::Written).is_none());
}

#[test]
fn failed_create_is_reported() {
    let notice = write_cache_report(&CacheWrite::CreateFailed(String::from("disk full"))).unwrap();
    assert_eq!(notice.summary, "std::fs");
    assert_eq!(notice.body, "Error upon calling write_cache (File::create): disk full");
    assert_eq!(notice.appname, "RE:[SSO] Launcher");
}

#[test]
fn failed_write_is_reported() {
    let notice = write_cache_report(&CacheWrite::WriteFailed(String::from("disk full"))).unwrap();
    assert_eq!(notice.summary, "std::fs");
    assert_eq!(notice.body, "Error upon calling write_cache (File.write_all): disk full");
}

#[test]
fn cache_file_check_agrees_with_the_disk() {
    assert_eq!(cache_exists(), std::path::Path::new("cache.dat").is_file());
}

#[test]
fn cache_path_is_the_fixed_name() {
    assert_eq!(cache_path(), std::path::PathBuf::from("cache.dat"));
    assert_eq!(cache_path().to_str(), Some("cache.dat"));
    assert!(cache_path().is_relative());
}
