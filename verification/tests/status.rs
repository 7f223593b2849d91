use protoc_fetcher::error::InstallError;
use protoc_fetcher::status::{status_is_success, status_text};
use protoc_fetcher::text::{decimal_text, same_text};

#[test]
fn success_is_the_two_hundreds() {
    assert!(status_is_success(200));
    assert!(status_is_success(204));
    assert!(status_is_success(299));
    assert!(!status_is_success(199));
    assert!(!status_is_success(300));
    assert!(!status_is_success(404));
    assert!(!status_is_success(0));
    assert!(!status_is_success(u16::MAX));
}

#[test]
fn status_text_names_the_reason() {
    assert_eq!(status_text(404), "404 Not Found");
    assert_eq!(status_text(200), "200 OK");
    assert_eq!(status_text(503), "503 Service Unavailable");
}

#[test]
fn status_text_agrees_with_the_http_client() {
    for code in 100..1000u16 {
        let theirs = reqwest::StatusCode::from_u16(code).unwrap().to_string();
        assert_eq!(status_text(code), theirs);
    }
}

#[test]
fn status_without_a_reason_says_so() {
    assert_eq!(status_text(299), "299 <unknown status code>");
    assert_eq!(status_text(42), "42 <unknown status code>");
    assert_eq!(status_text(0), "0 <unknown status code>");
    assert_eq!(status_text(1000), "1000 <unknown status code>");
}

#[test]
fn decimal_has_no_leading_zeros() {
    assert_eq!(decimal_text(0), "0");
    assert_eq!(decimal_text(7), "7");
    assert_eq!(decimal_text(10), "10");
    assert_eq!(decimal_text(309), "309");
    assert_eq!(decimal_text(65535), "65535");
}

#[test]
fn decimal_agrees_with_std() {
    for n in 0..=u16::MAX {
        assert_eq!(decimal_text(n), n.to_string());
    }
}

#[test]
fn same_text_compares_characters() {
    assert!(same_text("linux", "linux"));
    assert!(same_text("", ""));
    assert!(!same_text("linux", "linu"));
    assert!(!same_text("linux", "Linux"));
}

fn s(text: &str) -> String {
    String::from(text)
}

#[test]
fn message_of_unsupported_platform() {
    let e = InstallError::UnsupportedPlatform { os: s("freebsd"), arch: s("x86_64") };
    assert_eq!(e.message(), "`protoc` unsupported platform: freebsd x86_64");
}

#[test]
fn message_of_network_error() {
    let e = InstallError::NetworkError { url: s("https://h/a.zip"), reason: s("timed out") };
    assert_eq!(e.message(), "Error requesting https://h/a.zip: timed out");
}

#[test]
fn message_of_download_failed() {
    let e = InstallError::DownloadFailed {
        url: s("https://h/a.zip"),
        status: 404,
        body: s("Not Found"),
    };
    assert_eq!(
        e.message(),
        "Error downloading release archive https://h/a.zip: 404 Not Found Not Found"
    );
}

#[test]
fn message_of_extraction_failed() {
    let e = InstallError::ExtractionFailed { target_dir: s("/e"), reason: s("invalid Zip archive") };
    assert_eq!(e.message(), "Error extracting release archive into /e: invalid Zip archive");
}

#[test]
fn message_of_missing_binary() {
    let e = InstallError::MissingBinaryInArchive { expected: s("/e/bin/protoc") };
    assert_eq!(e.message(), "Extracted protoc archive, but could not find /e/bin/protoc!");
}

#[test]
fn message_of_execution_failed() {
    let e = InstallError::ExecutionFailed { path: s("/e/bin/protoc"), reason: s("Exec format error") };
    assert_eq!(e.message(), "Error running /e/bin/protoc: Exec format error");
}
