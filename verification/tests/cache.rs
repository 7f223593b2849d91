use protoc_fetcher::cache::{binary_path, entry_path, finalize};
use protoc_fetcher::error::InstallError;
use protoc_fetcher::platform::PlatformKey;

#[test]
fn entry_lies_in_the_namespace_under_the_root() {
    assert_eq!(
        entry_path("/tmp/out", "protoc-28.0-linux-x86_64"),
        "/tmp/out/protoc-fetcher/protoc-28.0-linux-x86_64"
    );
}

#[test]
fn root_with_its_own_slash_gets_no_second_one() {
    assert_eq!(entry_path("/tmp/out/", "r"), "/tmp/out/protoc-fetcher/r");
    assert_eq!(entry_path("/", "r"), "/protoc-fetcher/r");
}

#[test]
fn empty_root_gives_a_relative_entry() {
    assert_eq!(entry_path("", "r"), "protoc-fetcher/r");
}

#[test]
fn root_may_hold_any_characters() {
    assert_eq!(entry_path("/tmp/büro é", "r"), "/tmp/büro é/protoc-fetcher/r");
}

#[test]
fn binary_is_bin_protoc() {
    assert_eq!(binary_path("/e", PlatformKey::LinuxX86_64), "/e/bin/protoc");
    assert_eq!(binary_path("/e", PlatformKey::OsxUniversal), "/e/bin/protoc");
}

#[test]
fn binary_ends_in_exe_on_windows() {
    assert_eq!(binary_path("C:\\out", PlatformKey::Win64), "C:\\out/bin/protoc.exe");
    assert_eq!(binary_path("e", PlatformKey::Win32), "e/bin/protoc.exe");
}

#[test]
fn finalize_accepts_an_entry_with_the_binary() {
    assert_eq!(finalize("/e", PlatformKey::LinuxX86_64, true), Ok(()));
}

#[test]
fn finalize_rejects_an_entry_without_the_binary() {
    assert_eq!(
        finalize("/e", PlatformKey::LinuxX86_64, false),
        Err(InstallError::MissingBinaryInArchive { expected: String::from("/e/bin/protoc") })
    );
    assert_eq!(
        finalize("/e", PlatformKey::Win64, false),
        Err(InstallError::MissingBinaryInArchive { expected: String::from("/e/bin/protoc.exe") })
    );
}
