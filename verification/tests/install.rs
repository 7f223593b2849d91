use protoc_fetcher::error::InstallError;
use protoc_fetcher::install::{Action, Event, Install, Phase, Step};
use protoc_fetcher::platform::PlatformKey;
use protoc_fetcher::protoc;

const URL: &str =
    "https://github.com/protocolbuffers/protobuf/releases/download/v28.0/protoc-28.0-linux-x86_64.zip";
const ENTRY: &str = "/tmp/root/protoc-fetcher/protoc-28.0-linux-x86_64";
const BINARY: &str = "/tmp/root/protoc-fetcher/protoc-28.0-linux-x86_64/bin/protoc";

fn s(text: &str) -> String {
    String::from(text)
}

fn begin() -> Step {
    protoc("28.0", "/tmp/root", "linux", "x86_64", 64)
}

/// Reports `events` one after the other and collects what is asked for
/// before each of them, then returns where the installation stands.
fn drive(mut step: Step, events: Vec<Event>) -> (Vec<Action>, Step) {
    let mut asked = Vec::new();
    for event in events {
        step = match step {
            Step::Continue(install, action) => {
                asked.push(action);
                install.advance(event)
            }
            Step::Finished(result) => Step::Finished(result),
        };
    }
    (asked, step)
}

fn probe() -> Action {
    Action::Probe { path: s(BINARY) }
}

fn run() -> Action {
    Action::Run { path: s(BINARY), flag: s("--version") }
}

fn extract() -> Action {
    Action::Extract { target_dir: s(ENTRY), strip_toplevel: true }
}

fn miss_up_to_extraction() -> Vec<Event> {
    vec![
        Event::Probed { present: false },
        Event::Responded { status: 200 },
        Event::ArchiveRead,
        Event::Extracted,
    ]
}

#[test]
fn installation_begins_with_a_probe_of_the_binary() {
    match begin() {
        Step::Continue(install, action) => {
            assert_eq!(action, probe());
            assert_eq!(install.phase(), Phase::Probing);
            assert_eq!(install.pending(), probe());
        }
        Step::Finished(_) => panic!("ended before it began"),
    }
}

#[test]
fn installation_on_an_unsupported_machine_ends_at_once() {
    assert_eq!(
        protoc("28.0", "/tmp/root", "plan9", "mips", 32),
        Step::Finished(Err(InstallError::UnsupportedPlatform { os: s("plan9"), arch: s("mips") }))
    );
}

#[test]
fn install_28_0_into_an_empty_root() {
    let mut events = miss_up_to_extraction();
    events.push(Event::Probed { present: true });
    events.push(Event::Ran);
    let (asked, end) = drive(begin(), events);
    assert_eq!(
        asked,
        vec![
            probe(),
            Action::Request { url: s(URL) },
            Action::ReadArchive,
            extract(),
            probe(),
            run(),
        ]
    );
    assert_eq!(end, Step::Finished(Ok(s(BINARY))));
}

#[test]
fn install_28_0_twice_returns_the_same_path() {
    let mut first = miss_up_to_extraction();
    first.push(Event::Probed { present: true });
    first.push(Event::Ran);
    let (_, first_end) = drive(begin(), first);
    let (asked, second_end) = drive(begin(), vec![Event::Probed { present: true }, Event::Ran]);
    assert_eq!(first_end, Step::Finished(Ok(s(BINARY))));
    assert_eq!(second_end, first_end);
    assert_eq!(asked, vec![probe(), run()]);
}

#[test]
fn cache_hit_asks_for_nothing_from_the_network() {
    let (asked, end) = drive(
        begin(),
        vec![
            Event::Probed { present: true },
            Event::Extracted,
            Event::Responded { status: 200 },
            Event::ArchiveRead,
            Event::Ran,
        ],
    );
    for action in &asked {
        assert!(matches!(action, Action::Probe { .. } | Action::Run { .. }));
    }
    assert_eq!(end, Step::Finished(Ok(s(BINARY))));
}

#[test]
fn cache_hit_still_starts_the_compiler() {
    let (_, end) = drive(
        begin(),
        vec![Event::Probed { present: true }, Event::RunFailed { reason: s("Exec format error") }],
    );
    assert_eq!(
        end,
        Step::Finished(Err(InstallError::ExecutionFailed {
            path: s(BINARY),
            reason: s("Exec format error"),
        }))
    );
}

#[test]
fn failed_request_is_a_network_error() {
    let (_, end) = drive(
        begin(),
        vec![Event::Probed { present: false }, Event::NetworkFailed { reason: s("dns") }],
    );
    assert_eq!(
        end,
        Step::Finished(Err(InstallError::NetworkError { url: s(URL), reason: s("dns") }))
    );
}

#[test]
fn body_that_breaks_off_is_a_network_error() {
    let (_, end) = drive(
        begin(),
        vec![
            Event::Probed { present: false },
            Event::Responded { status: 200 },
            Event::NetworkFailed { reason: s("connection reset") },
        ],
    );
    assert_eq!(
        end,
        Step::Finished(Err(InstallError::NetworkError {
            url: s(URL),
            reason: s("connection reset"),
        }))
    );
}

#[test]
fn status_other_than_success_is_a_failed_download() {
    let (asked, end) = drive(
        begin(),
        vec![
            Event::Probed { present: false },
            Event::Responded { status: 404 },
            Event::ErrorBodyRead { body: s("Not Found") },
        ],
    );
    assert_eq!(asked, vec![probe(), Action::Request { url: s(URL) }, Action::ReadErrorBody]);
    assert_eq!(
        end,
        Step::Finished(Err(InstallError::DownloadFailed {
            url: s(URL),
            status: 404,
            body: s("Not Found"),
        }))
    );
}

#[test]
fn redirect_that_was_not_followed_is_a_failed_download() {
    let (_, end) = drive(
        begin(),
        vec![
            Event::Probed { present: false },
            Event::Responded { status: 302 },
            Event::ErrorBodyRead { body: s("") },
        ],
    );
    assert_eq!(
        end,
        Step::Finished(Err(InstallError::DownloadFailed { url: s(URL), status: 302, body: s("") }))
    );
}

#[test]
fn unreadable_error_body_counts_as_empty() {
    let (_, end) = drive(
        begin(),
        vec![
            Event::Probed { present: false },
            Event::Responded { status: 500 },
            Event::NetworkFailed { reason: s("connection reset") },
        ],
    );
    assert_eq!(
        end,
        Step::Finished(Err(InstallError::DownloadFailed { url: s(URL), status: 500, body: s("") }))
    );
}

#[test]
fn any_success_status_is_read_as_an_archive() {
    let (asked, _) = drive(
        begin(),
        vec![Event::Probed { present: false }, Event::Responded { status: 206 }, Event::ArchiveRead],
    );
    assert_eq!(asked[2], Action::ReadArchive);
}

#[test]
fn bytes_that_are_no_archive_fail_extraction() {
    let (_, end) = drive(
        begin(),
        vec![
            Event::Probed { present: false },
            Event::Responded { status: 200 },
            Event::ArchiveRead,
            Event::ExtractionFailed { reason: s("invalid Zip archive") },
        ],
    );
    assert_eq!(
        end,
        Step::Finished(Err(InstallError::ExtractionFailed {
            target_dir: s(ENTRY),
            reason: s("invalid Zip archive"),
        }))
    );
}

#[test]
fn archive_without_the_binary_is_reported() {
    let mut events = miss_up_to_extraction();
    events.push(Event::Probed { present: false });
    let (_, end) = drive(begin(), events);
    assert_eq!(
        end,
        Step::Finished(Err(InstallError::MissingBinaryInArchive { expected: s(BINARY) }))
    );
}

#[test]
fn fresh_binary_that_does_not_start_is_reported() {
    let mut events = miss_up_to_extraction();
    events.push(Event::Probed { present: true });
    events.push(Event::RunFailed { reason: s("Permission denied") });
    let (_, end) = drive(begin(), events);
    assert_eq!(
        end,
        Step::Finished(Err(InstallError::ExecutionFailed {
            path: s(BINARY),
            reason: s("Permission denied"),
        }))
    );
}

#[test]
fn event_that_answers_nothing_changes_nothing() {
    let install = Install::new("28.0", "/tmp/root", PlatformKey::LinuxX86_64);
    let before = install.clone();
    match install.advance(Event::Ran) {
        Step::Continue(after, action) => {
            assert_eq!(after, before);
            assert_eq!(action, probe());
        }
        Step::Finished(_) => panic!("ended on an event that answers nothing"),
    }
    let (asked, end) = drive(
        begin(),
        vec![
            Event::Extracted,
            Event::Probed { present: false },
            Event::Probed { present: true },
            Event::Ran,
            Event::Responded { status: 200 },
        ],
    );
    assert_eq!(
        asked,
        vec![
            probe(),
            probe(),
            Action::Request { url: s(URL) },
            Action::Request { url: s(URL) },
            Action::Request { url: s(URL) },
        ]
    );
    assert!(matches!(end, Step::Continue(_, Action::ReadArchive)));
}

#[test]
fn windows_installs_the_exe() {
    let step = protoc("28.0", "C:\\out", "windows", "x86_64", 64);
    let (asked, end) = drive(step, vec![Event::Probed { present: true }, Event::Ran]);
    let binary = "C:\\out/protoc-fetcher/protoc-28.0-win64/bin/protoc.exe";
    assert_eq!(asked[0], Action::Probe { path: s(binary) });
    assert_eq!(end, Step::Finished(Ok(s(binary))));
}

#[test]
fn macos_on_an_old_processor_installs_the_universal_binary() {
    let step = protoc("28.0", "out", "macos", "powerpc64", 64);
    let (asked, _) = drive(step, vec![Event::Probed { present: false }, Event::Ran]);
    assert_eq!(
        asked[1],
        Action::Request {
            url: s("https://github.com/protocolbuffers/protobuf/releases/download/v28.0/protoc-28.0-osx-universal_binary.zip"),
        }
    );
}
