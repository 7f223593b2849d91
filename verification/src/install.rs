//! Installer: the order in which an installation asks for work from outside
//! and what it concludes from each answer.
//!
//! The installer touches neither disk nor network. It names the next thing
//! to be done as an [`Action`]; whoever drives it does that and reports what
//! happened as an [`Event`]. An installation goes one of two ways. Where the
//! compiler is already in place it is only started once, to see that it
//! runs. Where it is not, the archive is requested, read, unpacked and
//! checked first. Either way it ends with the compiler's path or with the
//! first failure, and no step is ever tried twice.

use vstd::prelude::*;
use vstd::string::*;
use crate::cache::{binary_file, binary_path, entry_dir, entry_path, finalize};
use crate::error::{ErrorView, InstallError};
use crate::platform::PlatformKey;
use crate::release::{archive_url, build_archive_url, build_release_name, release_name};
use crate::status::{is_success, status_is_success};

verus! {

/// What an installation is waiting to hear.
#[derive(Clone, Copy, Debug, PartialEq, Eq, Structural)]
pub enum Phase {
    /// Whether the compiler is already in place.
    Probing,
    /// The host's answer to the request for the archive.
    Requesting,
    /// The archive, after a success status.
    ReadingArchive,
    /// The text that came with a status other than success.
    ReadingErrorBody { status: u16 },
    /// The outcome of unpacking.
    Extracting,
    /// Whether unpacking has put the compiler in place.
    Finalizing,
    /// Whether the compiler starts.
    Verifying,
}

/// Work for the driver.
#[derive(Clone, Debug, PartialEq, Eq)]
pub enum Action {
    /// See whether a file stands at `path`.
    Probe { path: String },
    /// Send one GET request to `url` and report the status of the response.
    Request { url: String },
    /// Read the body of the response as bytes and keep them.
    ReadArchive,
    /// Read the body of the response as text.
    ReadErrorBody,
    /// Unpack the archive that was read into `target_dir`, creating the
    /// directory if it is absent. With `strip_toplevel`, a single directory
    /// that holds everything in the archive is left out of the paths.
    Extract { target_dir: String, strip_toplevel: bool },
    /// Start the program at `path` with the one argument `flag`.
    Run { path: String, flag: String },
}

/// An `Action` as a mathematical value.
pub enum ActionView {
    Probe { path: Seq<char> },
    Request { url: Seq<char> },
    ReadArchive,
    ReadErrorBody,
    Extract { target_dir: Seq<char>, strip_toplevel: bool },
    Run { path: Seq<char>, flag: Seq<char> },
}

impl View for Action {
    type V = ActionView;

    open spec fn view(&self) -> ActionView {
        match self {
            Action::Probe { path } => ActionView::Probe { path: path@ },
            Action::Request { url } => ActionView::Request { url: url@ },
            Action::ReadArchive => ActionView::ReadArchive,
            Action::ReadErrorBody => ActionView::ReadErrorBody,
            Action::Extract { target_dir, strip_toplevel } => ActionView::Extract {
                target_dir: target_dir@,
                strip_toplevel: *strip_toplevel,
            },
            Action::Run { path, flag } => ActionView::Run { path: path@, flag: flag@ },
        }
    }
}

/// What the driver saw when it did what it was asked.
#[derive(Clone, Debug, PartialEq, Eq)]
pub enum Event {
    /// A probe found a file (`present`) or none.
    Probed { present: bool },
    /// A response arrived, with this status code.
    Responded { status: u16 },
    /// The request, or the reading of a body, failed in transport.
    NetworkFailed { reason: String },
    /// The body was read as text.
    ErrorBodyRead { body: String },
    /// The body was read as bytes.
    ArchiveRead,
    /// The archive was unpacked.
    Extracted,
    /// The directory could not be made, or the bytes are no archive.
    ExtractionFailed { reason: String },
    /// The program was started and has ended; what it printed is not looked at.
    Ran,
    /// The program could not be started.
    RunFailed { reason: String },
}

/// An `Event` as a mathematical value.
pub enum EventView {
    Probed { present: bool },
    Responded { status: u16 },
    NetworkFailed { reason: Seq<char> },
    ErrorBodyRead { body: Seq<char> },
    ArchiveRead,
    Extracted,
    ExtractionFailed { reason: Seq<char> },
    Ran,
    RunFailed { reason: Seq<char> },
}

impl View for Event {
    type V = EventView;

    open spec fn view(&self) -> EventView {
        match self {
            Event::Probed { present } => EventView::Probed { present: *present },
            Event::Responded { status } => EventView::Responded { status: *status },
            Event::NetworkFailed { reason } => EventView::NetworkFailed { reason: reason@ },
            Event::ErrorBodyRead { body } => EventView::ErrorBodyRead { body: body@ },
            Event::ArchiveRead => EventView::ArchiveRead,
            Event::Extracted => EventView::Extracted,
            Event::ExtractionFailed { reason } => EventView::ExtractionFailed { reason: reason@ },
            Event::Ran => EventView::Ran,
            Event::RunFailed { reason } => EventView::RunFailed { reason: reason@ },
        }
    }
}

/// An installation under way: what is being installed, and how far it is.
#[derive(Clone, Debug, PartialEq, Eq)]
pub struct Install {
    version: String,
    root: String,
    platform: PlatformKey,
    phase: Phase,
}

/// An `Install` as a mathematical value. Names, paths and the address all
/// follow from the version, the install root and the platform.
pub struct InstallView {
    pub version: Seq<char>,
    pub root: Seq<char>,
    pub platform: PlatformKey,
    pub phase: Phase,
}

impl InstallView {
    pub open spec fn name(self) -> Seq<char> {
        release_name(self.version, self.platform)
    }

    pub open spec fn entry(self) -> Seq<char> {
        entry_dir(self.root, self.name())
    }

    pub open spec fn binary(self) -> Seq<char> {
        binary_file(self.entry(), self.platform)
    }

    pub open spec fn url(self) -> Seq<char> {
        archive_url(self.name(), self.version)
    }

    pub open spec fn at(self, phase: Phase) -> InstallView {
        InstallView { phase, ..self }
    }

    /// The work that is asked for in each phase.
    pub open spec fn pending(self) -> ActionView {
        match self.phase {
            Phase::Probing => ActionView::Probe { path: self.binary() },
            Phase::Requesting => ActionView::Request { url: self.url() },
            Phase::ReadingArchive => ActionView::ReadArchive,
            Phase::ReadingErrorBody { .. } => ActionView::ReadErrorBody,
            Phase::Extracting => ActionView::Extract {
                target_dir: self.entry(),
                strip_toplevel: true,
            },
            Phase::Finalizing => ActionView::Probe { path: self.binary() },
            Phase::Verifying => ActionView::Run { path: self.binary(), flag: "--version"@ },
        }
    }
}

impl View for Install {
    type V = InstallView;

    closed spec fn view(&self) -> InstallView {
        InstallView {
            version: self.version@,
            root: self.root@,
            platform: self.platform,
            phase: self.phase,
        }
    }
}

/// Where an installation stands after a step: it asks for more work, or it
/// has ended, with the compiler's path or with the failure.
#[derive(Debug, PartialEq, Eq)]
pub enum Step {
    Continue(Install, Action),
    Finished(Result<String, InstallError>),
}

/// A `Step` as a mathematical value.
pub enum StepView {
    Continue(InstallView, ActionView),
    Finished(Result<Seq<char>, ErrorView>),
}

impl View for Step {
    type V = StepView;

    open spec fn view(&self) -> StepView {
        match self {
            Step::Continue(install, action) => StepView::Continue(install@, action@),
            Step::Finished(Ok(path)) => StepView::Finished(Ok(path@)),
            Step::Finished(Err(e)) => StepView::Finished(Err(e@)),
        }
    }
}

/// The installation moves to `phase` and asks for that phase's work.
pub open spec fn proceed(s: InstallView, phase: Phase) -> StepView {
    StepView::Continue(s.at(phase), s.at(phase).pending())
}

/// The installation ends with a failure.
pub open spec fn fail(e: ErrorView) -> StepView {
    StepView::Finished(Err(e))
}

/// One step of an installation. An event that does not answer the work
/// asked for changes nothing, and the same work is asked for again.
pub open spec fn next(s: InstallView, e: EventView) -> StepView {
    match s.phase {
        Phase::Probing => match e {
            EventView::Probed { present } => if present {
                proceed(s, Phase::Verifying)
            } else {
                proceed(s, Phase::Requesting)
            },
            _ => proceed(s, s.phase),
        },
        Phase::Requesting => match e {
            EventView::Responded { status } => if is_success(status) {
                proceed(s, Phase::ReadingArchive)
            } else {
                proceed(s, Phase::ReadingErrorBody { status })
            },
            EventView::NetworkFailed { reason } => fail(
                ErrorView::NetworkError { url: s.url(), reason },
            ),
            _ => proceed(s, s.phase),
        },
        Phase::ReadingArchive => match e {
            EventView::ArchiveRead => proceed(s, Phase::Extracting),
            EventView::NetworkFailed { reason } => fail(
                ErrorView::NetworkError { url: s.url(), reason },
            ),
            _ => proceed(s, s.phase),
        },
        Phase::ReadingErrorBody { status } => match e {
            EventView::ErrorBodyRead { body } => fail(
                ErrorView::DownloadFailed { url: s.url(), status, body },
            ),
            EventView::NetworkFailed { .. } => fail(
                ErrorView::DownloadFailed { url: s.url(), status, body: Seq::empty() },
            ),
            _ => proceed(s, s.phase),
        },
        Phase::Extracting => match e {
            EventView::Extracted => proceed(s, Phase::Finalizing),
            EventView::ExtractionFailed { reason } => fail(
                ErrorView::ExtractionFailed { target_dir: s.entry(), reason },
            ),
            _ => proceed(s, s.phase),
        },
        Phase::Finalizing => match e {
            EventView::Probed { present } => if present {
                proceed(s, Phase::Verifying)
            } else {
                fail(ErrorView::MissingBinaryInArchive { expected: s.binary() })
            },
            _ => proceed(s, s.phase),
        },
        Phase::Verifying => match e {
            EventView::Ran => StepView::Finished(Ok(s.binary())),
            EventView::RunFailed { reason } => fail(
                ErrorView::ExecutionFailed { path: s.binary(), reason },
            ),
            _ => proceed(s, s.phase),
        },
    }
}

impl Install {
    /// A new installation, about to look into the cache.
    pub fn new(version: &str, install_root: &str, platform: PlatformKey) -> (install: Install)
        ensures
            install@ == (InstallView {
                version: version@,
                root: install_root@,
                platform,
                phase: Phase::Probing,
            }),
    {
        Install {
            version: version.to_owned(),
            root: install_root.to_owned(),
            platform,
            phase: Phase::Probing,
        }
    }

    pub fn phase(&self) -> (phase: Phase)
        ensures
            phase == self@.phase,
    {
        self.phase
    }

    fn entry(&self) -> (path: String)
        ensures
            path@ == self@.entry(),
    {
        let name = build_release_name(self.version.as_str(), self.platform);
        entry_path(self.root.as_str(), name.as_str())
    }

    fn binary(&self) -> (path: String)
        ensures
            path@ == self@.binary(),
    {
        let entry = self.entry();
        binary_path(entry.as_str(), self.platform)
    }

    fn url(&self) -> (url: String)
        ensures
            url@ == self@.url(),
    {
        let name = build_release_name(self.version.as_str(), self.platform);
        build_archive_url(name.as_str(), self.version.as_str())
    }

    /// The work that this installation is waiting for.
    pub fn pending(&self) -> (action: Action)
        ensures
            action@ == self@.pending(),
    {
        match self.phase {
            Phase::Probing => Action::Probe { path: self.binary() },
            Phase::Requesting => Action::Request { url: self.url() },
            Phase::ReadingArchive => Action::ReadArchive,
            Phase::ReadingErrorBody { .. } => Action::ReadErrorBody,
            Phase::Extracting => Action::Extract { target_dir: self.entry(), strip_toplevel: true },
            Phase::Finalizing => Action::Probe { path: self.binary() },
            Phase::Verifying => Action::Run {
                path: self.binary(),
                flag: String::from_str("--version"),
            },
        }
    }

    fn proceed(self, phase: Phase) -> (step: Step)
        ensures
            step@ == proceed(self@, phase),
    {
        let moved = Install { version: self.version, root: self.root, platform: self.platform, phase };
        let action = moved.pending();
        Step::Continue(moved, action)
    }

    /// Takes the installation one step further on what the driver reports.
    pub fn advance(self, event: Event) -> (step: Step)
        ensures
            step@ == next(self@, event@),
    {
        match self.phase {
            Phase::Probing => match event {
                Event::Probed { present } => if present {
                    self.proceed(Phase::Verifying)
                } else {
                    self.proceed(Phase::Requesting)
                },
                _ => self.proceed(Phase::Probing),
            },
            Phase::Requesting => match event {
                Event::Responded { status } => if status_is_success(status) {
                    self.proceed(Phase::ReadingArchive)
                } else {
                    self.proceed(Phase::ReadingErrorBody { status })
                },
                Event::NetworkFailed { reason } => Step::Finished(
                    Err(InstallError::NetworkError { url: self.url(), reason }),
                ),
                _ => self.proceed(Phase::Requesting),
            },
            Phase::ReadingArchive => match event {
                Event::ArchiveRead => self.proceed(Phase::Extracting),
                Event::NetworkFailed { reason } => Step::Finished(
                    Err(InstallError::NetworkError { url: self.url(), reason }),
                ),
                _ => self.proceed(Phase::ReadingArchive),
            },
            Phase::ReadingErrorBody { status } => match event {
                Event::ErrorBodyRead { body } => Step::Finished(
                    Err(InstallError::DownloadFailed { url: self.url(), status, body }),
                ),
                Event::NetworkFailed { .. } => Step::Finished(
                    Err(InstallError::DownloadFailed { url: self.url(), status, body: String::new() }),
                ),
                _ => self.proceed(Phase::ReadingErrorBody { status }),
            },
            Phase::Extracting => match event {
                Event::Extracted => self.proceed(Phase::Finalizing),
                Event::ExtractionFailed { reason } => Step::Finished(
                    Err(InstallError::ExtractionFailed { target_dir: self.entry(), reason }),
                ),
                _ => self.proceed(Phase::Extracting),
            },
            Phase::Finalizing => match event {
                Event::Probed { present } => {
                    let entry = self.entry();
                    match finalize(entry.as_str(), self.platform, present) {
                        Ok(_) => self.proceed(Phase::Verifying),
                        Err(e) => Step::Finished(Err(e)),
                    }
                },
                _ => self.proceed(Phase::Finalizing),
            },
            Phase::Verifying => match event {
                Event::Ran => Step::Finished(Ok(self.binary())),
                Event::RunFailed { reason } => Step::Finished(
                    Err(InstallError::ExecutionFailed { path: self.binary(), reason }),
                ),
                _ => self.proceed(Phase::Verifying),
            },
        }
    }
}

} // verus!
