//! The ways in which an installation ends without a usable binary.

use vstd::prelude::*;
use vstd::string::*;
use crate::status::{status_line, status_text};

verus! {

/// Why an installation failed. Every failure is final for the call in which
/// it occurs: nothing is retried, and nothing that was written is removed.
#[derive(Clone, Debug, PartialEq, Eq)]
pub enum InstallError {
    /// No release is published for the machine.
    UnsupportedPlatform { os: String, arch: String },
    /// The request did not complete: no response, or a body that broke off.
    NetworkError { url: String, reason: String },
    /// The host answered, but not with a success status.
    DownloadFailed { url: String, status: u16, body: String },
    /// What was downloaded could not be unpacked.
    ExtractionFailed { target_dir: String, reason: String },
    /// The archive unpacked, but holds no compiler where one belongs.
    MissingBinaryInArchive { expected: String },
    /// The installed compiler could not be started.
    ExecutionFailed { path: String, reason: String },
}

/// An `InstallError` as a mathematical value.
pub enum ErrorView {
    UnsupportedPlatform { os: Seq<char>, arch: Seq<char> },
    NetworkError { url: Seq<char>, reason: Seq<char> },
    DownloadFailed { url: Seq<char>, status: u16, body: Seq<char> },
    ExtractionFailed { target_dir: Seq<char>, reason: Seq<char> },
    MissingBinaryInArchive { expected: Seq<char> },
    ExecutionFailed { path: Seq<char>, reason: Seq<char> },
}

impl View for InstallError {
    type V = ErrorView;

    open spec fn view(&self) -> ErrorView {
        match self {
            InstallError::UnsupportedPlatform { os, arch } => ErrorView::UnsupportedPlatform {
                os: os@,
                arch: arch@,
            },
            InstallError::NetworkError { url, reason } => ErrorView::NetworkError {
                url: url@,
                reason: reason@,
            },
            InstallError::DownloadFailed { url, status, body } => ErrorView::DownloadFailed {
                url: url@,
                status: *status,
                body: body@,
            },
            InstallError::ExtractionFailed { target_dir, reason } => ErrorView::ExtractionFailed {
                target_dir: target_dir@,
                reason: reason@,
            },
            InstallError::MissingBinaryInArchive { expected } => ErrorView::MissingBinaryInArchive {
                expected: expected@,
            },
            InstallError::ExecutionFailed { path, reason } => ErrorView::ExecutionFailed {
                path: path@,
                reason: reason@,
            },
        }
    }
}

/// What a reader is told of a failure: what was attempted, where, and what
/// came back.
pub open spec fn message_of(e: ErrorView) -> Seq<char> {
    match e {
        ErrorView::UnsupportedPlatform { os, arch } => "`protoc` unsupported platform: "@ + os
            + " "@ + arch,
        ErrorView::NetworkError { url, reason } => "Error requesting "@ + url + ": "@ + reason,
        ErrorView::DownloadFailed { url, status, body } => "Error downloading release archive "@
            + url + ": "@ + status_line(status) + " "@ + body,
        ErrorView::ExtractionFailed { target_dir, reason } => "Error extracting release archive into "@
            + target_dir + ": "@ + reason,
        ErrorView::MissingBinaryInArchive { expected } =>
            "Extracted protoc archive, but could not find "@ + expected + "!"@,
        ErrorView::ExecutionFailed { path, reason } => "Error running "@ + path + ": "@ + reason,
    }
}

impl InstallError {
    /// Describes the failure in one line.
    pub fn message(&self) -> (text: String)
        ensures
            text@ == message_of(self@),
    {
        match self {
            InstallError::UnsupportedPlatform { os, arch } => {
                let mut text = String::from_str("`protoc` unsupported platform: ");
                text.append(os.as_str());
                text.append(" ");
                text.append(arch.as_str());
                text
            },
            InstallError::NetworkError { url, reason } => {
                let mut text = String::from_str("Error requesting ");
                text.append(url.as_str());
                text.append(": ");
                text.append(reason.as_str());
                text
            },
            InstallError::DownloadFailed { url, status, body } => {
                let line = status_text(*status);
                let mut text = String::from_str("Error downloading release archive ");
                text.append(url.as_str());
                text.append(": ");
                text.append(line.as_str());
                text.append(" ");
                text.append(body.as_str());
                text
            },
            InstallError::ExtractionFailed { target_dir, reason } => {
                let mut text = String::from_str("Error extracting release archive into ");
                text.append(target_dir.as_str());
                text.append(": ");
                text.append(reason.as_str());
                text
            },
            InstallError::MissingBinaryInArchive { expected } => {
                let mut text = String::from_str("Extracted protoc archive, but could not find ");
                text.append(expected.as_str());
                text.append("!");
                text
            },
            InstallError::ExecutionFailed { path, reason } => {
                let mut text = String::from_str("Error running ");
                text.append(path.as_str());
                text.append(": ");
                text.append(reason.as_str());
                text
            },
        }
    }
}

} // verus!
