//! Installs a release of the protobuf compiler, `protoc`, once, and finds it
//! again afterwards.
//!
//! A release is published as one archive per platform. It is unpacked into a
//! directory of its own under an install root chosen by the caller, and an
//! entry that already holds the compiler is used as it is.
//!
//! Nothing in this crate reads the disk, opens a connection or starts a
//! program. [`protoc`] begins an installation and says what is to be done
//! first; [`install::Install::advance`] takes what happened and says what is
//! to be done next, until the installation ends with the compiler's path or
//! with an [`error::InstallError`].

use vstd::prelude::*;

pub mod cache;
pub mod error;
pub mod install;
pub mod platform;
pub mod release;
pub mod status;
pub mod text;
pub mod traces;

use crate::error::ErrorView;
use crate::install::{proceed, fail, Install, InstallView, Phase, Step, StepView};
use crate::platform::{platform_of, resolve, supported, supported_machines_resolve};

verus! {

/// How an installation of `version` under `install_root` begins on a machine:
/// with a look into the cache where a release is published for the machine,
/// and with its end where none is.
pub open spec fn begin(
    version: Seq<char>,
    install_root: Seq<char>,
    os: Seq<char>,
    arch: Seq<char>,
    pointer_width: u32,
) -> StepView {
    match platform_of(os, arch, pointer_width) {
        Some(platform) => proceed(
            InstallView { version, root: install_root, platform, phase: Phase::Probing },
            Phase::Probing,
        ),
        None => fail(ErrorView::UnsupportedPlatform { os, arch }),
    }
}

/// Begins the installation of the release `version` under `out_dir`, for the
/// machine described by `os`, `arch` and `pointer_width`.
///
/// `version` is the release's number as the publisher writes it, such as
/// `31.1`, without a `v` in front. `out_dir` may be any directory that the
/// caller can write to.
pub fn protoc(version: &str, out_dir: &str, os: &str, arch: &str, pointer_width: u32) -> (step:
    Step)
    ensures
        step@ == begin(version@, out_dir@, os@, arch@, pointer_width),
        step@ is Continue <==> supported(os@, arch@, pointer_width),
{
    proof {
        supported_machines_resolve(os@, arch@, pointer_width);
    }
    match resolve(os, arch, pointer_width) {
        Ok(platform) => {
            let install = Install::new(version, out_dir, platform);
            let action = install.pending();
            Step::Continue(install, action)
        },
        Err(e) => Step::Finished(Err(e)),
    }
}

} // verus!
