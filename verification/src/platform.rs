//! Platform resolver: from the operating system and processor of a machine to
//! the release flavour that is published for it.

use vstd::prelude::*;
use crate::error::{ErrorView, InstallError};
use crate::text::same_text;

verus! {

/// One of the flavours in which every release is published.
#[derive(Clone, Copy, Debug, PartialEq, Eq, Structural)]
pub enum PlatformKey {
    LinuxAarch64,
    LinuxX86_32,
    LinuxX86_64,
    OsxAarch64,
    OsxX86_64,
    OsxUniversal,
    Win32,
    Win64,
}

impl PlatformKey {
    /// The name that the publisher gives this flavour in its file names.
    pub open spec fn suffix(self) -> Seq<char> {
        match self {
            PlatformKey::LinuxAarch64 => "linux-aarch_64"@,
            PlatformKey::LinuxX86_32 => "linux-x86_32"@,
            PlatformKey::LinuxX86_64 => "linux-x86_64"@,
            PlatformKey::OsxAarch64 => "osx-aarch_64"@,
            PlatformKey::OsxX86_64 => "osx-x86_64"@,
            PlatformKey::OsxUniversal => "osx-universal_binary"@,
            PlatformKey::Win32 => "win32"@,
            PlatformKey::Win64 => "win64"@,
        }
    }

    /// Whether the flavour is one for Windows, where programs end in `.exe`.
    pub open spec fn is_windows(self) -> bool {
        self == PlatformKey::Win32 || self == PlatformKey::Win64
    }

    pub fn release_suffix(&self) -> (s: &'static str)
        ensures
            s@ == self.suffix(),
    {
        match self {
            PlatformKey::LinuxAarch64 => "linux-aarch_64",
            PlatformKey::LinuxX86_32 => "linux-x86_32",
            PlatformKey::LinuxX86_64 => "linux-x86_64",
            PlatformKey::OsxAarch64 => "osx-aarch_64",
            PlatformKey::OsxX86_64 => "osx-x86_64",
            PlatformKey::OsxUniversal => "osx-universal_binary",
            PlatformKey::Win32 => "win32",
            PlatformKey::Win64 => "win64",
        }
    }

    pub fn windows(&self) -> (w: bool)
        ensures
            w == self.is_windows(),
    {
        match self {
            PlatformKey::Win32 | PlatformKey::Win64 => true,
            _ => false,
        }
    }
}

/// The flavour for a machine, if one is published for it.
///
/// `os` and `arch` are the names that Rust gives to its targets (`linux`,
/// `macos`, `windows`; `x86`, `x86_64`, `aarch64`), `pointer_width` the size
/// of a pointer in bits. On macOS every processor is served, by the universal
/// binary where no build of its own exists; on Windows the pointer width
/// alone decides.
pub open spec fn platform_of(os: Seq<char>, arch: Seq<char>, pointer_width: u32) -> Option<
    PlatformKey,
> {
    if os == "linux"@ {
        if arch == "aarch64"@ {
            Some(PlatformKey::LinuxAarch64)
        } else if arch == "x86"@ {
            Some(PlatformKey::LinuxX86_32)
        } else if arch == "x86_64"@ {
            Some(PlatformKey::LinuxX86_64)
        } else {
            None
        }
    } else if os == "macos"@ {
        if arch == "aarch64"@ {
            Some(PlatformKey::OsxAarch64)
        } else if arch == "x86_64"@ {
            Some(PlatformKey::OsxX86_64)
        } else {
            Some(PlatformKey::OsxUniversal)
        }
    } else if os == "windows"@ {
        if pointer_width == 32 {
            Some(PlatformKey::Win32)
        } else if pointer_width == 64 {
            Some(PlatformKey::Win64)
        } else {
            None
        }
    } else {
        None
    }
}

/// The machines for which a release is published: Linux on three
/// processors, macOS on any, Windows with pointers of 32 or 64 bits.
pub open spec fn supported(os: Seq<char>, arch: Seq<char>, pointer_width: u32) -> bool {
    ||| os == "linux"@ && (arch == "aarch64"@ || arch == "x86"@ || arch == "x86_64"@)
    ||| os == "macos"@
    ||| os == "windows"@ && (pointer_width == 32 || pointer_width == 64)
}

/// Every supported machine has a flavour, and no other machine has one.
pub proof fn supported_machines_resolve(os: Seq<char>, arch: Seq<char>, pointer_width: u32)
    ensures
        platform_of(os, arch, pointer_width) is Some <==> supported(os, arch, pointer_width),
{
    reveal_strlit("linux");
    reveal_strlit("macos");
    reveal_strlit("windows");
    assert("linux"@[0] != "macos"@[0]);
}

/// Finds the release flavour for a machine, or reports the machine as
/// unsupported. There is no fallback.
pub fn resolve(os: &str, arch: &str, pointer_width: u32) -> (r: Result<PlatformKey, InstallError>)
    ensures
        r is Ok <==> supported(os@, arch@, pointer_width),
        match r {
            Ok(platform) => platform_of(os@, arch@, pointer_width) == Some(platform),
            Err(e) => platform_of(os@, arch@, pointer_width) is None
                && e@ == (ErrorView::UnsupportedPlatform { os: os@, arch: arch@ }),
        },
{
    let found = if same_text(os, "linux") {
        if same_text(arch, "aarch64") {
            Some(PlatformKey::LinuxAarch64)
        } else if same_text(arch, "x86") {
            Some(PlatformKey::LinuxX86_32)
        } else if same_text(arch, "x86_64") {
            Some(PlatformKey::LinuxX86_64)
        } else {
            None
        }
    } else if same_text(os, "macos") {
        if same_text(arch, "aarch64") {
            Some(PlatformKey::OsxAarch64)
        } else if same_text(arch, "x86_64") {
            Some(PlatformKey::OsxX86_64)
        } else {
            Some(PlatformKey::OsxUniversal)
        }
    } else if same_text(os, "windows") {
        if pointer_width == 32 {
            Some(PlatformKey::Win32)
        } else if pointer_width == 64 {
            Some(PlatformKey::Win64)
        } else {
            None
        }
    } else {
        None
    };
    proof {
        supported_machines_resolve(os@, arch@, pointer_width);
    }
    match found {
        Some(platform) => Ok(platform),
        None => Err(
            InstallError::UnsupportedPlatform { os: os.to_owned(), arch: arch.to_owned() },
        ),
    }
}

} // verus!
