//! Cache store: where an installed release lives under the install root, and
//! what makes it count as installed.
//!
//! Paths are text with `/` between their parts. An entry is valid as soon as
//! a file stands at the compiler's place inside it; nothing else is recorded
//! or compared.

use vstd::prelude::*;
use vstd::string::*;
use crate::error::{ErrorView, InstallError};
use crate::platform::PlatformKey;
use crate::release::{release_name, release_name_is_unique};

verus! {

/// `rel` below `base`: one `/` between them, unless `base` is empty or
/// brings its own.
pub open spec fn joined(base: Seq<char>, rel: Seq<char>) -> Seq<char> {
    if base.len() == 0 {
        rel
    } else if base.last() == '/' {
        base + rel
    } else {
        base + "/"@ + rel
    }
}

/// The directory of the release `release_name` under `install_root`.
pub open spec fn entry_dir(install_root: Seq<char>, release_name: Seq<char>) -> Seq<char> {
    joined(install_root, "protoc-fetcher/"@ + release_name)
}

/// The compiler's place inside an entry.
pub open spec fn binary_subpath(platform: PlatformKey) -> Seq<char> {
    if platform.is_windows() {
        "bin/protoc.exe"@
    } else {
        "bin/protoc"@
    }
}

/// The compiler's place on disk, for the entry at `entry_path`.
pub open spec fn binary_file(entry_path: Seq<char>, platform: PlatformKey) -> Seq<char> {
    joined(entry_path, binary_subpath(platform))
}

fn join(base: &str, rel: &str) -> (path: String)
    ensures
        path@ == joined(base@, rel@),
{
    let n = base.unicode_len();
    if n == 0 {
        String::from_str(rel)
    } else {
        let mut path = String::from_str(base);
        if base.get_char(n - 1) != '/' {
            proof {
                reveal_strlit("/");
                assert("/"@ == seq!['/']);
            }
            path.append("/");
        }
        path.append(rel);
        path
    }
}

/// Computes the directory that holds, or will hold, a release.
pub fn entry_path(install_root: &str, release_name: &str) -> (path: String)
    ensures
        path@ == entry_dir(install_root@, release_name@),
{
    let mut rel = String::from_str("protoc-fetcher/");
    rel.append(release_name);
    join(install_root, rel.as_str())
}

/// Computes the place of the compiler inside an entry.
pub fn binary_path(entry_path: &str, platform: PlatformKey) -> (path: String)
    ensures
        path@ == binary_file(entry_path@, platform),
{
    if platform.windows() {
        join(entry_path, "bin/protoc.exe")
    } else {
        join(entry_path, "bin/protoc")
    }
}

/// Accepts or rejects an entry into which an archive has just been unpacked.
/// `binary_present` says whether a file now stands at the compiler's place.
/// An archive that unpacks without one is a failure, not an installation.
pub fn finalize(entry_path: &str, platform: PlatformKey, binary_present: bool) -> (r: Result<
    (),
    InstallError,
>)
    ensures
        match r {
            Ok(_) => binary_present,
            Err(e) => !binary_present && e@ == (ErrorView::MissingBinaryInArchive {
                expected: binary_file(entry_path@, platform),
            }),
        },
{
    if binary_present {
        Ok(())
    } else {
        Err(InstallError::MissingBinaryInArchive { expected: binary_path(entry_path, platform) })
    }
}

/// Under one install root every release has a directory of its own: two
/// entries at the same place are for the same version and platform.
pub proof fn entries_do_not_collide(
    install_root: Seq<char>,
    version_a: Seq<char>,
    platform_a: PlatformKey,
    version_b: Seq<char>,
    platform_b: PlatformKey,
)
    requires
        entry_dir(install_root, release_name(version_a, platform_a)) == entry_dir(
            install_root,
            release_name(version_b, platform_b),
        ),
    ensures
        version_a == version_b,
        platform_a == platform_b,
{
    let name_a = release_name(version_a, platform_a);
    let name_b = release_name(version_b, platform_b);
    let rel_a = "protoc-fetcher/"@ + name_a;
    let rel_b = "protoc-fetcher/"@ + name_b;
    let head = if install_root.len() == 0 {
        Seq::<char>::empty()
    } else if install_root.last() == '/' {
        install_root
    } else {
        install_root + "/"@
    };
    let skip = head.len() + "protoc-fetcher/"@.len();
    let at_a = entry_dir(install_root, name_a);
    let at_b = entry_dir(install_root, name_b);
    assert(at_a =~= head + rel_a);
    assert(at_b =~= head + rel_b);
    assert(name_a.len() == name_b.len()) by {
        assert(at_a.len() == skip + name_a.len());
        assert(at_b.len() == skip + name_b.len());
    }
    assert forall|i: int| 0 <= i < name_a.len() implies name_a[i] == name_b[i] by {
        assert(at_a[skip + i] == name_a[i]);
        assert(at_b[skip + i] == name_b[i]);
    }
    assert(name_a =~= name_b);
    release_name_is_unique(version_a, platform_a, version_b, platform_b);
}

} // verus!
