//! Release locator: the name of a release archive and the place it is
//! downloaded from.

use vstd::prelude::*;
use vstd::string::*;
use crate::platform::PlatformKey;

verus! {

/// The name of the archive of `version` for `platform`, without its
/// extension: `protoc-<version>-<suffix>`.
pub open spec fn release_name(version: Seq<char>, platform: PlatformKey) -> Seq<char> {
    "protoc-"@ + version + "-"@ + platform.suffix()
}

/// Where the archive `release_name` of `version` is published:
/// `<base>/v<version>/<release_name>.zip`.
pub open spec fn archive_url(release_name: Seq<char>, version: Seq<char>) -> Seq<char> {
    "https://github.com/protocolbuffers/protobuf/releases/download/v"@ + version + "/"@
        + release_name + ".zip"@
}

/// Composes the release name. The version is taken as it comes: it is not
/// parsed, and no `v` is expected in front of it.
pub fn build_release_name(version: &str, platform: PlatformKey) -> (name: String)
    ensures
        name@ == release_name(version@, platform),
{
    let mut name = String::from_str("protoc-");
    name.append(version);
    name.append("-");
    name.append(platform.release_suffix());
    name
}

/// Composes the address of a release archive.
pub fn build_archive_url(release_name: &str, version: &str) -> (url: String)
    ensures
        url@ == archive_url(release_name@, version@),
{
    let mut url = String::from_str(
        "https://github.com/protocolbuffers/protobuf/releases/download/v",
    );
    url.append(version);
    url.append("/");
    url.append(release_name);
    url.append(".zip");
    url
}

/// Two texts that end alike, each a stem, a hyphen and a tail: the shorter
/// tail ends the longer one, with a hyphen before it.
proof fn shorter_tail_ends_longer(
    stem_a: Seq<char>,
    tail_a: Seq<char>,
    stem_b: Seq<char>,
    tail_b: Seq<char>,
)
    requires
        stem_a + "-"@ + tail_a == stem_b + "-"@ + tail_b,
        tail_a.len() <= tail_b.len(),
    ensures
        stem_a.len() == stem_b.len() + (tail_b.len() - tail_a.len()),
        forall|i: int|
            0 <= i < tail_a.len() ==> tail_a[i] == #[trigger] tail_b[tail_b.len() - tail_a.len()
                + i],
        tail_a.len() < tail_b.len() ==> tail_b[tail_b.len() - tail_a.len() - 1] == '-',
        tail_a.len() == tail_b.len() ==> stem_a == stem_b,
{
    reveal_strlit("-");
    let a = stem_a + "-"@ + tail_a;
    let b = stem_b + "-"@ + tail_b;
    let d = tail_b.len() - tail_a.len();
    assert(a.len() == stem_a.len() + 1 + tail_a.len());
    assert(b.len() == stem_b.len() + 1 + tail_b.len());
    assert forall|i: int| 0 <= i < tail_a.len() implies tail_a[i] == #[trigger] tail_b[d + i] by {
        assert(a[stem_a.len() + 1 + i] == tail_a[i]);
        assert(b[stem_b.len() + 1 + d + i] == tail_b[d + i]);
    }
    if d > 0 {
        assert(a[stem_a.len() as int] == '-');
        assert(b[stem_b.len() + 1 + (d - 1)] == tail_b[d - 1]);
    } else {
        assert forall|i: int| 0 <= i < stem_a.len() implies stem_a[i] == stem_b[i] by {
            assert(a[i] == stem_a[i]);
            assert(b[i] == stem_b[i]);
        }
        assert(stem_a =~= stem_b);
    }
}

/// No flavour's suffix ends another's after a hyphen, and no two flavours
/// share a suffix.
proof fn suffixes_do_not_nest(p: PlatformKey, q: PlatformKey)
    requires
        p.suffix().len() <= q.suffix().len(),
        forall|i: int|
            0 <= i < p.suffix().len() ==> p.suffix()[i] == #[trigger] q.suffix()[q.suffix().len()
                - p.suffix().len() + i],
        p.suffix().len() < q.suffix().len() ==> q.suffix()[q.suffix().len() - p.suffix().len() - 1]
            == '-',
    ensures
        p == q,
{
    reveal_strlit("linux-aarch_64");
    reveal_strlit("linux-x86_32");
    reveal_strlit("linux-x86_64");
    reveal_strlit("osx-aarch_64");
    reveal_strlit("osx-x86_64");
    reveal_strlit("osx-universal_binary");
    reveal_strlit("win32");
    reveal_strlit("win64");
    let a = p.suffix();
    let b = q.suffix();
    let d = b.len() - a.len();
    if d == 0 && p != q {
        // Of equal length and different: they part at the first or at the
        // last but one character.
        assert(a[0] == b[d + 0]);
        assert(a[a.len() - 2] == b[d + (a.len() - 2)]);
        assert(a[a.len() - 1] == b[d + (a.len() - 1)]);
    }
}

/// A release name belongs to one version and one platform: no two releases
/// share an archive, an address or a place in the cache.
pub proof fn release_name_is_unique(
    version_a: Seq<char>,
    platform_a: PlatformKey,
    version_b: Seq<char>,
    platform_b: PlatformKey,
)
    requires
        release_name(version_a, platform_a) == release_name(version_b, platform_b),
    ensures
        version_a == version_b,
        platform_a == platform_b,
{
    let a = release_name(version_a, platform_a);
    let b = release_name(version_b, platform_b);
    let stem_a = "protoc-"@ + version_a;
    let stem_b = "protoc-"@ + version_b;
    assert(a == stem_a + "-"@ + platform_a.suffix());
    assert(b == stem_b + "-"@ + platform_b.suffix());
    if platform_a.suffix().len() <= platform_b.suffix().len() {
        shorter_tail_ends_longer(stem_a, platform_a.suffix(), stem_b, platform_b.suffix());
        suffixes_do_not_nest(platform_a, platform_b);
    } else {
        shorter_tail_ends_longer(stem_b, platform_b.suffix(), stem_a, platform_a.suffix());
        suffixes_do_not_nest(platform_b, platform_a);
    }
    // The platforms are the same, so the stems are, and a stem is the
    // version behind a fixed prefix.
    let skip = "protoc-"@.len() as int;
    assert(stem_a.len() == skip + version_a.len());
    assert(stem_b.len() == skip + version_b.len());
    assert forall|i: int| 0 <= i < version_a.len() implies version_a[i] == version_b[i] by {
        assert(stem_a[skip + i] == version_a[i]);
        assert(stem_b[skip + i] == version_b[i]);
    }
    assert(version_a =~= version_b);
}

} // verus!
