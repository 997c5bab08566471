//! Game and runtime version data: the Java runtime a runner needs, and the
//! published game-version manifest the providers select from. Fetching the
//! manifest is the outside shell's job; looking versions up in it is here.

use crate::decimal::{spec_dec_of, u64_to_dec};
use vstd::prelude::*;

verus! {

/// The image reference for a Java runtime of the given major version: the
/// fixed base image name with the version as its tag.
pub open spec fn spec_java_image(version: u8) -> Seq<char> {
    "amazoncorretto:"@ + spec_dec_of(version as nat)
}

/// A Java runtime, identified by its major version.
#[derive(Clone, Copy, Debug, Hash, PartialEq, Eq, Structural)]
pub struct JavaVersion(pub u8);

impl JavaVersion {
    /// The major version number.
    pub fn version(&self) -> (r: u8)
        ensures
            r == self.0,
    {
        self.0
    }

    /// The container image that provides this runtime.
    pub fn image(&self) -> (r: String)
        ensures
            r@ == spec_java_image(self.0),
    {
        let r = String::from_str("amazoncorretto:").concat(u64_to_dec(self.0 as u64).as_str());
        proof {
            assert(r@ =~= spec_java_image(self.0));
        }
        r
    }
}

impl From<u8> for JavaVersion {
    fn from(value: u8) -> (r: JavaVersion)
        ensures
            r == JavaVersion(value),
    {
        JavaVersion(value)
    }
}

impl vstd::std_specs::convert::FromSpecImpl<u8> for JavaVersion {
    open spec fn obeys_from_spec() -> bool {
        true
    }

    open spec fn from_spec(value: u8) -> JavaVersion {
        JavaVersion(value)
    }
}

/// Whether a published game version is a stable release or a snapshot.
#[derive(Clone, Copy, Debug, PartialEq, Eq, Structural)]
pub enum MinecraftVersionType {
    Release,
    Snapshot,
}

/// One published game version, as the version manifest lists it. The two
/// timestamps are kept in their textual form.
#[derive(Clone, Debug, PartialEq, Eq)]
pub struct MinecraftVersion {
    pub id: String,
    pub version_type: MinecraftVersionType,
    pub url: String,
    pub time: String,
    pub release_time: String,
    pub sha1: String,
    pub compliance_level: u32,
}

impl MinecraftVersion {
    /// An equal copy of this version record.
    pub fn dup(&self) -> (r: MinecraftVersion)
        ensures
            r == *self,
    {
        MinecraftVersion {
            id: self.id.clone(),
            version_type: self.version_type,
            url: self.url.clone(),
            time: self.time.clone(),
            release_time: self.release_time.clone(),
            sha1: self.sha1.clone(),
            compliance_level: self.compliance_level,
        }
    }
}

/// The manifest's pointers to the newest release and newest snapshot.
#[derive(Clone, Debug, PartialEq, Eq)]
pub struct MinecraftVersionLatest {
    pub release: String,
    pub snapshot: String,
}

/// The published version manifest: the latest pointers and every version.
#[derive(Clone, Debug, PartialEq, Eq)]
pub struct MinecraftVersionList {
    pub latest: MinecraftVersionLatest,
    pub versions: Vec<MinecraftVersion>,
}

/// The first version in the list whose id is `id`, if any.
pub open spec fn spec_find_version(versions: Seq<MinecraftVersion>, id: Seq<char>) -> Option<
    MinecraftVersion,
>
    decreases versions.len(),
{
    if versions.len() == 0 {
        None
    } else if versions[0].id@ == id {
        Some(versions[0])
    } else {
        spec_find_version(versions.drop_first(), id)
    }
}

impl MinecraftVersionList {
    /// Look a version up by id; the first match wins.
    pub fn version(&self, id: &str) -> (r: Option<MinecraftVersion>)
        ensures
            r == spec_find_version(self.versions@, id@),
    {
        let n = self.versions.len();
        let mut i: usize = 0;
        proof {
            assert(self.versions@.skip(0) =~= self.versions@);
        }
        while i < n
            invariant
                0 <= i <= n,
                n == self.versions@.len(),
                spec_find_version(self.versions@, id@) == spec_find_version(
                    self.versions@.skip(i as int),
                    id@,
                ),
            decreases n - i,
        {
            proof {
                assert(self.versions@.skip(i as int)[0] == self.versions@[i as int]);
                assert(self.versions@.skip(i as int).drop_first() =~= self.versions@.skip(
                    i as int + 1,
                ));
            }
            if crate::text::str_eq(self.versions[i].id.as_str(), id) {
                return Some(self.versions[i].dup());
            }
            i = i + 1;
        }
        proof {
            assert(self.versions@.skip(n as int) =~= Seq::<MinecraftVersion>::empty());
        }
        None
    }

    /// The version record the manifest's latest-release pointer names.
    pub fn latest_release(&self) -> (r: Option<MinecraftVersion>)
        ensures
            r == spec_find_version(self.versions@, self.latest.release@),
    {
        self.version(self.latest.release.as_str())
    }

    /// The version record the manifest's latest-snapshot pointer names.
    pub fn latest_snapshot(&self) -> (r: Option<MinecraftVersion>)
        ensures
            r == spec_find_version(self.versions@, self.latest.snapshot@),
    {
        self.version(self.latest.snapshot.as_str())
    }
}

/// One downloadable artifact of a game version.
#[derive(Clone, Debug, PartialEq, Eq)]
pub struct MinecraftFileDownload {
    pub url: String,
    pub sha1: String,
    pub size: u64,
}

/// The per-version metadata the providers need: the client and server
/// artifacts, the Java runtime, and the version record itself.
#[derive(Clone, Debug, PartialEq, Eq)]
pub struct MinecraftVersionMetadata {
    pub client: MinecraftFileDownload,
    pub server: MinecraftFileDownload,
    pub java_version: JavaVersion,
    pub version: MinecraftVersion,
}

} // verus!
