//! The version records the Fabric metadata service publishes, and the
//! download location a chosen server version resolves to. Talking to the
//! service is the outside shell's job.

use crate::types::versioning::{spec_version_string, Version};
use vstd::prelude::*;

verus! {

/// A fully chosen Fabric server: the game version and the loader and
/// installer versions to build it with.
#[derive(Clone, Debug, PartialEq, Eq)]
pub struct FabricServerVersion {
    pub minecraft: String,
    pub loader: Version,
    pub installer: Version,
}

/// The download location of a chosen Fabric server: the service's launcher
/// path for the game version, loader and installer, ending in the server
/// archive.
pub open spec fn spec_fabric_server_url(v: FabricServerVersion) -> Seq<char> {
    "https://meta.fabricmc.net/v2/versions/loader/"@ + v.minecraft@ + seq!['/']
        + spec_version_string(v.loader) + seq!['/'] + spec_version_string(v.installer)
        + "/server/jar"@
}

impl FabricServerVersion {
    /// Where the chosen server archive is downloaded from.
    pub fn url(&self) -> (r: String)
        ensures
            r@ == spec_fabric_server_url(*self),
    {
        let r = String::from_str("https://meta.fabricmc.net/v2/versions/loader/").concat(
            self.minecraft.as_str(),
        ).concat("/").concat(self.loader.version_string().as_str()).concat("/").concat(
            self.installer.version_string().as_str(),
        ).concat("/server/jar");
        proof {
            reveal_strlit("/");
            assert(r@ =~= spec_fabric_server_url(*self));
        }
        r
    }
}

/// A game version as the Fabric metadata service lists it.
#[derive(Clone, Debug, PartialEq, Eq)]
pub struct FabricApiMinecraftVersion {
    pub version: String,
    pub stable: bool,
}

/// An installer version as the Fabric metadata service lists it.
#[derive(Clone, Debug, PartialEq, Eq)]
pub struct FabricApiInstallerVersion {
    pub version: String,
    pub stable: bool,
    pub url: String,
    pub maven: String,
}

/// A loader version as the Fabric metadata service lists it.
#[derive(Clone, Debug, PartialEq, Eq)]
pub struct FabricApiLoaderVersion {
    pub version: String,
    pub stable: bool,
    pub separator: String,
    pub build: u32,
    pub maven: String,
}

/// The Fabric metadata service. Its catalogue endpoints are plain fetches
/// and live in the outside shell; the values they produce are the records
/// above.
#[derive(Clone, Copy, Debug, PartialEq, Eq, Structural)]
pub struct FabricApi;

} // verus!
