//! Server-binary providers: the version records a provider offers per
//! component, and the rules that pick a version and resolve what to
//! download. The catalogue fetches and the download itself are the outside
//! shell's job; everything decided about their results is here.

use crate::error::{Error, Res};
use crate::providers::error::{ProviderError, ProviderType};
use crate::text::str_eq;
use crate::types::minecraft::MinecraftVersion;
use vstd::prelude::*;

verus! {

/// A version of one component of the Fabric server: the loader or the
/// installer, each with its version text and stability flag.
#[derive(Clone, Debug, PartialEq, Eq)]
pub enum FabricServerBinaryVersion {
    Loader { version: String, stable: bool },
    Installer { version: String, stable: bool },
}

impl FabricServerBinaryVersion {
    /// The version text.
    pub open spec fn spec_version(&self) -> Seq<char> {
        match *self {
            FabricServerBinaryVersion::Loader { version, .. } => version@,
            FabricServerBinaryVersion::Installer { version, .. } => version@,
        }
    }

    /// The component this is a version of.
    pub open spec fn spec_kind(&self) -> Seq<char> {
        match *self {
            FabricServerBinaryVersion::Loader { .. } => "loader"@,
            FabricServerBinaryVersion::Installer { .. } => "installer"@,
        }
    }

    /// Whether this version is marked stable.
    pub open spec fn spec_stable(&self) -> bool {
        match *self {
            FabricServerBinaryVersion::Loader { stable, .. } => stable,
            FabricServerBinaryVersion::Installer { stable, .. } => stable,
        }
    }

    /// The version text.
    pub fn version(&self) -> (r: String)
        ensures
            r@ == self.spec_version(),
    {
        match self {
            FabricServerBinaryVersion::Loader { version, .. } => version.clone(),
            FabricServerBinaryVersion::Installer { version, .. } => version.clone(),
        }
    }

    /// The component this is a version of.
    pub fn kind(&self) -> (r: String)
        ensures
            r@ == self.spec_kind(),
    {
        match self {
            FabricServerBinaryVersion::Loader { .. } => String::from_str("loader"),
            FabricServerBinaryVersion::Installer { .. } => String::from_str("installer"),
        }
    }

    /// Whether this version is marked stable.
    pub fn stable(&self) -> (r: bool)
        ensures
            r == self.spec_stable(),
    {
        match self {
            FabricServerBinaryVersion::Loader { stable, .. } => *stable,
            FabricServerBinaryVersion::Installer { stable, .. } => *stable,
        }
    }

    /// An equal copy of this version.
    pub fn dup(&self) -> (r: FabricServerBinaryVersion)
        ensures
            r == *self,
    {
        match self {
            FabricServerBinaryVersion::Loader { version, stable } => {
                FabricServerBinaryVersion::Loader { version: version.clone(), stable: *stable }
            },
            FabricServerBinaryVersion::Installer { version, stable } => {
                FabricServerBinaryVersion::Installer { version: version.clone(), stable: *stable }
            },
        }
    }
}

/// A component version of any provider.
#[derive(Clone, Debug, PartialEq, Eq)]
pub enum ServerBinaryVersion {
    Fabric(FabricServerBinaryVersion),
}

impl ServerBinaryVersion {
    /// The version text, whatever the provider.
    pub open spec fn spec_version(&self) -> Seq<char> {
        match *self {
            ServerBinaryVersion::Fabric(v) => v.spec_version(),
        }
    }

    /// Whether the version is marked stable, whatever the provider.
    pub open spec fn spec_stable(&self) -> bool {
        match *self {
            ServerBinaryVersion::Fabric(v) => v.spec_stable(),
        }
    }

    /// The version text, whatever the provider.
    pub fn version(&self) -> (r: String)
        ensures
            r@ == self.spec_version(),
    {
        match self {
            ServerBinaryVersion::Fabric(v) => v.version(),
        }
    }

    /// Whether the version is marked stable, whatever the provider.
    pub fn stable(&self) -> (r: bool)
        ensures
            r == self.spec_stable(),
    {
        match self {
            ServerBinaryVersion::Fabric(v) => v.stable(),
        }
    }

    /// An equal copy of this version.
    pub fn dup(&self) -> (r: ServerBinaryVersion)
        ensures
            r == *self,
    {
        match self {
            ServerBinaryVersion::Fabric(v) => ServerBinaryVersion::Fabric(v.dup()),
        }
    }
}

/// One component a provider offers, with every version of it, newest first
/// as the provider lists them.
#[derive(Clone, Debug, PartialEq, Eq)]
pub struct ComponentVersions {
    pub component: String,
    pub versions: Vec<ServerBinaryVersion>,
}

/// One chosen component version, as handed to an installation.
#[derive(Clone, Debug, PartialEq, Eq)]
pub struct ChosenComponent {
    pub component: String,
    pub version: ServerBinaryVersion,
}

/// A loader version as the provider's catalogue lists it.
#[derive(Clone, Debug, PartialEq, Eq)]
pub struct LoaderVersion {
    pub version: String,
    pub stable: bool,
}

/// An installer version as the provider's catalogue lists it.
#[derive(Clone, Debug, PartialEq, Eq)]
pub struct InstallerVersion {
    pub version: String,
    pub stable: bool,
}

/// The first offered component with the given name, if any.
pub open spec fn spec_find_component(components: Seq<ComponentVersions>, name: Seq<char>) -> Option<
    ComponentVersions,
>
    decreases components.len(),
{
    if components.len() == 0 {
        None
    } else if components[0].component@ == name {
        Some(components[0])
    } else {
        spec_find_component(components.drop_first(), name)
    }
}

/// The first chosen component with the given name, if any.
pub open spec fn spec_find_chosen(components: Seq<ChosenComponent>, name: Seq<char>) -> Option<
    ServerBinaryVersion,
>
    decreases components.len(),
{
    if components.len() == 0 {
        None
    } else if components[0].component@ == name {
        Some(components[0].version)
    } else {
        spec_find_chosen(components.drop_first(), name)
    }
}

/// The first version in the list whose stability flag is `want_stable`.
pub open spec fn spec_first_with_stability(
    versions: Seq<ServerBinaryVersion>,
    want_stable: bool,
) -> Option<ServerBinaryVersion>
    decreases versions.len(),
{
    if versions.len() == 0 {
        None
    } else if versions[0].spec_stable() == want_stable {
        Some(versions[0])
    } else {
        spec_first_with_stability(versions.drop_first(), want_stable)
    }
}

/// Whether `v` is the loader version the catalogue record describes.
pub open spec fn is_loader_entry(v: ServerBinaryVersion, rec: LoaderVersion) -> bool {
    &&& v matches ServerBinaryVersion::Fabric(FabricServerBinaryVersion::Loader {
        version,
        stable,
    })
    &&& version@ == rec.version@
    &&& stable == rec.stable
}

/// Whether `v` is the installer version the catalogue record describes.
pub open spec fn is_installer_entry(v: ServerBinaryVersion, rec: InstallerVersion) -> bool {
    &&& v matches ServerBinaryVersion::Fabric(FabricServerBinaryVersion::Installer {
        version,
        stable,
    })
    &&& version@ == rec.version@
    &&& stable == rec.stable
}

/// Whether `e` reports an unknown version component of the Fabric provider.
pub open spec fn is_unknown_component_error(e: Error, component: Seq<char>) -> bool {
    &&& e matches Error::ProviderError { provider_type, provider_name, error }
    &&& provider_type is ServerBinary
    &&& provider_name@ == "fabric"@
    &&& error matches ProviderError::UnknownVersionComponent(c) && c@ == component
}

/// Whether `e` reports that the Fabric provider has no versions of a
/// component for a game version.
pub open spec fn is_no_versions_error(e: Error, component: Seq<char>, mc_version: Seq<char>) -> bool {
    &&& e matches Error::ProviderError { provider_type, provider_name, error }
    &&& provider_type is ServerBinary
    &&& provider_name@ == "fabric"@
    &&& error matches ProviderError::NoVersions { component: c, mc_version: m }
    &&& c@ == component
    &&& m@ == mc_version
}

/// Whether `e` reports a missing chosen component of the Fabric provider.
pub open spec fn is_missing_component_error(e: Error, component: Seq<char>) -> bool {
    &&& e matches Error::ProviderError { provider_type, provider_name, error }
    &&& provider_type is ServerBinary
    &&& provider_name@ == "fabric"@
    &&& error matches ProviderError::MissingVersionComponent(c) && c@ == component
}

/// The download location of a chosen Fabric server build: the launcher path
/// for the game version, the loader version and the installer version,
/// ending in the server archive.
pub open spec fn spec_install_url(
    mc_version: Seq<char>,
    loader: ServerBinaryVersion,
    installer: ServerBinaryVersion,
) -> Seq<char> {
    "https://meta.fabricmc.net/v2/versions/loader/"@ + mc_version + seq!['/']
        + loader.spec_version() + seq!['/'] + installer.spec_version() + "/server/jar"@
}

/// The Fabric server-binary provider: which components it offers, how its
/// catalogue records become component versions, which version a request
/// picks, and where a chosen build is downloaded from.
#[derive(Clone, Copy, Debug, PartialEq, Eq, Structural)]
pub struct FabricServerBinaryProvider;

impl FabricServerBinaryProvider {
    /// The provider's registered name.
    pub fn name() -> (r: String)
        ensures
            r@ == "fabric"@,
    {
        String::from_str("fabric")
    }

    /// The components this provider offers.
    pub fn components() -> (r: Vec<String>)
        ensures
            r@.len() == 2,
            r@[0]@ == "loader"@,
            r@[1]@ == "installer"@,
    {
        let mut r: Vec<String> = Vec::new();
        r.push(String::from_str("loader"));
        r.push(String::from_str("installer"));
        r
    }

    /// The provider's identity for request attribution.
    pub fn id() -> (r: String)
        ensures
            r@ == "providers/server_binary/fabric"@,
    {
        let r = String::from_str("providers/server_binary/").concat(
            FabricServerBinaryProvider::name().as_str(),
        );
        proof {
            reveal_strlit("providers/server_binary/");
            reveal_strlit("providers/server_binary/fabric");
            reveal_strlit("fabric");
            assert(r@ =~= "providers/server_binary/fabric"@);
        }
        r
    }

    /// Attribute a provider error to this provider.
    pub fn error(err: ProviderError) -> (r: Error)
        ensures
            r matches Error::ProviderError { provider_type, provider_name, error } && ({
                &&& provider_type is ServerBinary
                &&& provider_name@ == "fabric"@
                &&& error == err
            }),
    {
        Error::provider_error(ProviderType::ServerBinary, FabricServerBinaryProvider::name(), err)
    }

    /// Attribute the error side of a provider result to this provider.
    pub fn result<T>(res: Result<T, ProviderError>) -> (r: Res<T>)
        ensures
            res matches Ok(v) ==> r == Res::<T>::Ok(v),
            res matches Err(err) ==> r matches Err(e) && ({
                &&& e matches Error::ProviderError { provider_type, provider_name, error }
                &&& provider_type is ServerBinary
                &&& provider_name@ == "fabric"@
                &&& error == err
            }),
    {
        match res {
            Ok(v) => Ok(v),
            Err(err) => Err(FabricServerBinaryProvider::error(err)),
        }
    }

    /// The Fabric version inside a provider-independent version value.
    pub fn as_fabric_version(version: ServerBinaryVersion) -> (r: Res<FabricServerBinaryVersion>)
        ensures
            r matches Ok(v) ==> version == ServerBinaryVersion::Fabric(v),
            r is Ok,
    {
        match version {
            ServerBinaryVersion::Fabric(v) => Ok(v),
        }
    }

    /// Wrap a Fabric version as a provider-independent version value.
    pub fn as_global_version(version: FabricServerBinaryVersion) -> (r: ServerBinaryVersion)
        ensures
            r == ServerBinaryVersion::Fabric(version),
    {
        ServerBinaryVersion::Fabric(version)
    }

    /// Assemble the provider's component catalogue from its two fetched
    /// version lists: the loaders, then the installers, each record carried
    /// over in order.
    pub fn build_components(loaders: &Vec<LoaderVersion>, installers: &Vec<InstallerVersion>) -> (r:
        Vec<ComponentVersions>)
        ensures
            r@.len() == 2,
            r@[0].component@ == "loader"@,
            r@[0].versions@.len() == loaders@.len(),
            forall|i: int|
                0 <= i < loaders@.len() ==> is_loader_entry(
                    #[trigger] r@[0].versions@[i],
                    loaders@[i],
                ),
            r@[1].component@ == "installer"@,
            r@[1].versions@.len() == installers@.len(),
            forall|i: int|
                0 <= i < installers@.len() ==> is_installer_entry(
                    #[trigger] r@[1].versions@[i],
                    installers@[i],
                ),
    {
        let mut loader_versions: Vec<ServerBinaryVersion> = Vec::new();
        let mut i: usize = 0;
        while i < loaders.len()
            invariant
                0 <= i <= loaders@.len(),
                loader_versions@.len() == i,
                forall|j: int|
                    0 <= j < i ==> is_loader_entry(#[trigger] loader_versions@[j], loaders@[j]),
            decreases loaders@.len() - i,
        {
            loader_versions.push(
                ServerBinaryVersion::Fabric(
                    FabricServerBinaryVersion::Loader {
                        version: loaders[i].version.clone(),
                        stable: loaders[i].stable,
                    },
                ),
            );
            i = i + 1;
        }
        let mut installer_versions: Vec<ServerBinaryVersion> = Vec::new();
        let mut k: usize = 0;
        while k < installers.len()
            invariant
                0 <= k <= installers@.len(),
                installer_versions@.len() == k,
                forall|j: int|
                    0 <= j < k ==> is_installer_entry(
                        #[trigger] installer_versions@[j],
                        installers@[j],
                    ),
            decreases installers@.len() - k,
        {
            installer_versions.push(
                ServerBinaryVersion::Fabric(
                    FabricServerBinaryVersion::Installer {
                        version: installers[k].version.clone(),
                        stable: installers[k].stable,
                    },
                ),
            );
            k = k + 1;
        }
        let mut r: Vec<ComponentVersions> = Vec::new();
        r.push(
            ComponentVersions {
                component: String::from_str("loader"),
                versions: loader_versions,
            },
        );
        r.push(
            ComponentVersions {
                component: String::from_str("installer"),
                versions: installer_versions,
            },
        );
        r
    }

    /// Pick the newest version of a named component with the wanted
    /// stability: the first such version in the component's list. An unknown
    /// component name and a component with no such version are the two
    /// errors, each naming what was asked for.
    fn latest_component_with_stability(
        components: &Vec<ComponentVersions>,
        minecraft_version: &MinecraftVersion,
        component: &str,
        want_stable: bool,
    ) -> (r: Res<ServerBinaryVersion>)
        ensures
            ({
                match spec_find_component(components@, component@) {
                    None => r matches Err(e) && is_unknown_component_error(e, component@),
                    Some(entry) => match spec_first_with_stability(entry.versions@, want_stable) {
                        Some(v) => r == Res::<ServerBinaryVersion>::Ok(v),
                        None => r matches Err(e) && is_no_versions_error(
                            e,
                            component@,
                            minecraft_version.id@,
                        ),
                    },
                }
            }),
    {
        let n = components.len();
        let mut i: usize = 0;
        proof {
            assert(components@.skip(0) =~= components@);
        }
        while i < n
            invariant
                0 <= i <= n,
                n == components@.len(),
                spec_find_component(components@, component@) == spec_find_component(
                    components@.skip(i as int),
                    component@,
                ),
            decreases n - i,
        {
            proof {
                assert(components@.skip(i as int)[0] == components@[i as int]);
                assert(components@.skip(i as int).drop_first() =~= components@.skip(i as int + 1));
            }
            if str_eq(components[i].component.as_str(), component) {
                proof {
                    assert(spec_find_component(components@, component@) == Some(
                        components@[i as int],
                    ));
                }
                let versions = &components[i].versions;
                proof {
                    assert(versions@ == components@[i as int].versions@);
                }
                let m = versions.len();
                let mut k: usize = 0;
                proof {
                    assert(versions@.skip(0) =~= versions@);
                }
                while k < m
                    invariant
                        0 <= k <= m,
                        m == versions@.len(),
                        i < components@.len(),
                        versions@ == components@[i as int].versions@,
                        spec_find_component(components@, component@) == Some(
                            components@[i as int],
                        ),
                        spec_first_with_stability(versions@, want_stable)
                            == spec_first_with_stability(versions@.skip(k as int), want_stable),
                    decreases m - k,
                {
                    proof {
                        assert(versions@.skip(k as int)[0] == versions@[k as int]);
                        assert(versions@.skip(k as int).drop_first() =~= versions@.skip(
                            k as int + 1,
                        ));
                    }
                    let is_match = match &versions[k] {
                        ServerBinaryVersion::Fabric(v) => v.stable() == want_stable,
                    };
                    if is_match {
                        proof {
                            assert(spec_first_with_stability(versions@, want_stable) == Some(
                                versions@[k as int],
                            ));
                        }
                        return Ok(versions[k].dup());
                    }
                    k = k + 1;
                }
                proof {
                    assert(versions@.skip(m as int) =~= Seq::<ServerBinaryVersion>::empty());
                }
                return Err(
                    FabricServerBinaryProvider::error(
                        ProviderError::NoVersions {
                            component: String::from_str(component),
                            mc_version: minecraft_version.id.clone(),
                        },
                    ),
                );
            }
            i = i + 1;
        }
        proof {
            assert(components@.skip(n as int) =~= Seq::<ComponentVersions>::empty());
        }
        Err(
            FabricServerBinaryProvider::error(
                ProviderError::UnknownVersionComponent(String::from_str(component)),
            ),
        )
    }

    /// Pick the newest stable version of a named component out of the
    /// fetched catalogue.
    pub fn get_latest_stable_component(
        components: &Vec<ComponentVersions>,
        minecraft_version: &MinecraftVersion,
        component: &str,
    ) -> (r: Res<ServerBinaryVersion>)
        ensures
            ({
                match spec_find_component(components@, component@) {
                    None => r matches Err(e) && is_unknown_component_error(e, component@),
                    Some(entry) => match spec_first_with_stability(entry.versions@, true) {
                        Some(v) => r == Res::<ServerBinaryVersion>::Ok(v),
                        None => r matches Err(e) && is_no_versions_error(
                            e,
                            component@,
                            minecraft_version.id@,
                        ),
                    },
                }
            }),
    {
        FabricServerBinaryProvider::latest_component_with_stability(
            components,
            minecraft_version,
            component,
            true,
        )
    }

    /// Pick the newest unstable version of a named component out of the
    /// fetched catalogue.
    pub fn get_latest_unstable_component(
        components: &Vec<ComponentVersions>,
        minecraft_version: &MinecraftVersion,
        component: &str,
    ) -> (r: Res<ServerBinaryVersion>)
        ensures
            ({
                match spec_find_component(components@, component@) {
                    None => r matches Err(e) && is_unknown_component_error(e, component@),
                    Some(entry) => match spec_first_with_stability(entry.versions@, false) {
                        Some(v) => r == Res::<ServerBinaryVersion>::Ok(v),
                        None => r matches Err(e) && is_no_versions_error(
                            e,
                            component@,
                            minecraft_version.id@,
                        ),
                    },
                }
            }),
    {
        FabricServerBinaryProvider::latest_component_with_stability(
            components,
            minecraft_version,
            component,
            false,
        )
    }

    /// Resolve what an installation downloads: the chosen loader and
    /// installer versions must both be present, and together with the game
    /// version they determine the download location.
    pub fn install_source(
        minecraft_version: &MinecraftVersion,
        components: &Vec<ChosenComponent>,
    ) -> (r: Res<String>)
        ensures
            ({
                let loader = spec_find_chosen(components@, "loader"@);
                let installer = spec_find_chosen(components@, "installer"@);
                &&& loader is None ==> (r matches Err(e) && is_missing_component_error(
                    e,
                    "loader"@,
                ))
                &&& (loader is Some && installer is None) ==> (r matches Err(e)
                    && is_missing_component_error(e, "installer"@))
                &&& (loader is Some && installer is Some) ==> (r matches Ok(url) && url@
                    == spec_install_url(minecraft_version.id@, loader->0, installer->0))
            }),
    {
        let loader = match FabricServerBinaryProvider::find_chosen(components, "loader") {
            Some(v) => v,
            None => {
                return Err(
                    FabricServerBinaryProvider::error(
                        ProviderError::MissingVersionComponent(String::from_str("loader")),
                    ),
                );
            },
        };
        let installer = match FabricServerBinaryProvider::find_chosen(components, "installer") {
            Some(v) => v,
            None => {
                return Err(
                    FabricServerBinaryProvider::error(
                        ProviderError::MissingVersionComponent(String::from_str("installer")),
                    ),
                );
            },
        };
        let loader_text = match &loader {
            ServerBinaryVersion::Fabric(v) => v.version(),
        };
        let installer_text = match &installer {
            ServerBinaryVersion::Fabric(v) => v.version(),
        };
        let url = String::from_str("https://meta.fabricmc.net/v2/versions/loader/").concat(
            minecraft_version.id.as_str(),
        ).concat("/").concat(loader_text.as_str()).concat("/").concat(
            installer_text.as_str(),
        ).concat("/server/jar");
        proof {
            reveal_strlit("/");
            assert(url@ =~= spec_install_url(
                minecraft_version.id@,
                spec_find_chosen(components@, "loader"@)->0,
                spec_find_chosen(components@, "installer"@)->0,
            ));
        }
        Ok(url)
    }

    /// The first chosen component with the given name, if any.
    fn find_chosen(components: &Vec<ChosenComponent>, name: &str) -> (r: Option<
        ServerBinaryVersion,
    >)
        ensures
            r == spec_find_chosen(components@, name@),
    {
        let n = components.len();
        let mut i: usize = 0;
        proof {
            assert(components@.skip(0) =~= components@);
        }
        while i < n
            invariant
                0 <= i <= n,
                n == components@.len(),
                spec_find_chosen(components@, name@) == spec_find_chosen(
                    components@.skip(i as int),
                    name@,
                ),
            decreases n - i,
        {
            proof {
                assert(components@.skip(i as int)[0] == components@[i as int]);
                assert(components@.skip(i as int).drop_first() =~= components@.skip(i as int + 1));
            }
            if str_eq(components[i].component.as_str(), name) {
                return Some(components[i].version.dup());
            }
            i = i + 1;
        }
        proof {
            assert(components@.skip(n as int) =~= Seq::<ChosenComponent>::empty());
        }
        None
    }
}

} // verus!
