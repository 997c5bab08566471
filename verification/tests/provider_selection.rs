use slink::error::Error;
use slink::providers::error::ProviderError;
use slink::providers::fabric_server::FabricServerVersion;
use slink::providers::server_binary::{
    ChosenComponent, FabricServerBinaryProvider, FabricServerBinaryVersion, InstallerVersion,
    LoaderVersion, ServerBinaryVersion,
};
use slink::types::minecraft::{MinecraftVersion, MinecraftVersionType};
use slink::types::versioning::Version;

fn mc(id: &str) -> MinecraftVersion {
    MinecraftVersion {
        id: id.to_string(),
        version_type: MinecraftVersionType::Release,
        url: "https://example.invalid/v.json".to_string(),
        time: "2024-04-23T11:00:00+00:00".to_string(),
        release_time: "2024-04-23T11:00:00+00:00".to_string(),
        sha1: "0000000000000000000000000000000000000000".to_string(),
        compliance_level: 1,
    }
}

fn loader(version: &str, stable: bool) -> LoaderVersion {
    LoaderVersion { version: version.to_string(), stable }
}

fn installer(version: &str, stable: bool) -> InstallerVersion {
    InstallerVersion { version: version.to_string(), stable }
}

#[test]
fn fabric_version_accessors() {
    let l = FabricServerBinaryVersion::Loader { version: "0.15.7".to_string(), stable: true };
    assert_eq!(l.version(), "0.15.7");
    assert_eq!(l.kind(), "loader");
    assert!(l.stable());
    let i = FabricServerBinaryVersion::Installer { version: "1.0.1".to_string(), stable: false };
    assert_eq!(i.version(), "1.0.1");
    assert_eq!(i.kind(), "installer");
    assert!(!i.stable());
}

#[test]
fn provider_identity() {
    assert_eq!(FabricServerBinaryProvider::name(), "fabric");
    assert_eq!(FabricServerBinaryProvider::id(), "providers/server_binary/fabric");
    assert_eq!(
        FabricServerBinaryProvider::components(),
        vec!["loader".to_string(), "installer".to_string()]
    );
}

#[test]
fn version_wrapping_round_trips() {
    let v = FabricServerBinaryVersion::Loader { version: "0.15.7".to_string(), stable: true };
    let global = FabricServerBinaryProvider::as_global_version(v.clone());
    assert_eq!(global, ServerBinaryVersion::Fabric(v.clone()));
    assert_eq!(FabricServerBinaryProvider::as_fabric_version(global).unwrap(), v);
}

#[test]
fn catalogue_is_built_in_order() {
    let components = FabricServerBinaryProvider::build_components(
        &vec![loader("0.15.7", true), loader("0.15.6-beta", false)],
        &vec![installer("1.0.1", true)],
    );
    assert_eq!(components.len(), 2);
    assert_eq!(components[0].component, "loader");
    assert_eq!(components[0].versions.len(), 2);
    assert_eq!(
        components[0].versions[0],
        ServerBinaryVersion::Fabric(FabricServerBinaryVersion::Loader {
            version: "0.15.7".to_string(),
            stable: true,
        })
    );
    assert_eq!(components[1].component, "installer");
    assert_eq!(
        components[1].versions[0],
        ServerBinaryVersion::Fabric(FabricServerBinaryVersion::Installer {
            version: "1.0.1".to_string(),
            stable: true,
        })
    );
}

#[test]
fn latest_stable_takes_the_first_stable_entry() {
    let components = FabricServerBinaryProvider::build_components(
        &vec![loader("0.16.0-rc1", false), loader("0.15.7", true), loader("0.15.6", true)],
        &vec![installer("1.0.1", true)],
    );
    let picked =
        FabricServerBinaryProvider::get_latest_stable_component(&components, &mc("1.20.4"), "loader")
            .unwrap();
    assert_eq!(picked.version(), "0.15.7");
    let picked = FabricServerBinaryProvider::get_latest_unstable_component(
        &components,
        &mc("1.20.4"),
        "loader",
    )
    .unwrap();
    assert_eq!(picked.version(), "0.16.0-rc1");
}

#[test]
fn unknown_component_and_empty_lists_are_distinct_errors() {
    let components = FabricServerBinaryProvider::build_components(
        &vec![loader("0.16.0-rc1", false)],
        &vec![],
    );
    let e = FabricServerBinaryProvider::get_latest_stable_component(
        &components,
        &mc("1.20.4"),
        "modpack",
    )
    .unwrap_err();
    match e {
        Error::ProviderError { error: ProviderError::UnknownVersionComponent(c), .. } => {
            assert_eq!(c, "modpack");
        }
        other => panic!("expected an unknown-component error, got {other:?}"),
    }
    let e = FabricServerBinaryProvider::get_latest_stable_component(
        &components,
        &mc("1.20.4"),
        "loader",
    )
    .unwrap_err();
    match e {
        Error::ProviderError {
            error: ProviderError::NoVersions { component, mc_version }, ..
        } => {
            assert_eq!(component, "loader");
            assert_eq!(mc_version, "1.20.4");
        }
        other => panic!("expected a no-versions error, got {other:?}"),
    }
}

#[test]
fn install_source_needs_both_components() {
    let chosen = vec![
        ChosenComponent {
            component: "loader".to_string(),
            version: ServerBinaryVersion::Fabric(FabricServerBinaryVersion::Loader {
                version: "0.15.7".to_string(),
                stable: true,
            }),
        },
        ChosenComponent {
            component: "installer".to_string(),
            version: ServerBinaryVersion::Fabric(FabricServerBinaryVersion::Installer {
                version: "1.0.1".to_string(),
                stable: true,
            }),
        },
    ];
    let url = FabricServerBinaryProvider::install_source(&mc("1.20.4"), &chosen).unwrap();
    assert_eq!(
        url,
        "https://meta.fabricmc.net/v2/versions/loader/1.20.4/0.15.7/1.0.1/server/jar"
    );

    let only_loader = vec![chosen[0].clone()];
    let e = FabricServerBinaryProvider::install_source(&mc("1.20.4"), &only_loader).unwrap_err();
    match e {
        Error::ProviderError { error: ProviderError::MissingVersionComponent(c), .. } => {
            assert_eq!(c, "installer");
        }
        other => panic!("expected a missing-component error, got {other:?}"),
    }
    let e = FabricServerBinaryProvider::install_source(&mc("1.20.4"), &vec![]).unwrap_err();
    match e {
        Error::ProviderError { error: ProviderError::MissingVersionComponent(c), .. } => {
            assert_eq!(c, "loader");
        }
        other => panic!("expected a missing-component error, got {other:?}"),
    }
}

#[test]
fn fabric_server_urls() {
    let v = FabricServerVersion {
        minecraft: "1.20.4".to_string(),
        loader: Version { major: 0, minor: 15, patch: 7 },
        installer: Version { major: 1, minor: 0, patch: 1 },
    };
    assert_eq!(
        v.url(),
        "https://meta.fabricmc.net/v2/versions/loader/1.20.4/0.15.7/1.0.1/server/jar"
    );
}
