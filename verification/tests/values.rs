use slink::decimal::{parse_u32, u64_to_dec};
use slink::error::{ApiError, Error};
use slink::providers::error::{ProviderError, ProviderType};
use slink::providers::Providers;
use slink::types::minecraft::{
    MinecraftVersion, MinecraftVersionLatest, MinecraftVersionList, MinecraftVersionType,
};
use slink::types::server::{
    CompressionType, Difficulty, Gamemode, PermissionLevel, ServerProperties,
};
use slink::types::versioning::Version;

#[test]
fn decimal_rendering() {
    assert_eq!(u64_to_dec(0), "0");
    assert_eq!(u64_to_dec(7), "7");
    assert_eq!(u64_to_dec(25565), "25565");
    assert_eq!(u64_to_dec(u64::MAX), "18446744073709551615");
}

#[test]
fn decimal_parsing() {
    assert_eq!(parse_u32("0"), Some(0));
    assert_eq!(parse_u32("25565"), Some(25565));
    assert_eq!(parse_u32("4294967295"), Some(u32::MAX));
    assert_eq!(parse_u32("4294967296"), None);
    assert_eq!(parse_u32(""), None);
    assert_eq!(parse_u32("12a"), None);
    assert_eq!(parse_u32("-1"), None);
    assert_eq!(parse_u32("007"), Some(7));
}

#[test]
fn versions_render_and_parse() {
    let v = Version { major: 1, minor: 20, patch: 4 };
    assert_eq!(v.version_string(), "1.20.4");
    assert_eq!(Version::parse("1.20.4").unwrap(), v);
    assert_eq!(Version::parse("1").unwrap(), Version { major: 1, minor: 0, patch: 0 });
    assert_eq!(Version::parse("1.2").unwrap(), Version { major: 1, minor: 2, patch: 0 });
    // A fourth part and beyond is ignored.
    assert_eq!(Version::parse("1.2.3.9").unwrap(), Version { major: 1, minor: 2, patch: 3 });
    assert!(Version::parse("").is_err());
    assert!(Version::parse("x.2").is_err());
    assert!(Version::parse("1..3").is_err());
    assert!(Version::parse("4294967296.0.0").is_err());
    match Version::parse("bogus") {
        Err(Error::ValueError { value, .. }) => assert_eq!(value, "bogus"),
        other => panic!("expected a value error, got {other:?}"),
    }
}

#[test]
fn versions_order_lexicographically() {
    let a = Version { major: 1, minor: 20, patch: 4 };
    let b = Version { major: 1, minor: 21, patch: 0 };
    let c = Version { major: 2, minor: 0, patch: 0 };
    assert!(a < b);
    assert!(b < c);
    assert!(a < c);
    assert_eq!(a.cmp(&a), std::cmp::Ordering::Equal);
    assert!(Version { major: 1, minor: 20, patch: 5 } > a);
}

#[test]
fn provider_lookup_by_name() {
    assert!(matches!(Providers::get("fabric"), Some(Providers::Fabric)));
    assert!(Providers::get("forge").is_none());
    assert!(Providers::get("").is_none());
}

#[test]
fn provider_type_names() {
    assert_eq!(ProviderType::ServerBinary.name(), "server_binary");
}

#[test]
fn error_constructors_build_the_tagged_variants() {
    assert_eq!(
        Error::value_error("x".to_string(), "bad".to_string()),
        Error::ValueError { value: "x".to_string(), reason: "bad".to_string() }
    );
    assert_eq!(
        Error::deserialization("eof".to_string()),
        Error::DeserializationError("eof".to_string())
    );
    assert_eq!(
        Error::serialization("cycle".to_string()),
        Error::SerializationError("cycle".to_string())
    );
    assert_eq!(
        Error::unexpected::<()>("boom".to_string()),
        Err(Error::Unexpected("boom".to_string()))
    );
    let e = Error::provider_error(
        ProviderType::ServerBinary,
        "fabric".to_string(),
        ProviderError::RequestError("timeout".to_string()),
    );
    match e {
        Error::ProviderError { provider_name, error, .. } => {
            assert_eq!(provider_name, "fabric");
            assert_eq!(error, ProviderError::RequestError("timeout".to_string()));
        }
        other => panic!("expected a provider error, got {other:?}"),
    }
}

#[test]
fn response_errors_fill_unknown_parts() {
    let e = Error::response_error(None, None, "went wrong".to_string());
    assert_eq!(
        e,
        Error::RequestResponseError {
            url: "UNKNOWN URL".to_string(),
            status: "500 Internal Server Error".to_string(),
            reason: "went wrong".to_string(),
        }
    );
    let e = Error::response_error(
        Some("https://example.invalid".to_string()),
        Some("404 Not Found".to_string()),
        "missing".to_string(),
    );
    assert_eq!(
        e,
        Error::RequestResponseError {
            url: "https://example.invalid".to_string(),
            status: "404 Not Found".to_string(),
            reason: "missing".to_string(),
        }
    );
    let p = ProviderError::response_error(None, None, "bad".to_string());
    assert_eq!(
        p,
        ProviderError::ResponseError {
            status: "500 Internal Server Error".to_string(),
            url: "UNKNOWN_URL".to_string(),
            data: "bad".to_string(),
        }
    );
}

#[test]
fn api_error_constructors() {
    assert_eq!(
        ApiError::configuration("no block".to_string()),
        ApiError::Configuration("no block".to_string())
    );
    assert_eq!(ApiError::bad_login(), ApiError::BadLogin);
    assert_eq!(
        ApiError::missing_auth("requires_login".to_string()),
        ApiError::MissingAuthorization("requires_login".to_string())
    );
    assert_eq!(
        ApiError::from(Error::Unexpected("x".to_string())),
        ApiError::Internal(Error::Unexpected("x".to_string()))
    );
}

fn mc_version(id: &str, version_type: MinecraftVersionType) -> MinecraftVersion {
    MinecraftVersion {
        id: id.to_string(),
        version_type,
        url: format!("https://example.invalid/{id}.json"),
        time: "2024-04-23T11:00:00+00:00".to_string(),
        release_time: "2024-04-23T11:00:00+00:00".to_string(),
        sha1: "0000000000000000000000000000000000000000".to_string(),
        compliance_level: 1,
    }
}

#[test]
fn version_list_lookups() {
    let list = MinecraftVersionList {
        latest: MinecraftVersionLatest {
            release: "1.20.4".to_string(),
            snapshot: "24w14a".to_string(),
        },
        versions: vec![
            mc_version("24w14a", MinecraftVersionType::Snapshot),
            mc_version("1.20.4", MinecraftVersionType::Release),
            mc_version("1.20.3", MinecraftVersionType::Release),
        ],
    };
    assert_eq!(list.version("1.20.3").unwrap().id, "1.20.3");
    assert!(list.version("1.8").is_none());
    assert_eq!(list.latest_release().unwrap().id, "1.20.4");
    assert_eq!(list.latest_snapshot().unwrap().id, "24w14a");
    assert_eq!(
        list.latest_release().unwrap().version_type,
        MinecraftVersionType::Release
    );
}

#[test]
fn server_properties_defaults() {
    let p = ServerProperties::default();
    assert!(matches!(p.difficulty, Difficulty::Easy));
    assert!(matches!(p.gamemode, Gamemode::Survival));
    assert!(matches!(p.region_file_compression, CompressionType::Deflate));
    assert!(matches!(p.op_permission_level, PermissionLevel::Owner));
    assert!(matches!(p.function_permission_level, PermissionLevel::Gamemaster));
    assert_eq!(p.server_port, 25565);
    assert_eq!(p.query_port, 25565);
    assert_eq!(p.rcon_port, 25575);
    assert_eq!(p.max_players, 20);
    assert_eq!(p.motd, "A Minecraft Server");
    assert_eq!(p.level_name, "world");
    assert_eq!(p.level_type, "minecraft:normal");
    assert_eq!(p.generator_settings, "{}");
    assert_eq!(p.initial_enabled_packs.as_deref(), Some("vanilla"));
    assert_eq!(p.max_world_size, 29999984);
    assert!(p.online_mode);
    assert!(!p.white_list);
    assert!(matches!(Difficulty::default(), Difficulty::Easy));
    assert!(matches!(Gamemode::default(), Gamemode::Survival));
}

#[test]
fn permission_levels_have_their_numeric_values() {
    assert_eq!(PermissionLevel::All.level(), 0);
    assert_eq!(PermissionLevel::Moderator.level(), 1);
    assert_eq!(PermissionLevel::Gamemaster.level(), 2);
    assert_eq!(PermissionLevel::Admin.level(), 3);
    assert_eq!(PermissionLevel::Owner.level(), 4);
}

#[test]
fn plain_models_hold_their_fields() {
    let login = slink::models::LoginModel {
        username: "admin".to_string(),
        password: "hunter2".to_string(),
    };
    assert_eq!(login.username, "admin");
    let link = slink::models::TSLink {
        collection: "users".to_string(),
        id: "u-1".to_string(),
    };
    assert_eq!(link.collection, "users");
    assert_eq!(link.id, "u-1");
}
