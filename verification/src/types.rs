//! The library's portable value types: version identifiers, game metadata,
//! application configuration and server properties.

pub mod config;
pub mod minecraft;
pub mod server;
pub mod versioning;

pub use config::RunnerConfig;
pub use minecraft::{
    JavaVersion, MinecraftFileDownload, MinecraftVersion, MinecraftVersionLatest,
    MinecraftVersionList, MinecraftVersionMetadata, MinecraftVersionType,
};
pub use server::{CompressionType, Difficulty, Gamemode, PermissionLevel, ServerProperties};
pub use versioning::Version;
