//! The game server's `server.properties` configuration surface: the settings
//! themselves and their stock defaults. Reading and writing the Java
//! properties text format happens in the outside shell; the values and their
//! defaults are fixed here.

use vstd::prelude::*;

verus! {

/// The game difficulty setting.
#[derive(Clone, Copy, Debug, PartialEq, Eq, Structural)]
pub enum Difficulty {
    Peaceful,
    Easy,
    Normal,
    Hard,
}

impl Default for Difficulty {
    fn default() -> (r: Difficulty)
        ensures
            r == Difficulty::Easy,
    {
        Difficulty::Easy
    }
}

/// The default game mode for new players.
#[derive(Clone, Copy, Debug, PartialEq, Eq, Structural)]
pub enum Gamemode {
    Survival,
    Creative,
    Adventure,
    Spectator,
}

impl Default for Gamemode {
    fn default() -> (r: Gamemode)
        ensures
            r == Gamemode::Survival,
    {
        Gamemode::Survival
    }
}

/// How region files on disk are compressed.
#[derive(Clone, Copy, Debug, PartialEq, Eq, Structural)]
pub enum CompressionType {
    Deflate,
    Lz4,
    Uncompressed,
}

/// An operator permission level, serialized as its numeric value.
#[derive(Clone, Copy, Debug, PartialEq, Eq, Structural)]
pub enum PermissionLevel {
    All,
    Moderator,
    Gamemaster,
    Admin,
    Owner,
}

/// The numeric value of a permission level.
pub open spec fn spec_permission_level(p: PermissionLevel) -> u8 {
    match p {
        PermissionLevel::All => 0,
        PermissionLevel::Moderator => 1,
        PermissionLevel::Gamemaster => 2,
        PermissionLevel::Admin => 3,
        PermissionLevel::Owner => 4,
    }
}

impl PermissionLevel {
    /// The numeric value this level is serialized as.
    pub fn level(&self) -> (r: u8)
        ensures
            r == spec_permission_level(*self),
    {
        match self {
            PermissionLevel::All => 0,
            PermissionLevel::Moderator => 1,
            PermissionLevel::Gamemaster => 2,
            PermissionLevel::Admin => 3,
            PermissionLevel::Owner => 4,
        }
    }
}

/// The full `server.properties` settings set.
#[derive(Clone, Debug, PartialEq)]
pub struct ServerProperties {
    pub accepts_transfers: bool,
    pub allow_flight: bool,
    pub allow_nether: bool,
    pub broadcast_console_to_ops: bool,
    pub broadcast_rcon_to_ops: bool,
    pub bug_report_link: Option<String>,
    pub difficulty: Difficulty,
    pub enable_command_block: bool,
    pub enable_jmx_monitoring: bool,
    pub enable_rcon: bool,
    pub enable_status: bool,
    pub enable_query: bool,
    pub enforce_secure_profile: bool,
    pub enforce_whitelist: bool,
    pub entity_broadcast_range_percentage: u16,
    pub force_gamemode: bool,
    pub function_permission_level: PermissionLevel,
    pub gamemode: Gamemode,
    pub generate_structures: bool,
    pub generator_settings: String,
    pub hardcore: bool,
    pub hide_online_players: bool,
    pub initial_disabled_packs: Option<String>,
    pub initial_enabled_packs: Option<String>,
    pub level_name: String,
    pub level_seed: Option<String>,
    pub level_type: String,
    pub log_ips: bool,
    pub max_chained_neighbor_updates: i64,
    pub max_players: u32,
    pub max_tick_time: u64,
    pub max_world_size: u64,
    pub motd: String,
    pub network_compression_threshold: i64,
    pub online_mode: bool,
    pub op_permission_level: PermissionLevel,
    pub pause_when_empty_seconds: i64,
    pub player_idle_timeout: u64,
    pub prevent_proxy_connections: bool,
    pub pvp: bool,
    pub query_port: u16,
    pub rate_limit: u64,
    pub rcon_password: Option<String>,
    pub rcon_port: u16,
    pub region_file_compression: CompressionType,
    pub resource_pack: Option<String>,
    pub resource_pack_id: Option<String>,
    pub resource_pack_prompt: Option<String>,
    pub resource_pack_sha1: Option<String>,
    pub require_resource_pack: bool,
    pub server_ip: Option<String>,
    pub server_port: u16,
    pub simulation_distance: u8,
    pub spawn_monsters: bool,
    pub spawn_protection: u64,
    pub sync_chunk_writes: bool,
    pub use_native_transport: bool,
    pub view_distance: u8,
    pub white_list: bool,
}

/// The stock defaults a fresh server ships with.
pub open spec fn is_default_server_properties(p: ServerProperties) -> bool {
    &&& p.accepts_transfers == false
    &&& p.allow_flight == false
    &&& p.allow_nether == true
    &&& p.broadcast_console_to_ops == true
    &&& p.broadcast_rcon_to_ops == true
    &&& p.bug_report_link is None
    &&& p.difficulty == Difficulty::Easy
    &&& p.enable_command_block == false
    &&& p.enable_jmx_monitoring == false
    &&& p.enable_rcon == false
    &&& p.enable_status == true
    &&& p.enable_query == false
    &&& p.enforce_secure_profile == true
    &&& p.enforce_whitelist == false
    &&& p.entity_broadcast_range_percentage == 100
    &&& p.force_gamemode == false
    &&& p.function_permission_level == PermissionLevel::Gamemaster
    &&& p.gamemode == Gamemode::Survival
    &&& p.generate_structures == true
    &&& p.generator_settings@ == "{}"@
    &&& p.hardcore == false
    &&& p.hide_online_players == false
    &&& p.initial_disabled_packs is None
    &&& p.initial_enabled_packs matches Some(packs) && packs@ == "vanilla"@
    &&& p.level_name@ == "world"@
    &&& p.level_seed is None
    &&& p.level_type@ == "minecraft:normal"@
    &&& p.log_ips == true
    &&& p.max_chained_neighbor_updates == 1000000
    &&& p.max_players == 20
    &&& p.max_tick_time == 60000
    &&& p.max_world_size == 29999984
    &&& p.motd@ == "A Minecraft Server"@
    &&& p.network_compression_threshold == 256
    &&& p.online_mode == true
    &&& p.op_permission_level == PermissionLevel::Owner
    &&& p.pause_when_empty_seconds == 60
    &&& p.player_idle_timeout == 0
    &&& p.prevent_proxy_connections == false
    &&& p.pvp == true
    &&& p.query_port == 25565
    &&& p.rate_limit == 0
    &&& p.rcon_password is None
    &&& p.rcon_port == 25575
    &&& p.region_file_compression == CompressionType::Deflate
    &&& p.resource_pack is None
    &&& p.resource_pack_id is None
    &&& p.resource_pack_prompt is None
    &&& p.resource_pack_sha1 is None
    &&& p.require_resource_pack == false
    &&& p.server_ip is None
    &&& p.server_port == 25565
    &&& p.simulation_distance == 10
    &&& p.spawn_monsters == true
    &&& p.spawn_protection == 16
    &&& p.sync_chunk_writes == true
    &&& p.use_native_transport == true
    &&& p.view_distance == 10
    &&& p.white_list == false
}

impl Default for ServerProperties {
    fn default() -> (r: ServerProperties)
        ensures
            is_default_server_properties(r),
    {
        ServerProperties {
            accepts_transfers: false,
            allow_flight: false,
            allow_nether: true,
            broadcast_console_to_ops: true,
            broadcast_rcon_to_ops: true,
            bug_report_link: None,
            difficulty: Difficulty::Easy,
            enable_command_block: false,
            enable_jmx_monitoring: false,
            enable_query: false,
            enable_rcon: false,
            enable_status: true,
            enforce_secure_profile: true,
            enforce_whitelist: false,
            entity_broadcast_range_percentage: 100,
            force_gamemode: false,
            function_permission_level: PermissionLevel::Gamemaster,
            gamemode: Gamemode::Survival,
            generate_structures: true,
            generator_settings: String::from_str("{}"),
            hardcore: false,
            hide_online_players: false,
            initial_disabled_packs: None,
            initial_enabled_packs: Some(String::from_str("vanilla")),
            level_name: String::from_str("world"),
            level_seed: None,
            level_type: String::from_str("minecraft:normal"),
            log_ips: true,
            max_chained_neighbor_updates: 1000000,
            max_players: 20,
            max_tick_time: 60000,
            max_world_size: 29999984,
            motd: String::from_str("A Minecraft Server"),
            network_compression_threshold: 256,
            online_mode: true,
            op_permission_level: PermissionLevel::Owner,
            pause_when_empty_seconds: 60,
            player_idle_timeout: 0,
            prevent_proxy_connections: false,
            pvp: true,
            query_port: 25565,
            rate_limit: 0,
            rcon_password: None,
            rcon_port: 25575,
            region_file_compression: CompressionType::Deflate,
            require_resource_pack: false,
            resource_pack: None,
            resource_pack_id: None,
            resource_pack_prompt: None,
            resource_pack_sha1: None,
            server_ip: None,
            server_port: 25565,
            simulation_distance: 10,
            spawn_monsters: true,
            spawn_protection: 16,
            sync_chunk_writes: true,
            use_native_transport: true,
            view_distance: 10,
            white_list: false,
        }
    }
}

} // verus!
