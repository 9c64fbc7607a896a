//! Requests, answers, stored records and the messages exchanged with clients.
use vstd::prelude::*;

use crate::json::{JsonDocument, JsonRow};

verus! {

/// A user's name and password, to log in or to register.
#[derive(Debug)]
pub struct LoginRequest {
    pub username: String,
    pub password: String,
}

/// The token of a user that logged in.
#[derive(Debug)]
pub struct LoginResponse {
    pub access_token: String,
}

#[derive(Debug)]
pub struct ChangePasswordRequest {
    pub old_password: String,
    pub new_password: String,
}

#[derive(Debug)]
pub struct CreateRoomRequest {
    pub name: String,
}

/// A room: the devices and groups of one owner.
#[derive(Debug)]
pub struct Room {
    pub id: String,
    pub name: String,
    pub owner_id: String,
    pub created_at: i64,
}

/// A device as the console shows it.
#[derive(Debug)]
pub struct Device {
    pub id: String,
    pub room_id: String,
    pub group_id: Option<String>,
    pub display_name: String,
    pub client_version: Option<String>,
    pub console_public_ip: Option<String>,
    pub network_ip: Option<String>,
    pub network_node_id: Option<String>,
    pub last_seen: Option<i64>,
    pub status: String,
    pub vnts_status: Option<String>,
    pub vnts_error: Option<String>,
    pub vnts_updated_at: Option<i64>,
    pub config_version: i64,
    pub up_stream: i64,
    pub down_stream: i64,
    pub traffic_updated_at: Option<i64>,
    pub created_at: i64,
}

/// What anyone may know of the console.
#[derive(Debug)]
pub struct PublicConfig {
    pub allow_register: bool,
    pub console_version: String,
}

/// Changes to a device; what is absent stays.
#[derive(Debug)]
pub struct UpdateDeviceRequest {
    pub display_name: Option<String>,
    pub group_id: Option<String>,
    pub network_ip: Option<String>,
    pub network_node_id: Option<String>,
}

#[derive(Debug)]
pub struct CreateGroupRequest {
    pub name: String,
    pub config: VntClientConfig,
}

/// Changes to a group; what is absent stays.
#[derive(Debug)]
pub struct UpdateGroupRequest {
    pub name: Option<String>,
    pub config: Option<VntClientConfig>,
}

/// A group of devices that share a configuration.
#[derive(Debug)]
pub struct Group {
    pub id: String,
    pub room_id: String,
    pub name: String,
    pub config_version: i64,
    pub created_at: i64,
    pub updated_at: i64,
    pub config: Option<VntClientConfig>,
}

/// The network configuration of a client.
#[derive(Debug)]
pub struct VntClientConfig {
    pub tap: bool,
    pub token: String,
    pub device_id: String,
    pub name: String,
    pub server_address: String,
    pub stun_server: Vec<String>,
    pub dns: Vec<String>,
    pub in_ips: Vec<String>,
    pub out_ips: Vec<String>,
    pub password: Option<String>,
    pub mtu: Option<u32>,
    pub tcp: bool,
    pub ip: Option<String>,
    pub use_channel: String,
    pub no_proxy: bool,
    pub server_encrypt: bool,
    pub cipher_model: Option<String>,
    pub finger: bool,
    pub punch_model: String,
    pub ports: Option<Vec<u16>>,
    pub cmd: bool,
    pub first_latency: bool,
    pub device_name: Option<String>,
    /// Share of packets to lose, as the bit pattern of a 64-bit floating point number.
    pub packet_loss: Option<u64>,
    pub packet_delay: u32,
    pub mapping: Vec<String>,
    pub compressor: Option<String>,
    pub vnt_mapping: Vec<String>,
    pub disable_stats: bool,
    pub allow_wire_guard: bool,
    pub local_dev: Option<String>,
    pub disable_relay: bool,
    pub hook: Option<String>,
}

fn copy_texts(texts: &Vec<String>) -> (copy: Vec<String>)
    ensures
        copy@ == texts@,
{
    let mut copy: Vec<String> = Vec::new();
    let mut i: usize = 0;
    while i < texts.len()
        invariant
            i <= texts@.len(),
            copy@ == texts@.take(i as int),
        decreases texts@.len() - i,
    {
        copy.push(texts[i].clone());
        assert(texts@.take(i + 1) =~= texts@.take(i as int).push(texts@[i as int]));
        i = i + 1;
    }
    assert(copy@ =~= texts@);
    copy
}

/// Copies an optional text.
pub fn copy_option(text: &Option<String>) -> (copy: Option<String>)
    ensures
        copy == *text,
{
    match text {
        Some(t) => Some(t.clone()),
        None => None,
    }
}

fn copy_ports(ports: &Option<Vec<u16>>) -> (copy: Option<Vec<u16>>)
    ensures
        same_ports(copy, *ports),
{
    match ports {
        Some(list) => {
            let mut copy: Vec<u16> = Vec::new();
            copy.extend_from_slice(list.as_slice());
            assert(copy@ =~= list@);
            Some(copy)
        },
        None => None,
    }
}

/// Whether two lists of ports hold the same.
pub open spec fn same_ports(a: Option<Vec<u16>>, b: Option<Vec<u16>>) -> bool {
    match (a, b) {
        (Some(x), Some(y)) => x@ == y@,
        (None, None) => true,
        _ => false,
    }
}

impl VntClientConfig {
    /// Whether two configurations agree in every field.
    pub open spec fn same_as(self, other: VntClientConfig) -> bool {
        &&& self == VntClientConfig {
            stun_server: self.stun_server,
            dns: self.dns,
            in_ips: self.in_ips,
            out_ips: self.out_ips,
            ports: self.ports,
            mapping: self.mapping,
            vnt_mapping: self.vnt_mapping,
            ..other
        }
        &&& self.stun_server@ == other.stun_server@
        &&& self.dns@ == other.dns@
        &&& self.in_ips@ == other.in_ips@
        &&& self.out_ips@ == other.out_ips@
        &&& same_ports(self.ports, other.ports)
        &&& self.mapping@ == other.mapping@
        &&& self.vnt_mapping@ == other.vnt_mapping@
    }

    /// Copies a configuration.
    pub fn duplicate(&self) -> (copy: VntClientConfig)
        ensures
            copy.same_as(*self),
    {
        VntClientConfig {
            tap: self.tap,
            token: self.token.clone(),
            device_id: self.device_id.clone(),
            name: self.name.clone(),
            server_address: self.server_address.clone(),
            stun_server: copy_texts(&self.stun_server),
            dns: copy_texts(&self.dns),
            in_ips: copy_texts(&self.in_ips),
            out_ips: copy_texts(&self.out_ips),
            password: copy_option(&self.password),
            mtu: self.mtu,
            tcp: self.tcp,
            ip: copy_option(&self.ip),
            use_channel: self.use_channel.clone(),
            no_proxy: self.no_proxy,
            server_encrypt: self.server_encrypt,
            cipher_model: copy_option(&self.cipher_model),
            finger: self.finger,
            punch_model: self.punch_model.clone(),
            ports: copy_ports(&self.ports),
            cmd: self.cmd,
            first_latency: self.first_latency,
            device_name: copy_option(&self.device_name),
            packet_loss: self.packet_loss,
            packet_delay: self.packet_delay,
            mapping: copy_texts(&self.mapping),
            compressor: copy_option(&self.compressor),
            vnt_mapping: copy_texts(&self.vnt_mapping),
            disable_stats: self.disable_stats,
            allow_wire_guard: self.allow_wire_guard,
            local_dev: copy_option(&self.local_dev),
            disable_relay: self.disable_relay,
            hook: copy_option(&self.hook),
        }
    }

    /// Whether every field has its default.
    pub open spec fn is_default(self) -> bool {
        &&& self.token@.len() == 0 && self.device_id@.len() == 0 && self.name@.len() == 0
        &&& self.server_address@ == "vnt.wherewego.top:29872"@
        &&& self.stun_server@.len() == 4
        &&& self.stun_server@[0]@ == "stun.miwifi.com:3478"@
        &&& self.stun_server@[1]@ == "stun.chat.bilibili.com:3478"@
        &&& self.stun_server@[2]@ == "stun.hitv.com:3478"@
        &&& self.stun_server@[3]@ == "stun.cdnbye.com:3478"@
        &&& self.dns@.len() == 0 && self.in_ips@.len() == 0 && self.out_ips@.len() == 0
        &&& self.mapping@.len() == 0 && self.vnt_mapping@.len() == 0
        &&& self.use_channel@ == "all"@ && self.punch_model@ == "all"@
        &&& self.password is None && self.mtu is None && self.ip is None
        &&& self.cipher_model is None && self.ports is None && self.device_name is None
        &&& self.packet_loss is None && self.compressor is None && self.local_dev is None
        &&& self.hook is None
        &&& !self.tap && !self.tcp && !self.no_proxy && !self.server_encrypt && !self.finger
        &&& !self.cmd && !self.first_latency && !self.disable_stats && !self.allow_wire_guard
        &&& !self.disable_relay
        &&& self.packet_delay == 0
    }
}

impl Default for VntClientConfig {
    fn default() -> (config: Self)
        ensures
            config.is_default(),
    {
        let mut stun_server: Vec<String> = Vec::new();
        stun_server.push("stun.miwifi.com:3478".to_string());
        stun_server.push("stun.chat.bilibili.com:3478".to_string());
        stun_server.push("stun.hitv.com:3478".to_string());
        stun_server.push("stun.cdnbye.com:3478".to_string());
        VntClientConfig {
            tap: false,
            token: String::new(),
            device_id: String::new(),
            name: String::new(),
            server_address: "vnt.wherewego.top:29872".to_string(),
            stun_server,
            dns: Vec::new(),
            in_ips: Vec::new(),
            out_ips: Vec::new(),
            password: None,
            mtu: None,
            tcp: false,
            ip: None,
            use_channel: "all".to_string(),
            no_proxy: false,
            server_encrypt: false,
            cipher_model: None,
            finger: false,
            punch_model: "all".to_string(),
            ports: None,
            cmd: false,
            first_latency: false,
            device_name: None,
            packet_loss: None,
            packet_delay: 0,
            mapping: Vec::new(),
            compressor: None,
            vnt_mapping: Vec::new(),
            disable_stats: false,
            allow_wire_guard: false,
            local_dev: None,
            disable_relay: false,
            hook: None,
        }
    }
}

/// A message from a client.
#[derive(Debug)]
pub enum ClientMessage {
    Hello {
        room_id: String,
        device_id: Option<String>,
        device_token: Option<String>,
        device_name: String,
        protocol_version: u32,
        client_version: Option<String>,
    },
    ConfigState {
        config_version: u32,
        group_id: Option<String>,
        config_name: Option<String>,
        config: VntClientConfig,
        running: bool,
    },
    EventReport { event_type: String, payload: JsonDocument, timestamp: u64 },
    ConfigAck { config_version: u32 },
    Heartbeat { timestamp: u64 },
    Disconnect { timestamp: u64 },
    TrafficStats { up_stream: u64, down_stream: u64, timestamp: u64 },
}

/// An event that a device reported.
#[derive(Debug)]
pub struct EventItem {
    pub id: String,
    pub device_id: String,
    pub event_type: String,
    pub payload: Option<String>,
    pub created_at: i64,
}

/// A backup with its origin.
#[derive(Debug)]
pub struct BackupEnvelope {
    pub format_version: u32,
    pub exported_at: i64,
    pub source_mode: String,
    pub scope: String,
    pub data: BackupData,
}

/// The rows of a backup, table by table.
#[derive(Debug)]
pub struct BackupData {
    pub users: Vec<JsonRow>,
    pub rooms: Vec<JsonRow>,
    pub groups: Vec<JsonRow>,
    pub devices: Vec<JsonRow>,
    pub events: Vec<JsonRow>,
    pub config_pushes: Vec<JsonRow>,
    pub system_config: Vec<JsonRow>,
}

/// The scope of a backup that names none.
pub fn default_backup_scope() -> (scope: String)
    ensures
        scope@ == "full"@,
{
    "full".to_string()
}

/// What became of an import.
#[derive(Debug)]
pub struct BackupImportReport {
    pub ok: bool,
    pub mode: String,
    pub source_mode: String,
    pub scope: String,
    pub tables: Vec<BackupImportTableReport>,
}

/// What became of the rows of one table.
#[derive(Debug)]
pub struct BackupImportTableReport {
    pub table: String,
    pub attempted: u64,
    pub imported: u64,
    pub skipped: u64,
}

/// A message to a client.
#[derive(Debug)]
pub enum ServerMessage {
    HelloAck {
        device_id: String,
        device_token: Option<String>,
        status: String,
        console_version: String,
    },
    ConfigPush { version: u32, encrypted_config: String, nonce: String },
    Kick { reason: String },
    Heartbeat { timestamp: u64 },
}

} // verus!
