//! What the local agent reports about itself: its server's status, its identity for
//! pings, and the periodic status event.
use vstd::prelude::*;

use crate::config::AppConfig;
use crate::text::{decimal, decimal_string};

verus! {

broadcast use vstd::string::group_string_axioms;

/// The state of the local HTTP agent.
#[derive(Clone, Copy, Debug, PartialEq, Eq, Structural)]
pub enum ServerState {
    Stopped,
    Starting,
    Running,
    Failed,
}

/// The state of the local HTTP agent, the address it binds, and its error, if any.
#[derive(Clone, Debug)]
pub struct ServerStatus {
    pub state: ServerState,
    pub bind_addr: String,
    pub error: Option<String>,
}

/// Everything the user interface shows about the local device.
#[derive(Clone, Debug)]
pub struct LocalInfo {
    pub device_id: String,
    pub device_name: String,
    pub version: String,
    pub platform: String,
    pub protocol_version: u16,
    pub listen_host: String,
    pub listen_port: u16,
    pub download_dir: String,
    pub config_path: String,
    pub database_path: String,
    pub features: Vec<String>,
    pub server_status: ServerStatus,
}

/// What the local agent answers to a ping.
#[derive(Clone, Debug)]
pub struct PingResponse {
    pub device_id: String,
    pub device_name: String,
    pub version: String,
    pub platform: String,
    pub protocol_version: u16,
    pub features: Vec<String>,
}

/// The periodic status event sent to the user interface.
#[derive(Clone, Debug)]
pub struct AgentStatusEvent {
    pub timestamp: u128,
    pub local_info: LocalInfo,
}

/// The features this agent offers, in order.
pub open spec fn feature_names() -> Seq<Seq<char>> {
    seq!["ping"@, "http_transport"@, "ws_control"@, "direct_file_upload"@]
}

/// The features this agent offers.
pub fn features() -> (v: Vec<String>)
    ensures
        v.deep_view() == feature_names(),
{
    let mut v: Vec<String> = Vec::new();
    v.push("ping".to_owned());
    v.push("http_transport".to_owned());
    v.push("ws_control".to_owned());
    v.push("direct_file_upload".to_owned());
    proof {
        assert(v.deep_view() =~= feature_names());
    }
    v
}

/// The address the agent binds: `host:port`.
pub fn bind_addr(config: &AppConfig) -> (a: String)
    ensures
        a@ == config.listen_host@ + ":"@ + decimal(config.listen_port as nat),
{
    let port = decimal_string(config.listen_port as u64);
    config.listen_host.clone().concat(":").concat(port.as_str())
}

/// The status of an agent that has not started: stopped, at `bind_addr`, no error.
pub fn stopped_status(bind_addr: String) -> (s: ServerStatus)
    ensures
        s.state == ServerState::Stopped,
        s.bind_addr == bind_addr,
        s.error is None,
{
    ServerStatus { state: ServerState::Stopped, bind_addr, error: None }
}

/// The status of an agent that is starting at `bind_addr`.
pub fn starting_status(bind_addr: String) -> (s: ServerStatus)
    ensures
        s.state == ServerState::Starting,
        s.bind_addr == bind_addr,
        s.error is None,
{
    ServerStatus { state: ServerState::Starting, bind_addr, error: None }
}

/// The status of an agent that listens at `bind_addr`.
pub fn running_status(bind_addr: String) -> (s: ServerStatus)
    ensures
        s.state == ServerState::Running,
        s.bind_addr == bind_addr,
        s.error is None,
{
    ServerStatus { state: ServerState::Running, bind_addr, error: None }
}

/// The status of an agent that failed at `bind_addr` with `error`.
pub fn failed_status(bind_addr: String, error: String) -> (s: ServerStatus)
    ensures
        s.state == ServerState::Failed,
        s.bind_addr == bind_addr,
        s.error == Some(error),
{
    ServerStatus { state: ServerState::Failed, bind_addr, error: Some(error) }
}

/// A copy of a status.
pub fn copy_status(status: &ServerStatus) -> (s: ServerStatus)
    ensures
        s.state == status.state,
        s.bind_addr@ == status.bind_addr@,
        s.error.deep_view() == status.error.deep_view(),
{
    let error = match &status.error {
        Some(e) => Some(e.clone()),
        None => None,
    };
    ServerStatus { state: status.state, bind_addr: status.bind_addr.clone(), error }
}

/// What the agent answers to a ping, from its configuration and platform.
pub fn ping_response(config: &AppConfig, platform: &str) -> (r: PingResponse)
    ensures
        r.device_id@ == config.device_id@,
        r.device_name@ == config.device_name@,
        r.version@ == config.version@,
        r.platform@ == platform@,
        r.protocol_version == config.protocol_version,
        r.features.deep_view() == feature_names(),
{
    PingResponse {
        device_id: config.device_id.clone(),
        device_name: config.device_name.clone(),
        version: config.version.clone(),
        platform: platform.to_owned(),
        protocol_version: config.protocol_version,
        features: features(),
    }
}

/// Everything shown about the local device, from its configuration, the paths of its
/// files, its platform and its server's status.
pub fn local_info(
    config: &AppConfig,
    config_path: &str,
    database_path: &str,
    platform: &str,
    server_status: ServerStatus,
) -> (r: LocalInfo)
    ensures
        r.device_id@ == config.device_id@,
        r.device_name@ == config.device_name@,
        r.version@ == config.version@,
        r.platform@ == platform@,
        r.protocol_version == config.protocol_version,
        r.listen_host@ == config.listen_host@,
        r.listen_port == config.listen_port,
        r.download_dir@ == config.download_dir@,
        r.config_path@ == config_path@,
        r.database_path@ == database_path@,
        r.features.deep_view() == feature_names(),
        r.server_status == server_status,
{
    LocalInfo {
        device_id: config.device_id.clone(),
        device_name: config.device_name.clone(),
        version: config.version.clone(),
        platform: platform.to_owned(),
        protocol_version: config.protocol_version,
        listen_host: config.listen_host.clone(),
        listen_port: config.listen_port,
        download_dir: config.download_dir.clone(),
        config_path: config_path.to_owned(),
        database_path: database_path.to_owned(),
        features: features(),
        server_status,
    }
}

/// The status event for the user interface at `timestamp`.
pub fn agent_status_event(timestamp: u128, local_info: LocalInfo) -> (e: AgentStatusEvent)
    ensures
        e.timestamp == timestamp,
        e.local_info == local_info,
{
    AgentStatusEvent { timestamp, local_info }
}

/// The greeting the user interface asks for to check that the core is up.
pub fn hello_from_rust(name: String) -> (g: String)
    ensures
        g@ == "Hello, "@ + name@ + ". Rust Core is ready."@,
{
    "Hello, ".to_owned().concat(name.as_str()).concat(". Rust Core is ready.")
}

} // verus!
