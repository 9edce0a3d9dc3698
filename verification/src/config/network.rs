//! Configuration of the network subsystem (`network.toml`): Wi-Fi, HTTP
//! API, WebSocket telemetry and OTA updates.
use vstd::prelude::*;

verus! {

/// Wi-Fi operating mode.
#[derive(Debug, Clone, Copy, PartialEq, Eq, Structural)]
pub enum WifiMode {
    /// Join an existing access point.
    Station,
    /// Run an own access point (first-time setup without stored
    /// credentials).
    AccessPoint,
}

impl Default for WifiMode {
    /// Station mode.
    fn default() -> (m: Self)
        ensures
            m == WifiMode::Station,
    {
        WifiMode::Station
    }
}

/// Wi-Fi credentials and mode.
#[derive(Debug, Clone)]
pub struct WifiConfig {
    /// Operating mode.
    pub mode: WifiMode,
    /// Network to join (station) or to create (access point).
    pub ssid: String,
    /// Network password; kept in the settings partition, never sent over
    /// the HTTP API.
    pub password: String,
    /// Reconnect automatically after a dropped connection.
    pub auto_reconnect: bool,
    /// Connection attempts at start-up before falling back to access
    /// point mode.
    pub max_connect_attempts: u8,
}

impl Default for WifiConfig {
    /// Station mode, no credentials, auto-reconnect, five attempts.
    fn default() -> (c: Self)
        ensures
            c.mode == WifiMode::Station,
            c.ssid@ == Seq::<char>::empty(),
            c.password@ == Seq::<char>::empty(),
            c.auto_reconnect,
            c.max_connect_attempts == 5,
    {
        WifiConfig {
            mode: WifiMode::Station,
            ssid: String::new(),
            password: String::new(),
            auto_reconnect: true,
            max_connect_attempts: 5,
        }
    }
}

/// Built-in HTTP API server.
#[derive(Debug, Clone, Copy, PartialEq, Eq, Structural)]
pub struct HttpApiConfig {
    /// Whether the server runs.
    pub enabled: bool,
    /// TCP port.
    pub port: u16,
    /// Simultaneous connections.
    pub max_connections: u8,
}

impl Default for HttpApiConfig {
    /// Enabled on port 80 with four connections.
    fn default() -> (c: Self)
        ensures
            c == (HttpApiConfig { enabled: true, port: 80, max_connections: 4 }),
    {
        HttpApiConfig { enabled: true, port: 80, max_connections: 4 }
    }
}

/// WebSocket telemetry channel.
#[derive(Debug, Clone, Copy, PartialEq, Eq, Structural)]
pub struct WebSocketConfig {
    /// Whether the channel runs.
    pub enabled: bool,
    /// TCP port.
    pub port: u16,
    /// Minimum interval between telemetry frames, milliseconds.
    pub telemetry_interval_ms: u32,
}

impl Default for WebSocketConfig {
    /// Enabled on port 81, one frame per 250 ms at most.
    fn default() -> (c: Self)
        ensures
            c == (WebSocketConfig { enabled: true, port: 81, telemetry_interval_ms: 250 }),
    {
        WebSocketConfig { enabled: true, port: 81, telemetry_interval_ms: 250 }
    }
}

/// Over-the-air update policy.
#[derive(Debug, Clone, Copy, PartialEq, Eq, Structural)]
pub struct OtaConfig {
    /// Whether updates over the network are allowed.
    pub enabled: bool,
    /// Whether an image signature check is required before applying it.
    pub require_signed_image: bool,
}

impl Default for OtaConfig {
    /// Updates allowed, signature check required.
    fn default() -> (c: Self)
        ensures
            c == (OtaConfig { enabled: true, require_signed_image: true }),
    {
        OtaConfig { enabled: true, require_signed_image: true }
    }
}

/// The whole `network.toml`.
#[derive(Debug, Clone)]
pub struct NetworkConfig {
    /// Wi-Fi.
    pub wifi: WifiConfig,
    /// HTTP API.
    pub http: HttpApiConfig,
    /// WebSocket telemetry.
    pub websocket: WebSocketConfig,
    /// OTA updates.
    pub ota: OtaConfig,
    /// mDNS host name of the machine.
    pub hostname: String,
}

impl Default for NetworkConfig {
    /// Defaults of every section, host name `osix-printer`.
    fn default() -> (c: Self)
        ensures
            c.wifi.mode == WifiMode::Station,
            c.wifi.ssid@ == Seq::<char>::empty(),
            c.wifi.password@ == Seq::<char>::empty(),
            c.wifi.auto_reconnect,
            c.wifi.max_connect_attempts == 5,
            c.http == (HttpApiConfig { enabled: true, port: 80, max_connections: 4 }),
            c.websocket == (WebSocketConfig { enabled: true, port: 81, telemetry_interval_ms: 250 }),
            c.ota == (OtaConfig { enabled: true, require_signed_image: true }),
            c.hostname@ == "osix-printer"@,
    {
        NetworkConfig {
            wifi: WifiConfig::default(),
            http: HttpApiConfig::default(),
            websocket: WebSocketConfig::default(),
            ota: OtaConfig::default(),
            hostname: String::from_str("osix-printer"),
        }
    }
}

} // verus!
