use osix_firmware::config::network::{
    HttpApiConfig, NetworkConfig, OtaConfig, WebSocketConfig, WifiConfig, WifiMode,
};
use osix_firmware::error::{AppError, AppResult};
use osix_firmware::network::websocket::{TelemetryBroadcaster, TelemetryChannel};
use osix_firmware::network::wifi::{
    connect_attempts, connect_failure, station_auth, to_heapless32, to_heapless64, try_again, WifiAuth,
    ACCESS_POINT_DEFAULT_PASSWORD,
};
use osix_firmware::network::{running_firmware_info, OtaUpdater};
use std::sync::{Arc, Mutex};

#[derive(Clone)]
struct RecordingChannel {
    messages: Arc<Mutex<Vec<String>>>,
}

impl TelemetryChannel for RecordingChannel {
    // The model of the messages sent exists for proofs only and is never
    // evaluated when the program runs.
    fn sent(&self) -> vstd::seq::Seq<vstd::seq::Seq<char>> {
        vstd::seq::Seq::empty()
    }

    fn broadcast(&mut self, json: &str) -> AppResult<()> {
        self.messages.lock().unwrap().push(json.to_string());
        Ok(())
    }
}

struct FailingChannel;

impl TelemetryChannel for FailingChannel {
    fn sent(&self) -> vstd::seq::Seq<vstd::seq::Seq<char>> {
        vstd::seq::Seq::empty()
    }

    fn broadcast(&mut self, _json: &str) -> AppResult<()> {
        Err(AppError::Network("нет клиентов".to_string()))
    }
}

const SNAPSHOT: &str = "{\"uptime_seconds\":3600}";

#[test]
fn first_call_always_sends() {
    let messages = Arc::new(Mutex::new(Vec::new()));
    let mut broadcaster = TelemetryBroadcaster::new(RecordingChannel { messages: messages.clone() }, 1_000);

    let sent = broadcaster.maybe_send(0, SNAPSHOT).unwrap();
    assert!(sent);
    assert_eq!(messages.lock().unwrap().len(), 1);
}

#[test]
fn rapid_successive_calls_are_rate_limited() {
    let messages = Arc::new(Mutex::new(Vec::new()));
    let mut broadcaster = TelemetryBroadcaster::new(RecordingChannel { messages: messages.clone() }, 60_000);

    broadcaster.maybe_send(5, SNAPSHOT).unwrap();
    let sent_again = broadcaster.maybe_send(6, SNAPSHOT).unwrap();

    assert!(!sent_again, "второй вызов раньше интервала не должен отправлять кадр");
    assert_eq!(messages.lock().unwrap().len(), 1);
}

#[test]
fn force_next_send_bypasses_interval() {
    let messages = Arc::new(Mutex::new(Vec::new()));
    let mut broadcaster = TelemetryBroadcaster::new(RecordingChannel { messages: messages.clone() }, 60_000);

    broadcaster.maybe_send(5, SNAPSHOT).unwrap();
    broadcaster.force_next_send();
    let sent_again = broadcaster.maybe_send(6, SNAPSHOT).unwrap();

    assert!(sent_again);
    assert_eq!(messages.lock().unwrap().len(), 2);
}

#[test]
fn frame_is_due_again_once_interval_elapsed() {
    let messages = Arc::new(Mutex::new(Vec::new()));
    let mut broadcaster = TelemetryBroadcaster::new(RecordingChannel { messages: messages.clone() }, 250);
    assert!(broadcaster.maybe_send(1_000, SNAPSHOT).unwrap());
    assert!(!broadcaster.is_due(1_249));
    assert!(broadcaster.is_due(1_250));
    assert!(!broadcaster.maybe_send(900, SNAPSHOT).unwrap());
    assert!(broadcaster.maybe_send(1_250, SNAPSHOT).unwrap());
    assert_eq!(messages.lock().unwrap().as_slice(), &[SNAPSHOT.to_string(), SNAPSHOT.to_string()]);
}

#[test]
fn channel_error_is_returned_and_not_counted() {
    let mut broadcaster = TelemetryBroadcaster::new(FailingChannel, 250);
    assert!(broadcaster.maybe_send(0, SNAPSHOT).is_err());
    assert!(broadcaster.is_due(1));
}

#[test]
fn ota_policy_follows_configuration() {
    let disabled = OtaUpdater::new(OtaConfig { enabled: false, require_signed_image: false });
    assert!(!disabled.is_enabled());
    match disabled.begin_update() {
        Err(AppError::Network(m)) => assert_eq!(m, "OTA-обновления отключены в конфигурации"),
        other => panic!("unexpected {other:?}"),
    }
    let signed = OtaUpdater::new(OtaConfig::default());
    match signed.begin_update() {
        Err(AppError::Network(m)) => assert!(m.contains("require_signed_image")),
        other => panic!("unexpected {other:?}"),
    }
    let open = OtaUpdater::new(OtaConfig { enabled: true, require_signed_image: false });
    assert!(open.begin_update().is_ok());
    assert_eq!(running_firmware_info("ota_0"), "0.1.0 (раздел ota_0)");
}

#[test]
fn wifi_policy() {
    assert_eq!(station_auth(""), WifiAuth::Open);
    assert_eq!(station_auth("secret"), WifiAuth::Wpa2Personal);
    assert_eq!(connect_attempts(0), 0);
    assert_eq!(connect_attempts(5), 5);
    assert_eq!(ACCESS_POINT_DEFAULT_PASSWORD, "osix-setup");
}

#[test]
fn wifi_retry_decision() {
    assert!(try_again(1, 3, false));
    assert!(try_again(2, 3, false));
    assert!(!try_again(3, 3, false));
    assert!(!try_again(1, 3, true));
    assert!(!try_again(1, 1, false));
}

#[test]
fn wifi_connect_failure_keeps_last_error() {
    match connect_failure(Some(AppError::Network("тайм-аут".to_string()))) {
        AppError::Network(m) => assert_eq!(m, "тайм-аут"),
        other => panic!("unexpected {:?}", other),
    }
    match connect_failure(None) {
        AppError::Network(m) => assert_eq!(m, "не удалось подключиться к Wi-Fi"),
        other => panic!("unexpected {:?}", other),
    }
}

#[test]
fn heapless_conversion_checks_capacity() {
    let ok = to_heapless32("osix", "SSID").unwrap();
    assert_eq!(ok.as_str(), "osix");
    let full = "a".repeat(32);
    assert_eq!(to_heapless32(&full, "SSID").unwrap().as_str(), full);
    match to_heapless32(&"b".repeat(33), "SSID") {
        Err(AppError::Config { key, reason }) => {
            assert_eq!(key, "network.toml");
            assert_eq!(reason, "SSID длиннее 32 символов");
        }
        other => panic!("unexpected {other:?}"),
    }
    // Capacity counts bytes of the UTF-8 encoding: 17 Cyrillic letters are 34 bytes.
    assert!(to_heapless32(&"с".repeat(17), "SSID").is_err());
    assert_eq!(to_heapless32(&"с".repeat(16), "SSID").unwrap().as_str(), "с".repeat(16));
    assert_eq!(to_heapless64("secret-password", "пароль").unwrap().as_str(), "secret-password");
    match to_heapless64(&"p".repeat(65), "пароль") {
        Err(AppError::Config { reason, .. }) => assert_eq!(reason, "пароль длиннее 64 символов"),
        other => panic!("unexpected {other:?}"),
    }
}

#[test]
fn network_defaults() {
    let c = NetworkConfig::default();
    assert_eq!(c.wifi.mode, WifiMode::Station);
    assert_eq!(c.wifi.max_connect_attempts, 5);
    assert!(c.wifi.auto_reconnect);
    assert_eq!(c.http, HttpApiConfig { enabled: true, port: 80, max_connections: 4 });
    assert_eq!(c.websocket, WebSocketConfig { enabled: true, port: 81, telemetry_interval_ms: 250 });
    assert_eq!(c.ota, OtaConfig { enabled: true, require_signed_image: true });
    assert_eq!(c.hostname, "osix-printer");
    assert!(WifiConfig::default().ssid.is_empty());
}
