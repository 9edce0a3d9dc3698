//! Network subsystem: Wi-Fi ([`wifi`]), WebSocket telemetry
//! ([`websocket`]) and the update policy of over-the-air firmware updates
//! (this file).
pub mod websocket;
pub mod wifi;

use crate::config::network::OtaConfig;
use crate::error::AppError;
use crate::printer_state::FIRMWARE_VERSION;
use crate::text::push_str;
use vstd::prelude::*;

verus! {

/// Reason an update is refused when updates are disabled.
pub open spec fn ota_disabled_text() -> Seq<char> {
    "OTA-обновления отключены в конфигурации"@
}

/// Reason an update is refused when the configuration asks for an image
/// signature check, which this firmware does not perform: a security
/// setting is never silently ignored.
pub open spec fn ota_unsigned_text() -> Seq<char> {
    "конфигурация требует проверки подписи образа (require_signed_image), но эта проверка ещё не реализована — обновление отклонено из соображений безопасности"@
}

/// Over-the-air update policy of the running firmware.
///
/// Receiving the image and writing it to the inactive OTA partition is
/// done by the caller once [`OtaUpdater::begin_update`] allows it.
#[derive(Debug, Clone, Copy)]
pub struct OtaUpdater {
    config: OtaConfig,
}

impl OtaUpdater {
    /// The configuration the updater follows.
    pub closed spec fn spec_config(self) -> OtaConfig {
        self.config
    }

    /// An updater following `config` (`network.toml`, section `ota`).
    pub fn new(config: OtaConfig) -> (u: Self)
        ensures
            u.spec_config() == config,
    {
        OtaUpdater { config }
    }

    /// Whether updates are allowed by the configuration.
    pub fn is_enabled(&self) -> (b: bool)
        ensures
            b == self.spec_config().enabled,
    {
        self.config.enabled
    }

    /// Decides whether an update may begin: refused when updates are
    /// disabled, or when a signature check is required (it is not
    /// implemented); otherwise the caller opens the OTA partition.
    pub fn begin_update(&self) -> (r: Result<(), AppError>)
        ensures
            !self.spec_config().enabled ==> (r matches Err(AppError::Network(m)) && m@
                == ota_disabled_text()),
            self.spec_config().enabled && self.spec_config().require_signed_image ==> (r matches Err(
                AppError::Network(m),
            ) && m@ == ota_unsigned_text()),
            self.spec_config().enabled && !self.spec_config().require_signed_image ==> r is Ok,
    {
        if !self.config.enabled {
            return Err(AppError::Network(String::from_str("OTA-обновления отключены в конфигурации")));
        }
        if self.config.require_signed_image {
            return Err(
                AppError::Network(
                    String::from_str(
                        "конфигурация требует проверки подписи образа (require_signed_image), но эта проверка ещё не реализована — обновление отклонено из соображений безопасности",
                    ),
                ),
            );
        }
        Ok(())
    }
}

/// Description of the running firmware: its version and the label of the
/// OTA partition it runs from.
pub open spec fn running_firmware_text(slot_label: Seq<char>) -> Seq<char> {
    FIRMWARE_VERSION@ + " (раздел "@ + slot_label + ")"@
}

/// Describes the running firmware, given the label of the running OTA
/// partition (`ota_0` or `ota_1`).
pub fn running_firmware_info(slot_label: &str) -> (s: String)
    ensures
        s@ == running_firmware_text(slot_label@),
{
    let mut s = String::new();
    push_str(&mut s, FIRMWARE_VERSION);
    push_str(&mut s, " (раздел ");
    push_str(&mut s, slot_label);
    push_str(&mut s, ")");
    s
}

} // verus!
