//! Wi-Fi connection policy: authentication, connection attempts and the
//! fixed-capacity strings the ESP-IDF Wi-Fi configuration takes.
//!
//! The radio itself is driven by the caller.
use crate::error::AppError;
use crate::text::{dec_text, push_decimal, push_str};
use vstd::prelude::*;
use vstd::string::StringSliceAdditionalSpecFns;

verus! {

/// Password of the machine's own setup access point: never an open network
/// on a CNC machine, even for the first set-up.
pub const ACCESS_POINT_DEFAULT_PASSWORD: &'static str = "osix-setup";

/// Longest SSID the ESP-IDF configuration holds, bytes.
pub const SSID_CAPACITY: usize = 32;

/// Longest password the ESP-IDF configuration holds, bytes.
pub const PASSWORD_CAPACITY: usize = 64;

/// Authentication used to join a network.
#[derive(Debug, Clone, Copy, PartialEq, Eq, Structural)]
pub enum WifiAuth {
    /// Open network.
    Open,
    /// WPA2 with a pre-shared key.
    Wpa2Personal,
}

/// Authentication for joining a network with `password`: open when the
/// password is empty, WPA2 otherwise.
pub fn station_auth(password: &str) -> (a: WifiAuth)
    ensures
        a == (if password@.len() == 0 {
            WifiAuth::Open
        } else {
            WifiAuth::Wpa2Personal
        }),
{
    if password.unicode_len() == 0 {
        WifiAuth::Open
    } else {
        WifiAuth::Wpa2Personal
    }
}

/// Number of connection attempts for a configured maximum: exactly the
/// maximum, so a maximum of `0` makes no attempt and the connection error
/// is returned at once.
pub fn connect_attempts(max_connect_attempts: u8) -> (n: u8)
    ensures
        n == max_connect_attempts,
{
    max_connect_attempts
}

/// Whether another connection attempt follows attempt number `attempt`
/// (counted from 1) of `attempts`: the first success ends the attempts,
/// and a failure is followed by another attempt only while some are left.
pub fn try_again(attempt: u8, attempts: u8, succeeded: bool) -> (again: bool)
    ensures
        again == (!succeeded && attempt < attempts),
{
    !succeeded && attempt < attempts
}

/// Reason given when no connection attempt was made at all.
pub open spec fn connect_failed_text() -> Seq<char> {
    "не удалось подключиться к Wi-Fi"@
}

/// Error of a connection that did not come up: that of the last attempt,
/// or, when no attempt was made, a network error of its own.
pub fn connect_failure(last_error: Option<AppError>) -> (e: AppError)
    ensures
        match last_error {
            Some(last) => e == last,
            None => e matches AppError::Network(m) && m@ == connect_failed_text(),
        },
{
    match last_error {
        Some(last) => last,
        None => AppError::Network(String::from_str("не удалось подключиться к Wi-Fi")),
    }
}

/// `heapless::String<N>`, the fixed-capacity string of the ESP-IDF Wi-Fi
/// configuration, declared so that it can stand in signatures; its
/// contents are opaque here and named by [`heapless32_chars`] and
/// [`heapless64_chars`].
#[verifier::external_type_specification]
#[verifier::external_body]
pub struct ExHeaplessString<const N: usize>(heapless::String<N>);

/// The characters a `heapless::String<32>` holds.
pub uninterp spec fn heapless32_chars(s: heapless::String<32>) -> Seq<char>;

/// The characters a `heapless::String<64>` holds.
pub uninterp spec fn heapless64_chars(s: heapless::String<64>) -> Seq<char>;

/// `heapless::String::<32>::try_from(&str)`: fails exactly when the UTF-8
/// encoding of the text is longer than 32 bytes; otherwise the string holds
/// the text (`push_str` copies every byte with `extend_from_slice`).
#[verifier::external_body]
fn heapless32_try_from(value: &str) -> (r: Result<heapless::String<32>, ()>)
    ensures
        r is Ok <==> value.spec_bytes().len() <= 32,
        r matches Ok(s) ==> heapless32_chars(s) == value@,
{
    heapless::String::<32>::try_from(value)
}

/// `heapless::String::<64>::try_from(&str)`: fails exactly when the UTF-8
/// encoding of the text is longer than 64 bytes; otherwise the string holds
/// the text (`push_str` copies every byte with `extend_from_slice`).
#[verifier::external_body]
fn heapless64_try_from(value: &str) -> (r: Result<heapless::String<64>, ()>)
    ensures
        r is Ok <==> value.spec_bytes().len() <= 64,
        r matches Ok(s) ==> heapless64_chars(s) == value@,
{
    heapless::String::<64>::try_from(value)
}

/// Reason a text is refused for a field of capacity `n` bytes.
pub open spec fn too_long_text(field_name: Seq<char>, n: nat) -> Seq<char> {
    field_name + " длиннее "@ + dec_text(n) + " символов"@
}

/// The configuration error of a text too long for a field of `capacity`
/// bytes.
fn too_long(field_name: &str, capacity: u64) -> (e: AppError)
    ensures
        e matches AppError::Config { key, reason } && key@ == "network.toml"@ && reason@
            == too_long_text(field_name@, capacity as nat),
{
    let mut reason = String::new();
    push_str(&mut reason, field_name);
    push_str(&mut reason, " длиннее ");
    push_decimal(&mut reason, capacity);
    push_str(&mut reason, " символов");
    AppError::config(String::from_str("network.toml"), reason)
}

/// Copies `value` into the 32-byte string the ESP-IDF Wi-Fi configuration
/// takes for an SSID, refusing a text whose UTF-8 encoding is longer than
/// 32 bytes with a configuration error naming the field.
pub fn to_heapless32(value: &str, field_name: &str) -> (r: Result<heapless::String<32>, AppError>)
    ensures
        r is Ok <==> value.spec_bytes().len() <= 32,
        r matches Ok(s) ==> heapless32_chars(s) == value@,
        r is Err ==> (r matches Err(AppError::Config { key, reason }) && key@ == "network.toml"@
            && reason@ == too_long_text(field_name@, 32)),
{
    match heapless32_try_from(value) {
        Ok(s) => Ok(s),
        Err(()) => Err(too_long(field_name, 32)),
    }
}

/// Copies `value` into the 64-byte string the ESP-IDF Wi-Fi configuration
/// takes for a password, refusing a text whose UTF-8 encoding is longer
/// than 64 bytes with a configuration error naming the field.
pub fn to_heapless64(value: &str, field_name: &str) -> (r: Result<heapless::String<64>, AppError>)
    ensures
        r is Ok <==> value.spec_bytes().len() <= 64,
        r matches Ok(s) ==> heapless64_chars(s) == value@,
        r is Err ==> (r matches Err(AppError::Config { key, reason }) && key@ == "network.toml"@
            && reason@ == too_long_text(field_name@, 64)),
{
    match heapless64_try_from(value) {
        Ok(s) => Ok(s),
        Err(()) => Err(too_long(field_name, 64)),
    }
}

} // verus!
