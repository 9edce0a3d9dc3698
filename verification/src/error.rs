//! The single error type shared by every subsystem of the firmware.
use crate::text::{dec_text, push_decimal, push_signed, push_str, signed_text};
use vstd::prelude::*;

verus! {

/// Result type used across the firmware.
pub type AppResult<T> = Result<T, AppError>;

/// Firmware-wide error; each variant names the subsystem it comes from.
#[derive(Debug)]
pub enum AppError {
    /// Board level failure (GPIO, power, watchdog, status LED).
    Board(String),
    /// Low level ESP-IDF driver failure.
    Esp { code: i32, message: String },
    /// Motor driver failure (TMC2209, ULN2003, ...).
    MotorDriver { driver: &'static str, reason: String },
    /// Motion planner failure.
    Motion(String),
    /// G-code parsing or execution failure.
    GCode { line: u32, reason: String },
    /// Temperature subsystem failure.
    Temperature(String),
    /// Memory card failure.
    SdCard(String),
    /// Network failure.
    Network(String),
    /// Configuration read/write/parse failure.
    Config { key: String, reason: String },
    /// Generic input/output failure.
    Io(String),
    /// Hardware did not answer in time or answered garbage.
    HardwareTimeout(String),
}


/// Human-readable text of an error: a prefix naming the subsystem, then
/// the details.
pub open spec fn error_text(e: AppError) -> Seq<char> {
    match e {
        AppError::Board(m) => "ошибка платы: "@ + m@,
        AppError::Esp { code, message } => "ошибка ESP-IDF (код "@ + signed_text(code as int) + "): "@
            + message@,
        AppError::MotorDriver { driver, reason } => "ошибка драйвера двигателя '"@ + driver@ + "': "@
            + reason@,
        AppError::Motion(m) => "ошибка планировщика движения: "@ + m@,
        AppError::GCode { line, reason } => "ошибка G-Code (строка "@ + dec_text(line as nat) + "): "@
            + reason@,
        AppError::Temperature(m) => "ошибка температуры: "@ + m@,
        AppError::SdCard(m) => "ошибка SD-карты: "@ + m@,
        AppError::Network(m) => "ошибка сети: "@ + m@,
        AppError::Config { key, reason } => "ошибка конфигурации '"@ + key@ + "': "@ + reason@,
        AppError::Io(m) => "ошибка ввода-вывода: "@ + m@,
        AppError::HardwareTimeout(m) => "оборудование не отвечает: "@ + m@,
    }
}

impl AppError {
    /// Builds [`AppError::Board`] from a message.
    pub fn board(msg: String) -> (e: Self)
        ensures
            e == AppError::Board(msg),
    {
        AppError::Board(msg)
    }

    /// Builds [`AppError::MotorDriver`] naming the failing driver.
    pub fn motor_driver(driver: &'static str, reason: String) -> (e: Self)
        ensures
            e == (AppError::MotorDriver { driver, reason }),
    {
        AppError::MotorDriver { driver, reason }
    }

    /// Builds [`AppError::Config`] naming the configuration key or file.
    pub fn config(key: String, reason: String) -> (e: Self)
        ensures
            e == (AppError::Config { key, reason }),
    {
        AppError::Config { key, reason }
    }
    /// Human-readable text of the error (what is reported to the host).
    pub fn to_string(&self) -> (s: String)
        ensures
            s@ == error_text(*self),
    {
        let mut s = String::new();
        match self {
            AppError::Board(m) => {
                push_str(&mut s, "ошибка платы: ");
                push_str(&mut s, m.as_str());
            },
            AppError::Esp { code, message } => {
                push_str(&mut s, "ошибка ESP-IDF (код ");
                push_signed(&mut s, *code as i64);
                push_str(&mut s, "): ");
                push_str(&mut s, message.as_str());
            },
            AppError::MotorDriver { driver, reason } => {
                push_str(&mut s, "ошибка драйвера двигателя '");
                push_str(&mut s, driver);
                push_str(&mut s, "': ");
                push_str(&mut s, reason.as_str());
            },
            AppError::Motion(m) => {
                push_str(&mut s, "ошибка планировщика движения: ");
                push_str(&mut s, m.as_str());
            },
            AppError::GCode { line, reason } => {
                push_str(&mut s, "ошибка G-Code (строка ");
                push_decimal(&mut s, *line as u64);
                push_str(&mut s, "): ");
                push_str(&mut s, reason.as_str());
            },
            AppError::Temperature(m) => {
                push_str(&mut s, "ошибка температуры: ");
                push_str(&mut s, m.as_str());
            },
            AppError::SdCard(m) => {
                push_str(&mut s, "ошибка SD-карты: ");
                push_str(&mut s, m.as_str());
            },
            AppError::Network(m) => {
                push_str(&mut s, "ошибка сети: ");
                push_str(&mut s, m.as_str());
            },
            AppError::Config { key, reason } => {
                push_str(&mut s, "ошибка конфигурации '");
                push_str(&mut s, key.as_str());
                push_str(&mut s, "': ");
                push_str(&mut s, reason.as_str());
            },
            AppError::Io(m) => {
                push_str(&mut s, "ошибка ввода-вывода: ");
                push_str(&mut s, m.as_str());
            },
            AppError::HardwareTimeout(m) => {
                push_str(&mut s, "оборудование не отвечает: ");
                push_str(&mut s, m.as_str());
            },
        }
        s
    }
}

} // verus!
