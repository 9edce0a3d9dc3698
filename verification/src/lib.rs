//! Verified core logic of the OSIX printer firmware.
pub mod board;
pub mod config;
pub mod drivers;
pub mod endstops;
pub mod text;
pub mod error;
pub mod gcode;
pub mod hal_adapters;
pub mod logger;
pub mod motion;
pub mod network;
pub mod printer_state;
pub mod scheduler;
pub mod sdcard;
pub mod storage;
pub mod system;
pub mod types;
