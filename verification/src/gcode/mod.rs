//! G-code: parser, shared command types and dispatch decisions.
pub mod parser;
pub mod commands;
