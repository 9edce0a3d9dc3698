//! TMC2209 stepper driver: registers, UART framing and diagnostics.
pub mod registers;
pub mod status;
pub mod uart;
pub mod driver;
