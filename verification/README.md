# OSIX firmware

Firmware for the OSIX 3D-printer controller (ESP32-S3 N16R8): G-code over
USB, TMC2209 and ULN2003 stepper drivers, endstops, homing, SD-card
printing, Wi-Fi telemetry and OTA updates.

## Layout

- `src/` — the verified library `osix_firmware` (Verus). It holds the
  logic of the firmware with its contracts and laws: the G-code parser and
  command selection, TMC2209 register images, UART framing and CRC, the
  ULN2003 phase sequencer, axis bookkeeping, the Bresenham step
  interpolator, the motion queue, homing, endstops, power and emergency
  stop, the WS2812 frame, telemetry rate limiting, the OTA and Wi-Fi
  policies, the print-job state machine, G-code file listing, settings file
  names, and the texts the firmware reports.
- `app/` — the firmware binary around the library: ESP-IDF peripherals,
  file systems, networking, serde/TOML configuration, and the
  floating-point parts (kinematics, look-ahead planning, speed profiles,
  current scaling), which the library does not hold.
- `tests/` — tests of the library.
