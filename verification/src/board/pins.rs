//! Pin assignment of the OSIX board (ESP32-S3 N16R8).
//!
//! Every GPIO number lives here so that a new board or wiring needs no
//! change in the driver logic, which receives configured peripherals.
use vstd::prelude::*;

verus! {

/// A GPIO number (`0..=48` on the ESP32-S3, some reserved for flash/PSRAM).
pub type GpioNum = u8;

/// Pins of the X axis (NEMA17 on a TMC2209: STEP/DIR and UART).
#[derive(Debug, Clone, Copy, PartialEq, Eq, Structural)]
pub struct AxisXPins {
    /// STEP pin.
    pub step: GpioNum,
    /// DIR pin.
    pub dir: GpioNum,
    /// ENABLE pin (active low).
    pub enable: GpioNum,
    /// Endstop input.
    pub endstop: GpioNum,
}

/// Pins of the Y axis (NEMA17 on a TMC2209: STEP/DIR and UART).
#[derive(Debug, Clone, Copy, PartialEq, Eq, Structural)]
pub struct AxisYPins {
    /// STEP pin.
    pub step: GpioNum,
    /// DIR pin.
    pub dir: GpioNum,
    /// ENABLE pin (active low).
    pub enable: GpioNum,
    /// Endstop input.
    pub endstop: GpioNum,
}

/// Pins of the Z axis (28BYJ-48 on a ULN2003: four coil inputs).
#[derive(Debug, Clone, Copy, PartialEq, Eq, Structural)]
pub struct AxisZPins {
    /// Coil A (ULN2003 `IN1`).
    pub in1: GpioNum,
    /// Coil B (ULN2003 `IN2`).
    pub in2: GpioNum,
    /// Coil C (ULN2003 `IN3`).
    pub in3: GpioNum,
    /// Coil D (ULN2003 `IN4`).
    pub in4: GpioNum,
    /// Endstop input.
    pub endstop: GpioNum,
}

/// UART pins of the two TMC2209 drivers (one hardware UART each).
#[derive(Debug, Clone, Copy, PartialEq, Eq, Structural)]
pub struct TmcUartPins {
    /// TX of the X driver (UART1).
    pub x_tx: GpioNum,
    /// RX of the X driver (UART1).
    pub x_rx: GpioNum,
    /// TX of the Y driver (UART2).
    pub y_tx: GpioNum,
    /// RX of the Y driver (UART2).
    pub y_rx: GpioNum,
}

/// Power, status and emergency stop pins.
#[derive(Debug, Clone, Copy, PartialEq, Eq, Structural)]
pub struct SystemPins {
    /// Power supply relay/MOSFET control (PS_ON).
    pub psu_enable: GpioNum,
    /// WS2812 status LED data line (RMT).
    pub status_rgb: GpioNum,
    /// Emergency stop button, active low.
    pub emergency_stop: GpioNum,
}

/// SPI pins of the memory card.
#[derive(Debug, Clone, Copy, PartialEq, Eq, Structural)]
pub struct SdCardPins {
    /// SPI MOSI.
    pub mosi: GpioNum,
    /// SPI MISO.
    pub miso: GpioNum,
    /// SPI SCLK.
    pub sclk: GpioNum,
    /// SPI chip select.
    pub cs: GpioNum,
    /// Card detect input.
    pub card_detect: GpioNum,
}

/// Thermistor ADC channels and heater/fan PWM pins.
#[derive(Debug, Clone, Copy, PartialEq, Eq, Structural)]
pub struct TemperaturePins {
    /// ADC1 channel of the hotend thermistor (`GPIO2` is `ADC1_CH1`).
    pub hotend_thermistor_adc_channel: u8,
    /// ADC1 channel of the bed thermistor (`GPIO3` is `ADC1_CH2`).
    pub bed_thermistor_adc_channel: u8,
    /// Hotend heater PWM pin (through a MOSFET).
    pub hotend_heater_pwm: GpioNum,
    /// Bed heater PWM pin (through a MOSFET).
    pub bed_heater_pwm: GpioNum,
    /// Part cooling fan PWM pin.
    pub part_fan_pwm: GpioNum,
}

/// The complete pin map of the board.
#[derive(Debug, Clone, Copy, PartialEq, Eq, Structural)]
pub struct PinMap {
    /// Pins of the X axis.
    pub axis_x: AxisXPins,
    /// Pins of the Y axis.
    pub axis_y: AxisYPins,
    /// Pins of the Z axis.
    pub axis_z: AxisZPins,
    /// UART pins of the TMC2209 drivers.
    pub tmc_uart: TmcUartPins,
    /// Power, status LED and emergency stop.
    pub system: SystemPins,
    /// Memory card pins.
    pub sd_card: SdCardPins,
    /// Temperature subsystem pins.
    pub temperature: TemperaturePins,
}

/// Pin map of the reference OSIX rev.1 board.
pub open spec fn default_pin_map() -> PinMap {
    PinMap {
        axis_x: AxisXPins { step: 4, dir: 5, enable: 6, endstop: 7 },
        axis_y: AxisYPins { step: 15, dir: 16, enable: 17, endstop: 18 },
        axis_z: AxisZPins { in1: 8, in2: 9, in3: 10, in4: 11, endstop: 12 },
        tmc_uart: TmcUartPins { x_tx: 13, x_rx: 14, y_tx: 21, y_rx: 47 },
        system: SystemPins { psu_enable: 38, status_rgb: 48, emergency_stop: 1 },
        sd_card: SdCardPins { mosi: 35, miso: 37, sclk: 36, cs: 34, card_detect: 33 },
        temperature: TemperaturePins { hotend_thermistor_adc_channel: 1, bed_thermistor_adc_channel: 2, hotend_heater_pwm: 39, bed_heater_pwm: 40, part_fan_pwm: 41 },
    }
}

impl Default for PinMap {
    /// The pin map of the reference OSIX rev.1 board.
    fn default() -> (p: Self)
        ensures
            p == default_pin_map(),
    {
        PinMap {
            axis_x: AxisXPins { step: 4, dir: 5, enable: 6, endstop: 7 },
            axis_y: AxisYPins { step: 15, dir: 16, enable: 17, endstop: 18 },
            axis_z: AxisZPins { in1: 8, in2: 9, in3: 10, in4: 11, endstop: 12 },
            tmc_uart: TmcUartPins { x_tx: 13, x_rx: 14, y_tx: 21, y_rx: 47 },
            system: SystemPins { psu_enable: 38, status_rgb: 48, emergency_stop: 1 },
            sd_card: SdCardPins { mosi: 35, miso: 37, sclk: 36, cs: 34, card_detect: 33 },
            temperature: TemperaturePins { hotend_thermistor_adc_channel: 1, bed_thermistor_adc_channel: 2, hotend_heater_pwm: 39, bed_heater_pwm: 40, part_fan_pwm: 41 },
        }
    }
}

/// Every GPIO the pin map drives or reads (ADC channels excluded).
pub open spec fn gpio_pins(p: PinMap) -> Seq<GpioNum> {
    seq![
        p.axis_x.step,
        p.axis_x.dir,
        p.axis_x.enable,
        p.axis_x.endstop,
        p.axis_y.step,
        p.axis_y.dir,
        p.axis_y.enable,
        p.axis_y.endstop,
        p.axis_z.in1,
        p.axis_z.in2,
        p.axis_z.in3,
        p.axis_z.in4,
        p.axis_z.endstop,
        p.tmc_uart.x_tx,
        p.tmc_uart.x_rx,
        p.tmc_uart.y_tx,
        p.tmc_uart.y_rx,
        p.system.psu_enable,
        p.system.status_rgb,
        p.system.emergency_stop,
        p.sd_card.mosi,
        p.sd_card.miso,
        p.sd_card.sclk,
        p.sd_card.cs,
        p.sd_card.card_detect,
        p.temperature.hotend_heater_pwm,
        p.temperature.bed_heater_pwm,
        p.temperature.part_fan_pwm,
    ]
}

/// Whether a GPIO exists on the ESP32-S3 and is free for the board: at
/// most `48`, and outside `26..=32`, which the N16R8 module uses for its
/// flash and PSRAM.
pub open spec fn usable_gpio(g: GpioNum) -> bool {
    g <= 48 && !(26 <= g <= 32)
}

/// Wiring law of the reference board: every pin is a usable GPIO and no
/// GPIO serves two functions.
pub proof fn lemma_default_pins_usable_and_distinct()
    ensures
        forall|i: int|
            0 <= i < gpio_pins(default_pin_map()).len() ==> usable_gpio(
                #[trigger] gpio_pins(default_pin_map())[i],
            ),
        forall|i: int, j: int|
            0 <= i < j < gpio_pins(default_pin_map()).len() ==> gpio_pins(default_pin_map())[i]
                != gpio_pins(default_pin_map())[j],
{
}

} // verus!
