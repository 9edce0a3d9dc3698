//! System diagnostics: heap statistics and the cause of the last reset.
//!
//! Reading the figures from ESP-IDF is done by the caller.
use vstd::prelude::*;

verus! {

/// Heap figures of the controller.
#[derive(Debug, Clone, Copy, PartialEq, Eq, Structural)]
pub struct MemoryStats {
    /// Free heap (internal SRAM and PSRAM), bytes.
    pub free_heap_bytes: u32,
    /// Lowest free heap since boot, bytes.
    pub minimum_free_heap_bytes: u32,
    /// Free internal SRAM, bytes.
    pub free_internal_bytes: u32,
    /// Free PSRAM, bytes.
    pub free_psram_bytes: u32,
}

impl MemoryStats {
    /// Whether free internal SRAM is below `threshold_bytes`; internal
    /// memory is what DMA buffers and task stacks need.
    pub fn is_internal_memory_low(&self, threshold_bytes: u32) -> (low: bool)
        ensures
            low == (self.free_internal_bytes < threshold_bytes),
    {
        self.free_internal_bytes < threshold_bytes
    }
}

/// Cause of the last reset of the controller.
#[derive(Debug, Clone, Copy, PartialEq, Eq, Structural)]
pub enum ResetReason {
    /// Power-on.
    PowerOn,
    /// External reset pin.
    ExternalPin,
    /// Software restart.
    Software,
    /// Firmware panic.
    Panic,
    /// Interrupt watchdog.
    InterruptWatchdog,
    /// Task watchdog.
    TaskWatchdog,
    /// Another watchdog.
    OtherWatchdog,
    /// Wake-up from deep sleep.
    DeepSleep,
    /// Supply voltage drop (brown-out).
    BrownOut,
    /// SDIO reset.
    Sdio,
    /// USB reset.
    Usb,
    /// Unknown cause.
    Unknown,
}

/// Whether a reset cause points at a fault: a panic, a watchdog or a
/// brown-out.
pub open spec fn abnormal(r: ResetReason) -> bool {
    match r {
        ResetReason::Panic | ResetReason::InterruptWatchdog | ResetReason::TaskWatchdog
        | ResetReason::OtherWatchdog | ResetReason::BrownOut => true,
        _ => false,
    }
}

/// Human-readable text of a reset cause.
pub open spec fn reset_text(r: ResetReason) -> Seq<char> {
    match r {
        ResetReason::PowerOn => "включение питания"@,
        ResetReason::ExternalPin => "внешний сигнал сброса"@,
        ResetReason::Software => "программный перезапуск"@,
        ResetReason::Panic => "паника прошивки"@,
        ResetReason::InterruptWatchdog => "сторожевой таймер прерываний"@,
        ResetReason::TaskWatchdog => "Task Watchdog Timer"@,
        ResetReason::OtherWatchdog => "иной сторожевой таймер"@,
        ResetReason::DeepSleep => "пробуждение из глубокого сна"@,
        ResetReason::BrownOut => "просадка напряжения питания (brown-out)"@,
        ResetReason::Sdio => "сброс SDIO"@,
        ResetReason::Usb => "сброс через USB"@,
        ResetReason::Unknown => "неизвестная причина"@,
    }
}

impl ResetReason {
    /// Whether this cause points at a fault (panic, watchdog, brown-out).
    pub fn is_abnormal(self) -> (b: bool)
        ensures
            b == abnormal(self),
    {
        match self {
            ResetReason::Panic | ResetReason::InterruptWatchdog | ResetReason::TaskWatchdog
            | ResetReason::OtherWatchdog | ResetReason::BrownOut => true,
            _ => false,
        }
    }

    /// Human-readable text of this cause.
    pub fn description(self) -> (s: &'static str)
        ensures
            s@ == reset_text(self),
    {
        match self {
            ResetReason::PowerOn => "включение питания",
            ResetReason::ExternalPin => "внешний сигнал сброса",
            ResetReason::Software => "программный перезапуск",
            ResetReason::Panic => "паника прошивки",
            ResetReason::InterruptWatchdog => "сторожевой таймер прерываний",
            ResetReason::TaskWatchdog => "Task Watchdog Timer",
            ResetReason::OtherWatchdog => "иной сторожевой таймер",
            ResetReason::DeepSleep => "пробуждение из глубокого сна",
            ResetReason::BrownOut => "просадка напряжения питания (brown-out)",
            ResetReason::Sdio => "сброс SDIO",
            ResetReason::Usb => "сброс через USB",
            ResetReason::Unknown => "неизвестная причина",
        }
    }

    /// Human-readable text of this cause, as an owned string.
    pub fn to_string(self) -> (s: String)
        ensures
            s@ == reset_text(self),
    {
        String::from_str(self.description())
    }
}

/// Every reset cause has a non-empty description.
pub proof fn lemma_reset_texts_not_empty(r: ResetReason)
    ensures
        reset_text(r).len() > 0,
{
    reveal_strlit("включение питания");
    reveal_strlit("внешний сигнал сброса");
    reveal_strlit("программный перезапуск");
    reveal_strlit("паника прошивки");
    reveal_strlit("сторожевой таймер прерываний");
    reveal_strlit("Task Watchdog Timer");
    reveal_strlit("иной сторожевой таймер");
    reveal_strlit("пробуждение из глубокого сна");
    reveal_strlit("просадка напряжения питания (brown-out)");
    reveal_strlit("сброс SDIO");
    reveal_strlit("сброс через USB");
    reveal_strlit("неизвестная причина");
}

} // verus!
