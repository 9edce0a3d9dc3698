use osix_firmware::scheduler::TaskPriority;
use osix_firmware::system::{MemoryStats, ResetReason};
use std::time::Duration;

#[test]
fn is_internal_memory_low_compares_against_threshold() {
    let stats = MemoryStats {
        free_heap_bytes: 100_000,
        minimum_free_heap_bytes: 50_000,
        free_internal_bytes: 8_000,
        free_psram_bytes: 4_000_000,
    };
    assert!(stats.is_internal_memory_low(10_000));
    assert!(!stats.is_internal_memory_low(4_000));
}

#[test]
fn abnormal_reasons_are_flagged_correctly() {
    assert!(ResetReason::Panic.is_abnormal());
    assert!(ResetReason::TaskWatchdog.is_abnormal());
    assert!(ResetReason::BrownOut.is_abnormal());
    assert!(!ResetReason::PowerOn.is_abnormal());
    assert!(!ResetReason::Software.is_abnormal());
}

#[test]
fn display_produces_non_empty_human_readable_text() {
    for reason in [
        ResetReason::PowerOn,
        ResetReason::ExternalPin,
        ResetReason::Software,
        ResetReason::Panic,
        ResetReason::InterruptWatchdog,
        ResetReason::TaskWatchdog,
        ResetReason::OtherWatchdog,
        ResetReason::DeepSleep,
        ResetReason::BrownOut,
        ResetReason::Sdio,
        ResetReason::Usb,
        ResetReason::Unknown,
    ] {
        assert!(!reason.to_string().is_empty());
    }
}

#[test]
fn reset_descriptions() {
    assert_eq!(ResetReason::TaskWatchdog.description(), "Task Watchdog Timer");
    assert_eq!(ResetReason::PowerOn.to_string(), "включение питания");
    assert!(ResetReason::InterruptWatchdog.is_abnormal());
    assert!(ResetReason::OtherWatchdog.is_abnormal());
    assert!(!ResetReason::Usb.is_abnormal());
}

#[test]
fn duration_conversion_is_exact_for_whole_milliseconds() {
    assert_eq!(Duration::from_millis(250).as_millis(), 250);
    assert_eq!(Duration::from_secs(20).as_millis(), 20_000);
}

#[test]
fn task_priorities_are_ordered() {
    assert_eq!(TaskPriority::StepGenerator.to_freertos_priority(), 20);
    assert_eq!(TaskPriority::Temperature.to_freertos_priority(), 15);
    assert_eq!(TaskPriority::GCode.to_freertos_priority(), 10);
    assert_eq!(TaskPriority::Network.to_freertos_priority(), 5);
}
