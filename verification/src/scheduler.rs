//! FreeRTOS task priorities of the firmware subsystems.
//!
//! Spawning the tasks is done by the caller with these priorities.
use vstd::prelude::*;

verus! {

/// Priority class of a firmware task: the step generator always preempts
/// the less time-critical subsystems.
#[derive(Debug, Clone, Copy, PartialEq, Eq, Structural)]
pub enum TaskPriority {
    /// Step generation: a missed step timing spoils the print geometry.
    StepGenerator,
    /// Temperature control (PID, thermal runaway).
    Temperature,
    /// G-code handling and high-level motion planning.
    GCode,
    /// Network services (HTTP, WebSocket), the least time-critical.
    Network,
}

/// FreeRTOS priority number of a class (`0` is the lowest; ESP-IDF uses
/// `0..=24`).
pub open spec fn freertos_priority(p: TaskPriority) -> u8 {
    match p {
        TaskPriority::StepGenerator => 20,
        TaskPriority::Temperature => 15,
        TaskPriority::GCode => 10,
        TaskPriority::Network => 5,
    }
}

impl TaskPriority {
    /// FreeRTOS priority number of this class.
    pub fn to_freertos_priority(self) -> (p: u8)
        ensures
            p == freertos_priority(self),
    {
        match self {
            TaskPriority::StepGenerator => 20,
            TaskPriority::Temperature => 15,
            TaskPriority::GCode => 10,
            TaskPriority::Network => 5,
        }
    }
}

/// Priority law: step generation outranks temperature control, which
/// outranks G-code handling, which outranks the network; every priority
/// lies in the ESP-IDF range `0..=24`.
pub proof fn lemma_priority_order()
    ensures
        freertos_priority(TaskPriority::StepGenerator) > freertos_priority(TaskPriority::Temperature),
        freertos_priority(TaskPriority::Temperature) > freertos_priority(TaskPriority::GCode),
        freertos_priority(TaskPriority::GCode) > freertos_priority(TaskPriority::Network),
        forall|p: TaskPriority| #[trigger] freertos_priority(p) <= 24,
{
}

} // verus!
