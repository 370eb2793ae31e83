//! The static task set and the shared-resource discipline.
//!
//! The firmware runs a fixed set of tasks, each at a static priority on one
//! core: a task preempts only tasks of strictly lower priority, so handlers
//! at one level are mutually exclusive by construction. A resource touched
//! at a single level therefore needs no lock. A resource touched at several
//! levels is accessed inside a priority-ceiling critical section: the
//! accessor runs at the highest priority that ever touches the resource,
//! which no other toucher can preempt.

use vstd::prelude::*;

verus! {

/// The fixed task set; nothing is created or torn down at run time.
#[derive(Copy, Clone, PartialEq, Eq, Structural, Debug)]
pub enum TaskName {
    /// Line-protocol clock edges and bus chip-select edges.
    LineEdge,
    /// A byte received on the host bus.
    BusByte,
    /// A byte received on the debug serial link.
    SerialByte,
    /// The periodic LED blink.
    LedBlink,
    /// The periodic button poll.
    ButtonPoll,
    /// The delayed release of a reset pulse.
    ExitReset,
    /// The background loop draining the word queue.
    Idle,
}

/// The resources the tasks touch.
#[derive(Copy, Clone, PartialEq, Eq, Structural, Debug)]
pub enum ResourceName {
    /// The power LED output.
    PowerLed,
    /// The debug serial link.
    DebugSerial,
    /// The power and reset button inputs.
    Buttons,
    /// The current power state.
    PowerState,
    /// The DC-enable output.
    DcEnable,
    /// The system-reset output.
    SysReset,
    /// The line-protocol clock and data inputs.
    LineInput,
    /// The bus peripheral itself.
    BusDevice,
    /// The read-only register space.
    RegisterSpace,
    /// The producer end of the word queue.
    QueueProducerEnd,
    /// The consumer end of the word queue.
    QueueConsumerEnd,
}

/// The static priority of each task. The line decoder must not miss a
/// clock edge and outranks everything; the background loop runs only when
/// nothing else does.
pub open spec fn priority(task: TaskName) -> int {
    match task {
        TaskName::LineEdge => 4,
        TaskName::BusByte => 1,
        TaskName::SerialByte => 1,
        TaskName::LedBlink => 1,
        TaskName::ButtonPoll => 1,
        TaskName::ExitReset => 1,
        TaskName::Idle => 0,
    }
}

/// The declared resource set of each task.
pub open spec fn touches(task: TaskName, resource: ResourceName) -> bool {
    match task {
        TaskName::LineEdge => resource == ResourceName::LineInput || resource
            == ResourceName::BusDevice || resource == ResourceName::QueueProducerEnd,
        TaskName::BusByte => resource == ResourceName::BusDevice || resource
            == ResourceName::RegisterSpace,
        TaskName::SerialByte => resource == ResourceName::DebugSerial,
        TaskName::LedBlink => resource == ResourceName::PowerLed || resource
            == ResourceName::PowerState,
        TaskName::ButtonPoll => resource == ResourceName::PowerLed || resource
            == ResourceName::Buttons || resource == ResourceName::PowerState || resource
            == ResourceName::DcEnable || resource == ResourceName::SysReset,
        TaskName::ExitReset => resource == ResourceName::SysReset || resource
            == ResourceName::PowerState,
        TaskName::Idle => resource == ResourceName::QueueConsumerEnd,
    }
}

/// The priority ceiling of a resource: the highest priority that ever
/// touches it.
pub open spec fn ceiling(resource: ResourceName) -> int {
    match resource {
        ResourceName::LineInput => 4,
        ResourceName::BusDevice => 4,
        ResourceName::QueueProducerEnd => 4,
        ResourceName::QueueConsumerEnd => 0,
        _ => 1,
    }
}

/// Whether a resource is touched from more than one priority level — the
/// only case that needs a priority-ceiling critical section.
pub open spec fn crosses_levels(resource: ResourceName) -> bool {
    exists|a: TaskName, b: TaskName|
        touches(a, resource) && touches(b, resource) && priority(a) != priority(b)
}

/// Whether an access to the resource must raise to its ceiling. Of the
/// whole resource set, only the bus peripheral is shared across levels:
/// the chip-select edge handler arms and disarms it over the head of the
/// byte handler. The queue ends cross levels too, but each end is owned by
/// exactly one task, which is why the queue itself carries no lock.
pub fn needs_ceiling_section(resource: ResourceName) -> (needed: bool)
    ensures
        needed == crosses_levels(resource),
{
    match resource {
        ResourceName::BusDevice => {
            proof {
                assert(touches(TaskName::LineEdge, ResourceName::BusDevice) && touches(
                    TaskName::BusByte,
                    ResourceName::BusDevice,
                ) && priority(TaskName::LineEdge) != priority(TaskName::BusByte));
            }
            true
        },
        _ => {
            proof {
                assert forall|a: TaskName, b: TaskName|
                    touches(a, resource) && touches(b, resource) implies priority(a) == priority(
                    b,
                ) by {}
            }
            false
        },
    }
}

/// The ceiling covers every toucher: no task that touches a resource
/// outranks the resource's ceiling.
pub proof fn lemma_ceiling_covers(task: TaskName, resource: ResourceName)
    requires
        touches(task, resource),
    ensures
        priority(task) <= ceiling(resource),
{
}

/// The priority-ceiling exclusion law: a critical section run at or above
/// a resource's ceiling cannot be preempted by any task touching that
/// resource — preemption needs strictly higher priority, and no toucher
/// has it. Together with single-core execution this makes every
/// ceiling-raised access exclusive, with no blocking lock.
pub proof fn lemma_ceiling_section_exclusive(
    task: TaskName,
    resource: ResourceName,
    level: int,
)
    requires
        touches(task, resource),
        level >= ceiling(resource),
    ensures
        !(priority(task) > level),
{
    lemma_ceiling_covers(task, resource);
}

/// Single-level resources need no lock at all: every pair of tasks
/// touching such a resource runs at one priority, and tasks at one
/// priority on one core never preempt each other.
pub proof fn lemma_single_level_exclusive(
    a: TaskName,
    b: TaskName,
    resource: ResourceName,
)
    requires
        !crosses_levels(resource),
        touches(a, resource),
        touches(b, resource),
    ensures
        priority(a) == priority(b),
        !(priority(a) > priority(b)),
{
}

} // verus!
