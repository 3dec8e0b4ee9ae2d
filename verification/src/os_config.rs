//! Scheduler configuration: stack geometry, task limits, tick cadence and
//! the task control block.
//!
//! The constants describe one contiguous SRAM region.  Task stacks are
//! carved from its top in descending order: task `i` grows downward from
//! `task_stack_start(i)`, and the scheduler's own (main) stack grows
//! downward from `scheduler_stack_start()`, which lies below every task
//! stack.

use vstd::prelude::*;

verus! {

/// Kernel tick period in milliseconds.
pub const KERNEL_TICK_PERIOD_MS: u32 = 1;

/// Number of tasks in the fixed task table; task 0 is the idle task.
pub const MAX_TASK: usize = 4;

/// Size of each task's private stack in bytes (a multiple of 8).
pub const SIZE_TASK_STACK: u32 = 1024;

/// Size of the scheduler (main-stack) region in bytes.
pub const SIZE_SCHEDULER_STACK: u32 = 1024;

/// SRAM base address.
pub const SRAM_START: u32 = 0x2000_0000;

/// SRAM size in bytes.
pub const SRAM_SIZE: u32 = 128 * 1024;

/// One past the last SRAM address.
pub const SRAM_END: u32 = SRAM_START + SRAM_SIZE;

/// Task state: runnable.
pub const TASK_READY_STATE: u8 = 0x00;

/// Task state: not runnable; only the idle task is guaranteed never to
/// hold this state.
pub const TASK_BLOCKED_STATE: u8 = 0xFF;

/// Initial xPSR word for a synthetic exception frame: only the Thumb bit
/// is set, as the architecture requires.
pub const DUMMY_XPSR: u32 = 0x0100_0000;

/// Task Control Block: one per task, indexed by task id.
///
/// `task_handler` carries the entry address of the task body, the word
/// the stack initializer places in the frame's program-counter slot.
#[derive(Clone, Copy, PartialEq, Eq, Structural)]
pub struct Tcb {
    /// Saved process-stack pointer: top of the task's last-saved context.
    pub psp_value: u32,
    /// Lower numeric value means higher priority.
    pub priority: u8,
    /// `TASK_READY_STATE` or `TASK_BLOCKED_STATE`.
    pub current_state: u8,
    /// Tick at which a blocked task wakes; reserved for a sleep extension.
    pub block_count: u8,
    /// Entry address of the task body.
    pub task_handler: u32,
}

/// Top of task `i`'s stack (one past its highest word); the stack grows
/// downward from here.
pub fn task_stack_start(i: usize) -> (top: u32)
    requires
        i < MAX_TASK,
    ensures
        top == SRAM_END - i * SIZE_TASK_STACK,
{
    SRAM_END - (i as u32) * SIZE_TASK_STACK
}

/// Top of the scheduler's main stack, directly below the task stacks.
pub fn scheduler_stack_start() -> (top: u32)
    ensures
        top == SRAM_END - MAX_TASK * SIZE_TASK_STACK,
{
    SRAM_END - (MAX_TASK as u32) * SIZE_TASK_STACK
}

} // verus!
