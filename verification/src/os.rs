//! The kernel core: task table, scheduler policy, tick handling and the
//! context-switch engine.
//!
//! The kernel's whole mutable state lives in one [`Kernel`] value: the
//! task control blocks, the running task's index, the tick counter, the
//! scheduling mode and the words of the SRAM region that carries the
//! task stacks.  The context switch additionally reads and writes the
//! processor state in a [`Cpu`] value and pends itself through the
//! system control block.  On a target, an interrupt vector and a few
//! instructions of assembly move these values into the real registers;
//! everything they move is computed and proved here.

use vstd::prelude::*;
use crate::cortex_m4::{Cpu, Scb};
use crate::os_config::{
    scheduler_stack_start,
    task_stack_start,
    Tcb,
    DUMMY_XPSR,
    KERNEL_TICK_PERIOD_MS,
    MAX_TASK,
    SIZE_TASK_STACK,
    SRAM_END,
    TASK_READY_STATE,
};
use crate::systick::SysTick;

verus! {

/// Core clock frequency the tick source is programmed against.
pub const CORE_CLOCK_MHZ: u32 = 16;

/// The exception-return word placed in a synthetic frame's link-register
/// slot: return to Thread mode, resume on the process stack, no
/// floating-point frame.
pub const EXC_RETURN_THREAD_PSP: u32 = 0xFFFF_FFFD;

/// Number of 32-bit words in the task-stack region.
pub const STACK_REGION_WORDS: usize = 1024;

/// How the scheduler picks the next task.
#[derive(Clone, Copy, PartialEq, Eq, Structural)]
pub enum SchedulerMode {
    RoundRobin,
    Priority,
}

/// The kernel's state: the fixed task table, the index of the running
/// task, the tick counter, the scheduling mode, and the task-stack
/// region of SRAM as one vector of words.
///
/// Word `w` of `stack_words` models the SRAM word at address
/// `scheduler_stack_start() + 4*w`; the region ends at the top of SRAM.
pub struct Kernel {
    pub tasks: Vec<Tcb>,
    pub current: usize,
    pub tick: u32,
    pub mode: SchedulerMode,
    pub stack_words: Vec<u32>,
}

/// Lowest address of the task-stack region (also one past the top of
/// the scheduler's own stack).
pub open spec fn stack_base() -> int {
    SRAM_END as int - MAX_TASK as int * SIZE_TASK_STACK as int
}

/// Lowest address of task `i`'s stack.
pub open spec fn task_region_lo(i: int) -> int {
    SRAM_END as int - (i + 1) * SIZE_TASK_STACK as int
}

/// One past the highest address of task `i`'s stack; the stack grows
/// downward from here.
pub open spec fn task_region_hi(i: int) -> int {
    SRAM_END as int - i * SIZE_TASK_STACK as int
}

/// Index into `stack_words` of the SRAM word at address `addr`.
pub open spec fn word_index(addr: int) -> int {
    (addr - stack_base()) / 4
}

/// Task `i`'s saved stack pointer lies inside task `i`'s own stack, is
/// word-aligned, and leaves room above it for a full 16-word frame.
pub open spec fn tcb_stack_wf(t: Tcb, i: int) -> bool {
    &&& task_region_lo(i) <= t.psp_value
    &&& t.psp_value + 64 <= task_region_hi(i)
    &&& (t.psp_value as int - stack_base()) % 4 == 0
}

/// The kernel's containers have their configured sizes and the running
/// task's index is in range.
pub open spec fn kernel_shape_wf(k: Kernel) -> bool {
    &&& k.tasks@.len() == MAX_TASK
    &&& k.current < MAX_TASK
    &&& k.stack_words@.len() == STACK_REGION_WORDS
}

/// Full well-formedness: the shape holds, every saved stack pointer is
/// inside its own task's stack, and the idle task is ready.
pub open spec fn kernel_wf(k: Kernel) -> bool {
    &&& kernel_shape_wf(k)
    &&& forall|i: int| 0 <= i < MAX_TASK ==> tcb_stack_wf(#[trigger] k.tasks@[i], i)
    &&& k.tasks@[0].current_state == TASK_READY_STATE
}

/// Whether task `i` is runnable.
pub open spec fn task_ready(tasks: Seq<Tcb>, i: int) -> bool {
    tasks[i].current_state == TASK_READY_STATE
}

/// The task index the scheduler looks at `j` steps into its scan, which
/// starts one past `current` and wraps at `n`.
pub open spec fn scan_position(current: int, j: int, n: int) -> int
    recommends
        0 <= current < n,
        0 <= j < n,
{
    if current + 1 + j < n {
        current + 1 + j
    } else {
        current + 1 + j - n
    }
}

/// How many steps into the scan from `current` index `i` appears.
pub open spec fn scan_distance(current: int, i: int, n: int) -> int
    recommends
        0 <= current < n,
        0 <= i < n,
{
    if i > current {
        i - current - 1
    } else {
        i + n - current - 1
    }
}

/// A contender for the priority policy: a ready task that is neither
/// the idle task nor the task the scan starts from.
pub open spec fn is_contender(tasks: Seq<Tcb>, current: int, i: int) -> bool {
    &&& 0 < i < tasks.len()
    &&& i != current
    &&& task_ready(tasks, i)
}

/// What the round-robin policy returns: the first ready task in scan
/// order, and the idle task when nothing at all is ready.
pub open spec fn rr_pick_ok(tasks: Seq<Tcb>, current: int, next: int) -> bool {
    let n = tasks.len() as int;
    &&& 0 <= next < n
    &&& ((forall|i: int| 0 <= i < n ==> !task_ready(tasks, i)) ==> next == 0)
    &&& ((exists|i: int| 0 <= i < n && task_ready(tasks, i)) ==> {
        &&& task_ready(tasks, next)
        &&& forall|i: int|
            0 <= i < n && task_ready(tasks, i) ==> scan_distance(current, next, n)
                <= scan_distance(current, i, n)
    })
}

/// What the priority policy returns: among the contenders, the one with
/// the lowest priority value, ties broken in favour of the first in
/// scan order; the idle task when there is no contender.
pub open spec fn priority_pick_ok(tasks: Seq<Tcb>, current: int, next: int) -> bool {
    let n = tasks.len() as int;
    &&& 0 <= next < n
    &&& ((forall|i: int| !is_contender(tasks, current, i)) ==> next == 0)
    &&& ((exists|i: int| is_contender(tasks, current, i)) ==> {
        &&& is_contender(tasks, current, next)
        &&& forall|i: int|
            is_contender(tasks, current, i) ==> tasks[next].priority <= tasks[i].priority
        &&& forall|i: int|
            is_contender(tasks, current, i) && tasks[i].priority == tasks[next].priority
                ==> scan_distance(current, next, n) <= scan_distance(current, i, n)
    })
}

/// What `pick_next` returns under either policy.
pub open spec fn pick_ok(tasks: Seq<Tcb>, current: int, mode: SchedulerMode, next: int) -> bool {
    match mode {
        SchedulerMode::RoundRobin => rr_pick_ok(tasks, current, next),
        SchedulerMode::Priority => priority_pick_ok(tasks, current, next),
    }
}

/// The scan step and the scan distance invert one another.
proof fn lemma_scan_roundtrip(current: int, i: int, n: int)
    requires
        0 <= current < n,
        0 <= i < n,
    ensures
        0 <= scan_distance(current, i, n) < n,
        scan_position(current, scan_distance(current, i, n), n) == i,
        i != current ==> scan_distance(current, i, n) < n - 1,
        i == current ==> scan_distance(current, i, n) == n - 1,
{
}

/// The scan distance of the position reached `j` steps in is `j`.
proof fn lemma_scan_inverse(current: int, j: int, n: int)
    requires
        0 <= current < n,
        0 <= j < n,
    ensures
        0 <= scan_position(current, j, n) < n,
        scan_distance(current, scan_position(current, j, n), n) == j,
{
}

/// The word a freshly initialized frame holds at word offset `j` above
/// the frame's base: the idle program-status word with the Thumb bit at
/// the top, the task's entry address below it, the exception-return
/// word below that, and zeroes for the eight general and four scratch
/// registers.
pub open spec fn initial_frame_word(j: int, entry: u32) -> u32 {
    if j == 15 {
        DUMMY_XPSR
    } else if j == 14 {
        entry
    } else if j == 13 {
        EXC_RETURN_THREAD_PSP
    } else {
        0u32
    }
}

/// Index into the stack-word vector of the base of task `i`'s initial
/// frame: 16 words below the task's stack top.
pub open spec fn frame_base_index(i: int) -> int {
    word_index(task_region_hi(i) - 64)
}

/// Stores `value` at SRAM address `addr` inside the task-stack region.
fn write_stack_word(stack_words: &mut Vec<u32>, addr: u32, value: u32)
    requires
        old(stack_words)@.len() == STACK_REGION_WORDS,
        stack_base() <= addr,
        addr + 4 <= SRAM_END,
        (addr as int - stack_base()) % 4 == 0,
    ensures
        final(stack_words)@ == old(stack_words)@.update(word_index(addr as int), value),
{
    let base: u32 = scheduler_stack_start();
    let index: usize = ((addr - base) / 4) as usize;
    stack_words[index] = value;
}

/// Loads the word at SRAM address `addr` inside the task-stack region.
fn read_stack_word(stack_words: &Vec<u32>, addr: u32) -> (value: u32)
    requires
        stack_words@.len() == STACK_REGION_WORDS,
        stack_base() <= addr,
        addr + 4 <= SRAM_END,
        (addr as int - stack_base()) % 4 == 0,
    ensures
        value == stack_words@[word_index(addr as int)],
{
    let base: u32 = scheduler_stack_start();
    let index: usize = ((addr - base) / 4) as usize;
    stack_words[index]
}

impl Kernel {
    /// A kernel whose table holds one ready task per entry-address and
    /// priority pair, with the tick at zero, task 0 current, and the
    /// stack region cleared.  The stacks themselves are not yet laid
    /// out: that is `init_task_stack`'s job.
    pub fn new(entries: &Vec<u32>, priorities: &Vec<u8>, mode: SchedulerMode) -> (kernel: Kernel)
        requires
            entries@.len() == MAX_TASK,
            priorities@.len() == MAX_TASK,
        ensures
            kernel_shape_wf(kernel),
            kernel.current == 0,
            kernel.tick == 0,
            kernel.mode == mode,
            forall|i: int|
                0 <= i < MAX_TASK ==> #[trigger] kernel.tasks@[i] == (Tcb {
                    psp_value: 0u32,
                    priority: priorities@[i],
                    current_state: TASK_READY_STATE,
                    block_count: 0u8,
                    task_handler: entries@[i],
                }),
            forall|w: int| 0 <= w < STACK_REGION_WORDS ==> kernel.stack_words@[w] == 0u32,
    {
        let mut tasks: Vec<Tcb> = Vec::new();
        let mut i: usize = 0;
        while i < MAX_TASK
            invariant
                i <= MAX_TASK,
                entries@.len() == MAX_TASK,
                priorities@.len() == MAX_TASK,
                tasks@.len() == i,
                forall|l: int|
                    0 <= l < i ==> #[trigger] tasks@[l] == (Tcb {
                        psp_value: 0u32,
                        priority: priorities@[l],
                        current_state: TASK_READY_STATE,
                        block_count: 0u8,
                        task_handler: entries@[l],
                    }),
            decreases MAX_TASK - i,
        {
            tasks.push(
                Tcb {
                    psp_value: 0,
                    priority: priorities[i],
                    current_state: TASK_READY_STATE,
                    block_count: 0,
                    task_handler: entries[i],
                },
            );
            i += 1;
        }
        let mut stack_words: Vec<u32> = Vec::new();
        let mut w: usize = 0;
        while w < STACK_REGION_WORDS
            invariant
                w <= STACK_REGION_WORDS,
                stack_words@.len() == w,
                forall|l: int| 0 <= l < w ==> stack_words@[l] == 0u32,
            decreases STACK_REGION_WORDS - w,
        {
            stack_words.push(0);
            w += 1;
        }
        Kernel { tasks, current: 0, tick: 0, mode, stack_words }
    }
}

/// Whether stack-word index `w` lies inside some task's initial
/// 16-word frame.
pub open spec fn in_initial_frame(w: int) -> bool {
    exists|i: int|
        0 <= i < MAX_TASK && #[trigger] frame_base_index(i) <= w < frame_base_index(i) + 16
}

/// Lays out every task's private stack as if the task had just been
/// preempted: writes the 16-word synthetic frame at the top of each
/// task's stack and records the frame's base as the task's saved stack
/// pointer.  After this, the standard exception-return sequence can
/// launch any task.
///
/// For each task `i`, reading the initialized region back gives: the
/// idle program-status word at `psp_value + 60`, the task's entry
/// address at `psp_value + 56`, the exception-return word at
/// `psp_value + 52`, and zero at every lower word down to `psp_value`.
pub fn init_task_stack(kernel: &mut Kernel)
    requires
        kernel_shape_wf(*old(kernel)),
        old(kernel).tasks@[0].current_state == TASK_READY_STATE,
    ensures
        kernel_wf(*final(kernel)),
        final(kernel).tasks@.len() == MAX_TASK,
        forall|i: int|
            0 <= i < MAX_TASK ==> #[trigger] final(kernel).tasks@[i] == (Tcb {
                psp_value: (task_region_hi(i) - 64) as u32,
                ..old(kernel).tasks@[i]
            }),
        forall|i: int, j: int|
            0 <= i < MAX_TASK && 0 <= j < 16 ==> final(kernel).stack_words@[frame_base_index(i)
                + j] == initial_frame_word(j, old(kernel).tasks@[i].task_handler),
        forall|w: int|
            0 <= w < STACK_REGION_WORDS && !in_initial_frame(w)
                ==> final(kernel).stack_words@[w] == old(kernel).stack_words@[w],
        final(kernel).current == old(kernel).current,
        final(kernel).tick == old(kernel).tick,
        final(kernel).mode == old(kernel).mode,
        final(kernel).stack_words@.len() == STACK_REGION_WORDS,
{
    let mut i: usize = 0;
    while i < MAX_TASK
        invariant
            kernel_shape_wf(*kernel),
            i <= MAX_TASK,
            kernel.current == old(kernel).current,
            kernel.tick == old(kernel).tick,
            kernel.mode == old(kernel).mode,
            kernel.tasks@[0].current_state == old(kernel).tasks@[0].current_state,
            forall|l: int|
                i <= l < MAX_TASK ==> #[trigger] kernel.tasks@[l] == old(kernel).tasks@[l],
            forall|l: int|
                0 <= l < i ==> #[trigger] kernel.tasks@[l] == (Tcb {
                    psp_value: (task_region_hi(l) - 64) as u32,
                    ..old(kernel).tasks@[l]
                }),
            forall|l: int, j: int|
                0 <= l < i && 0 <= j < 16 ==> kernel.stack_words@[frame_base_index(l) + j]
                    == initial_frame_word(j, old(kernel).tasks@[l].task_handler),
            forall|w: int|
                0 <= w < STACK_REGION_WORDS && !in_initial_frame(w)
                    ==> kernel.stack_words@[w] == old(kernel).stack_words@[w],
        decreases MAX_TASK - i,
    {
        let top: u32 = task_stack_start(i);
        let entry: u32 = kernel.tasks[i].task_handler;
        let mut k: usize = 0;
        while k < 16
            invariant
                kernel_shape_wf(*kernel),
                i < MAX_TASK,
                k <= 16,
                top == task_region_hi(i as int),
                entry == old(kernel).tasks@[i as int].task_handler,
                kernel.current == old(kernel).current,
                kernel.tick == old(kernel).tick,
                kernel.mode == old(kernel).mode,
                forall|l: int|
                    i <= l < MAX_TASK ==> #[trigger] kernel.tasks@[l] == old(kernel).tasks@[l],
                forall|l: int|
                    0 <= l < i ==> #[trigger] kernel.tasks@[l] == (Tcb {
                        psp_value: (task_region_hi(l) - 64) as u32,
                        ..old(kernel).tasks@[l]
                    }),
                forall|l: int, j: int|
                    0 <= l < i && 0 <= j < 16 ==> kernel.stack_words@[frame_base_index(l) + j]
                        == initial_frame_word(j, old(kernel).tasks@[l].task_handler),
                forall|j: int|
                    16 - k <= j < 16 ==> kernel.stack_words@[frame_base_index(i as int) + j]
                        == initial_frame_word(j, entry),
                forall|w: int|
                    0 <= w < STACK_REGION_WORDS && !in_initial_frame(w)
                        ==> kernel.stack_words@[w] == old(kernel).stack_words@[w],
            decreases 16 - k,
        {
            let offset: u32 = 4 * (k as u32 + 1);
            let addr: u32 = top - offset;
            let value: u32 = if k == 0 {
                DUMMY_XPSR
            } else if k == 1 {
                entry
            } else if k == 2 {
                EXC_RETURN_THREAD_PSP
            } else {
                0
            };
            write_stack_word(&mut kernel.stack_words, addr, value);
            proof {
                assert(word_index(addr as int) == frame_base_index(i as int) + (15 - k));
                assert(in_initial_frame(word_index(addr as int)));
            }
            k += 1;
        }
        save_psp_for_task(kernel, i);
        i += 1;
    }
}

/// Records task `i`'s saved stack pointer as 16 words below its stack
/// top, where `init_task_stack` lays the synthetic frame.
fn save_psp_for_task(kernel: &mut Kernel, i: usize)
    requires
        kernel_shape_wf(*old(kernel)),
        i < MAX_TASK,
    ensures
        kernel_shape_wf(*final(kernel)),
        final(kernel).tasks@ == old(kernel).tasks@.update(
            i as int,
            (Tcb {
                psp_value: (task_region_hi(i as int) - 64) as u32,
                ..old(kernel).tasks@[i as int]
            }),
        ),
        final(kernel).current == old(kernel).current,
        final(kernel).tick == old(kernel).tick,
        final(kernel).mode == old(kernel).mode,
        final(kernel).stack_words@ == old(kernel).stack_words@,
{
    let top: u32 = task_stack_start(i);
    let mut tcb: Tcb = kernel.tasks[i];
    tcb.psp_value = top - 64;
    kernel.tasks[i] = tcb;
}

/// Picks the task to run next.
///
/// Round-robin: starting one past `current` and wrapping, the first
/// ready task of the `n` slots; task 0 when none is ready.  Priority:
/// over the `n - 1` slots other than `current`, skipping task 0, the
/// ready task with the lowest priority value, the first such in scan
/// order on a tie; task 0 when none qualifies.  Both policies are
/// functions of the table alone, so repeated calls on the same state
/// return the same index.
pub fn pick_next(tasks: &Vec<Tcb>, current: usize, mode: SchedulerMode) -> (next: usize)
    requires
        tasks@.len() >= 1,
        current < tasks@.len(),
    ensures
        pick_ok(tasks@, current as int, mode, next as int),
{
    let n: usize = tasks.len();
    match mode {
        SchedulerMode::RoundRobin => {
            let mut j: usize = 0;
            let mut pos: usize = if current + 1 < n {
                current + 1
            } else {
                0
            };
            while j < n
                invariant
                    mode is RoundRobin,
                    n == tasks@.len(),
                    current < n,
                    j <= n,
                    j < n ==> pos == scan_position(current as int, j as int, n as int),
                    forall|l: int|
                        0 <= l < j ==> !task_ready(
                            tasks@,
                            scan_position(current as int, l, n as int),
                        ),
                decreases n - j,
            {
                if tasks[pos].current_state == TASK_READY_STATE {
                    proof {
                        lemma_scan_inverse(current as int, j as int, n as int);
                        assert(task_ready(tasks@, pos as int));
                        assert forall|i: int|
                            0 <= i < n && task_ready(tasks@, i) implies scan_distance(
                            current as int,
                            pos as int,
                            n as int,
                        ) <= scan_distance(current as int, i, n as int) by {
                            lemma_scan_roundtrip(current as int, i, n as int);
                        }
                    }
                    return pos;
                }
                j = j + 1;
                pos = if pos + 1 < n {
                    pos + 1
                } else {
                    0
                };
            }
            proof {
                assert forall|i: int| 0 <= i < n implies !task_ready(tasks@, i) by {
                    lemma_scan_roundtrip(current as int, i, n as int);
                }
            }
            0
        },
        SchedulerMode::Priority => {
            let mut next: usize = 0;
            let mut best: usize = usize::MAX;
            let mut j: usize = 0;
            let mut pos: usize = if current + 1 < n {
                current + 1
            } else {
                0
            };
            while j < n - 1
                invariant
                    mode is Priority,
                    n == tasks@.len(),
                    1 <= n,
                    current < n,
                    j <= n - 1,
                    j < n ==> pos == scan_position(current as int, j as int, n as int),
                    best == usize::MAX || best < 256,
                    best == usize::MAX ==> next == 0,
                    best == usize::MAX ==> forall|l: int|
                        0 <= l < j ==> !is_contender(
                            tasks@,
                            current as int,
                            scan_position(current as int, l, n as int),
                        ),
                    best < 256 ==> {
                        &&& is_contender(tasks@, current as int, next as int)
                        &&& tasks@[next as int].priority == best
                        &&& scan_distance(current as int, next as int, n as int) < j
                        &&& forall|l: int|
                            0 <= l < j && is_contender(
                                tasks@,
                                current as int,
                                #[trigger] scan_position(current as int, l, n as int),
                            ) ==> best <= tasks@[scan_position(current as int, l, n as int)].priority
                        &&& forall|l: int|
                            0 <= l < j && is_contender(
                                tasks@,
                                current as int,
                                #[trigger] scan_position(current as int, l, n as int),
                            ) && tasks@[scan_position(current as int, l, n as int)].priority == best
                                ==> scan_distance(current as int, next as int, n as int) <= l
                    },
                decreases n - 1 - j,
            {
                proof {
                    lemma_scan_roundtrip(current as int, pos as int, n as int);
                }
                if pos != 0 && tasks[pos].current_state == TASK_READY_STATE && (
                tasks[pos].priority as usize) < best {
                    best = tasks[pos].priority as usize;
                    next = pos;
                }
                j = j + 1;
                pos = if pos + 1 < n {
                    pos + 1
                } else {
                    0
                };
            }
            proof {
                if best == usize::MAX {
                    assert forall|i: int| !is_contender(tasks@, current as int, i) by {
                        if 0 < i < n && i != current {
                            lemma_scan_roundtrip(current as int, i, n as int);
                        }
                    }
                } else {
                    assert forall|i: int|
                        is_contender(tasks@, current as int, i) implies tasks@[next as int].priority
                        <= tasks@[i].priority by {
                        lemma_scan_roundtrip(current as int, i, n as int);
                    }
                    assert forall|i: int|
                        is_contender(tasks@, current as int, i) && tasks@[i].priority
                            == tasks@[next as int].priority implies scan_distance(
                        current as int,
                        next as int,
                        n as int,
                    ) <= scan_distance(current as int, i, n as int) by {
                        lemma_scan_roundtrip(current as int, i, n as int);
                    }
                }
            }
            next
        },
    }
}

/// Advances `current` to the task the policy picks, and changes nothing
/// else.
pub fn update_to_next_task(kernel: &mut Kernel)
    requires
        kernel_shape_wf(*old(kernel)),
    ensures
        kernel_shape_wf(*final(kernel)),
        pick_ok(
            old(kernel).tasks@,
            old(kernel).current as int,
            old(kernel).mode,
            final(kernel).current as int,
        ),
        final(kernel).tasks@ == old(kernel).tasks@,
        final(kernel).tick == old(kernel).tick,
        final(kernel).mode == old(kernel).mode,
        final(kernel).stack_words@ == old(kernel).stack_words@,
{
    let next: usize = pick_next(&kernel.tasks, kernel.current, kernel.mode);
    kernel.current = next;
}

/// The running task's saved stack pointer.
pub fn get_psp_value(kernel: &Kernel) -> (psp: u32)
    requires
        kernel_shape_wf(*kernel),
    ensures
        psp == kernel.tasks@[kernel.current as int].psp_value,
{
    kernel.tasks[kernel.current].psp_value
}

/// Records `psp` as the running task's saved stack pointer, and changes
/// nothing else.
pub fn save_psp_value(kernel: &mut Kernel, psp: u32)
    requires
        kernel_shape_wf(*old(kernel)),
    ensures
        kernel_shape_wf(*final(kernel)),
        final(kernel).tasks@ == old(kernel).tasks@.update(
            old(kernel).current as int,
            (Tcb { psp_value: psp, ..old(kernel).tasks@[old(kernel).current as int] }),
        ),
        final(kernel).current == old(kernel).current,
        final(kernel).tick == old(kernel).tick,
        final(kernel).mode == old(kernel).mode,
        final(kernel).stack_words@ == old(kernel).stack_words@,
{
    let index: usize = kernel.current;
    let mut tcb: Tcb = kernel.tasks[index];
    tcb.psp_value = psp;
    kernel.tasks[index] = tcb;
}

/// Requests a deferred context switch: sets the pend bit of the
/// deferred supervisor exception in the interrupt control and state
/// register.  Idempotent, and touches nothing else.
pub fn schedule(scb: &mut Scb)
    ensures
        final(scb).icsr == old(scb).icsr | 0x1000_0000u32,
        *final(scb) == (Scb { icsr: final(scb).icsr, ..*old(scb) }),
{
    proof {
        assert(1u32 << 28 == 0x1000_0000u32) by (bit_vector);
    }
    let value: u32 = scb.icsr | (1u32 << 28);
    scb.icsr = value;
}

/// What must hold when the deferred switch exception is entered: the
/// kernel is well formed and the interrupted task's process stack
/// pointer — which at that point sits below the eight words the
/// hardware stacked automatically — is word-aligned and leaves room in
/// the task's own stack both for those words above it and for the eight
/// callee-saved words the handler pushes below it.
pub open spec fn pendsv_enter_ok(cpu: Cpu, k: Kernel) -> bool {
    &&& kernel_wf(k)
    &&& task_region_lo(k.current as int) + 32 <= cpu.psp
    &&& cpu.psp + 32 <= task_region_hi(k.current as int)
    &&& (cpu.psp as int - stack_base()) % 4 == 0
}

/// How one run of the deferred switch handler relates the state at
/// entry to the state at exit.
///
/// The outgoing task's callee-saved registers are pushed onto its
/// process stack (eight words below the entry stack pointer, `R4`
/// lowest), the pushed-to stack pointer is recorded in the outgoing
/// task's control block, the policy picks the new running task from the
/// table so updated, the new task's callee-saved registers are loaded
/// from the eight words at its saved stack pointer, and the stack
/// pointer handed back for exception return sits above them.  No other
/// task memory, kernel field or processor register changes.
pub open spec fn pendsv_relation(cpu0: Cpu, k0: Kernel, cpu1: Cpu, k1: Kernel) -> bool {
    let saved_psp = cpu0.psp - 32;
    let ws = word_index(saved_psp as int);
    let mem1 = k0.stack_words@.update(ws, cpu0.r4).update(ws + 1, cpu0.r5).update(
        ws + 2,
        cpu0.r6,
    ).update(ws + 3, cpu0.r7).update(ws + 4, cpu0.r8).update(ws + 5, cpu0.r9).update(
        ws + 6,
        cpu0.r10,
    ).update(ws + 7, cpu0.r11);
    let tasks1 = k0.tasks@.update(
        k0.current as int,
        (Tcb { psp_value: saved_psp as u32, ..k0.tasks@[k0.current as int] }),
    );
    let wr = word_index(tasks1[k1.current as int].psp_value as int);
    &&& k1.tasks@ == tasks1
    &&& pick_ok(tasks1, k0.current as int, k0.mode, k1.current as int)
    &&& k1.stack_words@ == mem1
    &&& k1.tick == k0.tick
    &&& k1.mode == k0.mode
    &&& cpu1.r4 == mem1[wr]
    &&& cpu1.r5 == mem1[wr + 1]
    &&& cpu1.r6 == mem1[wr + 2]
    &&& cpu1.r7 == mem1[wr + 3]
    &&& cpu1.r8 == mem1[wr + 4]
    &&& cpu1.r9 == mem1[wr + 5]
    &&& cpu1.r10 == mem1[wr + 6]
    &&& cpu1.r11 == mem1[wr + 7]
    &&& cpu1.psp == tasks1[k1.current as int].psp_value + 32
    &&& cpu1.msp == cpu0.msp
    &&& cpu1.process_stack_active == cpu0.process_stack_active
    &&& cpu1.primask == cpu0.primask
}

/// The deferred context-switch handler: saves the outgoing task's
/// callee-saved registers on its own stack, records its stack pointer,
/// asks the policy for the next task, restores that task's callee-saved
/// registers from its stack, and hands back the stack pointer the
/// exception return will unstack the remaining registers from.
///
/// Between saving and restoring, no task memory is read or written
/// except through the task table.  It runs at the lowest exception
/// priority, so no other run of itself can preempt it.
#[verifier::rlimit(100)]
pub fn pendsv_handler(cpu: &mut Cpu, kernel: &mut Kernel)
    requires
        pendsv_enter_ok(*old(cpu), *old(kernel)),
    ensures
        pendsv_relation(*old(cpu), *old(kernel), *final(cpu), *final(kernel)),
        kernel_wf(*final(kernel)),
        pendsv_enter_ok(*final(cpu), *final(kernel)),
{
    let mut psp: u32 = cpu.psp;
    psp = psp - 32;
    write_stack_word(&mut kernel.stack_words, psp, cpu.r4);
    write_stack_word(&mut kernel.stack_words, psp + 4, cpu.r5);
    write_stack_word(&mut kernel.stack_words, psp + 8, cpu.r6);
    write_stack_word(&mut kernel.stack_words, psp + 12, cpu.r7);
    write_stack_word(&mut kernel.stack_words, psp + 16, cpu.r8);
    write_stack_word(&mut kernel.stack_words, psp + 20, cpu.r9);
    write_stack_word(&mut kernel.stack_words, psp + 24, cpu.r10);
    write_stack_word(&mut kernel.stack_words, psp + 28, cpu.r11);
    save_psp_value(kernel, psp);
    update_to_next_task(kernel);
    let new_psp: u32 = get_psp_value(kernel);
    cpu.r4 = read_stack_word(&kernel.stack_words, new_psp);
    cpu.r5 = read_stack_word(&kernel.stack_words, new_psp + 4);
    cpu.r6 = read_stack_word(&kernel.stack_words, new_psp + 8);
    cpu.r7 = read_stack_word(&kernel.stack_words, new_psp + 12);
    cpu.r8 = read_stack_word(&kernel.stack_words, new_psp + 16);
    cpu.r9 = read_stack_word(&kernel.stack_words, new_psp + 20);
    cpu.r10 = read_stack_word(&kernel.stack_words, new_psp + 24);
    cpu.r11 = read_stack_word(&kernel.stack_words, new_psp + 28);
    cpu.psp = new_psp + 32;
}

/// One-time bootstrap of the scheduler.  In order: points the main
/// stack pointer at the scheduler's own stack; sets the deferred switch
/// exception to the lowest priority and the tick exception one level
/// above it; turns off lazy floating-point stacking; lays out every
/// task stack; programs the periodic tick; asks the policy for the
/// first task; and hands control off on that task's process stack.
/// The returned value is the entry address the bootstrap branches to.
///
/// At the hand-off the stack-pointer selector reads "process stack" and
/// the process stack pointer lies inside the first task's stack region.
pub fn scheduler_init(
    cpu: &mut Cpu,
    kernel: &mut Kernel,
    scb: &mut Scb,
    systick: &mut SysTick,
) -> (entry: u32)
    requires
        kernel_shape_wf(*old(kernel)),
        old(kernel).tasks@[0].current_state == TASK_READY_STATE,
    ensures
        final(cpu).msp as int == stack_base(),
        final(scb).shpr3 == (old(scb).shpr3 & 0x0000_FFFFu32) | 0xF0FF_0000u32,
        (final(scb).shpr3 >> 16) & 0xFFu32 == 0xFF,
        (final(scb).shpr3 >> 24) & 0xFFu32 == 0xF0,
        ((final(scb).shpr3 >> 16) & 0xFFu32) > ((final(scb).shpr3 >> 24) & 0xFFu32),
        final(scb).fpccr == (old(scb).fpccr | 0x8000_0000u32) & 0xBFFF_FFFFu32,
        final(scb).icsr == old(scb).icsr,
        final(scb).aircr == old(scb).aircr,
        kernel_wf(*final(kernel)),
        forall|i: int|
            0 <= i < MAX_TASK ==> #[trigger] final(kernel).tasks@[i] == (Tcb {
                psp_value: (task_region_hi(i) - 64) as u32,
                ..old(kernel).tasks@[i]
            }),
        forall|i: int, j: int|
            0 <= i < MAX_TASK && 0 <= j < 16 ==> final(kernel).stack_words@[frame_base_index(i)
                + j] == initial_frame_word(j, old(kernel).tasks@[i].task_handler),
        final(kernel).tick == old(kernel).tick,
        final(kernel).mode == old(kernel).mode,
        pick_ok(
            final(kernel).tasks@,
            old(kernel).current as int,
            old(kernel).mode,
            final(kernel).current as int,
        ),
        final(systick).st_rvr == CORE_CLOCK_MHZ * 1000 * KERNEL_TICK_PERIOD_MS - 1,
        final(systick).st_cvr == 0,
        final(systick).st_csr == 0b111u32,
        final(cpu).process_stack_active,
        final(cpu).psp == final(kernel).tasks@[final(kernel).current as int].psp_value,
        task_region_lo(final(kernel).current as int) <= final(cpu).psp < task_region_hi(
            final(kernel).current as int,
        ),
        entry == final(kernel).tasks@[final(kernel).current as int].task_handler,
        final(cpu).r4 == old(cpu).r4,
        final(cpu).r5 == old(cpu).r5,
        final(cpu).r6 == old(cpu).r6,
        final(cpu).r7 == old(cpu).r7,
        final(cpu).r8 == old(cpu).r8,
        final(cpu).r9 == old(cpu).r9,
        final(cpu).r10 == old(cpu).r10,
        final(cpu).r11 == old(cpu).r11,
        final(cpu).primask == old(cpu).primask,
{
    cpu.msp = scheduler_stack_start();

    let mut shpr3: u32 = scb.shpr3;
    shpr3 = shpr3 & !((0xFFu32 << 16) | (0xFFu32 << 24));
    shpr3 = shpr3 | ((0xFFu32 << 16) | (0xF0u32 << 24));
    proof {
        let s = old(scb).shpr3;
        assert((s & !((0xFFu32 << 16) | (0xFFu32 << 24))) | ((0xFFu32 << 16) | (0xF0u32 << 24))
            == (s & 0x0000_FFFFu32) | 0xF0FF_0000u32) by (bit_vector);
        assert((((s & 0x0000_FFFFu32) | 0xF0FF_0000u32) >> 16) & 0xFFu32 == 0xFFu32)
            by (bit_vector);
        assert((((s & 0x0000_FFFFu32) | 0xF0FF_0000u32) >> 24) & 0xFFu32 == 0xF0u32)
            by (bit_vector);
    }
    scb.shpr3 = shpr3;

    let fpccr: u32 = scb.fpccr;
    proof {
        let f = old(scb).fpccr;
        assert((f | (1u32 << 31)) & !(1u32 << 30) == (f | 0x8000_0000u32) & 0xBFFF_FFFFu32)
            by (bit_vector);
    }
    scb.fpccr = (fpccr | (1u32 << 31)) & !(1u32 << 30);

    init_task_stack(kernel);
    systick.init_systic_interrupt_ms(KERNEL_TICK_PERIOD_MS, CORE_CLOCK_MHZ);
    update_to_next_task(kernel);

    let psp: u32 = get_psp_value(kernel);
    cpu.psp = psp;
    cpu.process_stack_active = true;
    kernel.tasks[kernel.current].task_handler
}

/// The tick interrupt's work: counts the tick (wrapping at the counter's
/// width) and pends the deferred context switch.  It touches no task
/// state and no stack.
pub fn systick_handler(kernel: &mut Kernel, scb: &mut Scb)
    ensures
        final(kernel).tick == if old(kernel).tick == u32::MAX {
            0u32
        } else {
            (old(kernel).tick + 1) as u32
        },
        final(kernel).tasks@ == old(kernel).tasks@,
        final(kernel).current == old(kernel).current,
        final(kernel).mode == old(kernel).mode,
        final(kernel).stack_words@ == old(kernel).stack_words@,
        final(scb).icsr == old(scb).icsr | 0x1000_0000u32,
        *final(scb) == (Scb { icsr: final(scb).icsr, ..*old(scb) }),
{
    kernel.tick = kernel.tick.wrapping_add(1);
    schedule(scb);
}

/// With every task ready, the round-robin policy hands the processor
/// around in a fixed cycle: the pick is always the slot one past the
/// current task, wrapping to the idle task after the last slot.
pub proof fn law_round_robin_cycle(tasks: Seq<Tcb>, current: int, next: int)
    requires
        tasks.len() >= 1,
        0 <= current < tasks.len(),
        forall|i: int| 0 <= i < tasks.len() ==> task_ready(tasks, i),
        rr_pick_ok(tasks, current, next),
    ensures
        next == if current + 1 < tasks.len() {
            current + 1
        } else {
            0
        },
{
    let n = tasks.len() as int;
    let first = scan_position(current, 0, n);
    lemma_scan_inverse(current, 0, n);
    assert(0 <= first < n && task_ready(tasks, first));
    assert(scan_distance(current, next, n) <= scan_distance(current, first, n));
    lemma_scan_roundtrip(current, next, n);
}

/// The priority policy never selects a task while a contender with a
/// lower priority value is ready: whatever it returns is itself a
/// contender whose priority value is no higher than any contender's,
/// and in particular it is never the idle task while a contender
/// exists.
pub proof fn law_priority_selection(tasks: Seq<Tcb>, current: int, next: int, c: int)
    requires
        0 <= current < tasks.len(),
        is_contender(tasks, current, c),
        priority_pick_ok(tasks, current, next),
    ensures
        is_contender(tasks, current, next),
        tasks[next].priority <= tasks[c].priority,
        next != 0,
{
}

/// With the idle task ready and every other task blocked, either policy
/// falls back to the idle task.
pub proof fn law_idle_fallback(tasks: Seq<Tcb>, current: int, mode: SchedulerMode, next: int)
    requires
        tasks.len() >= 1,
        0 <= current < tasks.len(),
        task_ready(tasks, 0),
        forall|i: int| 1 <= i < tasks.len() ==> !task_ready(tasks, i),
        pick_ok(tasks, current, mode, next),
    ensures
        next == 0,
{
    match mode {
        SchedulerMode::RoundRobin => {
            assert(0 <= 0 < tasks.len() && task_ready(tasks, 0));
            assert(task_ready(tasks, next));
        },
        SchedulerMode::Priority => {
            assert(forall|i: int| !is_contender(tasks, current, i));
        },
    }
}

/// Each policy is a function of the task table and the current index
/// alone: two picks from identical states agree.
pub proof fn law_pick_deterministic(
    tasks: Seq<Tcb>,
    current: int,
    mode: SchedulerMode,
    next1: int,
    next2: int,
)
    requires
        tasks.len() >= 1,
        0 <= current < tasks.len(),
        pick_ok(tasks, current, mode, next1),
        pick_ok(tasks, current, mode, next2),
    ensures
        next1 == next2,
{
    let n = tasks.len() as int;
    match mode {
        SchedulerMode::RoundRobin => {
            if exists|i: int| 0 <= i < n && task_ready(tasks, i) {
                assert(scan_distance(current, next1, n) <= scan_distance(current, next2, n));
                assert(scan_distance(current, next2, n) <= scan_distance(current, next1, n));
                lemma_scan_roundtrip(current, next1, n);
                lemma_scan_roundtrip(current, next2, n);
            }
        },
        SchedulerMode::Priority => {
            if exists|i: int| is_contender(tasks, current, i) {
                assert(tasks[next1].priority == tasks[next2].priority);
                assert(scan_distance(current, next1, n) <= scan_distance(current, next2, n));
                assert(scan_distance(current, next2, n) <= scan_distance(current, next1, n));
                lemma_scan_roundtrip(current, next1, n);
                lemma_scan_roundtrip(current, next2, n);
            }
        },
    }
}

/// Register preservation across a switch away and back.
///
/// Run the deferred switch handler once from task `A`'s state, handing
/// control to some other task `B`; run it again from the state it left,
/// and suppose the policy returns `A`.  Then the callee-saved registers
/// and the process stack pointer handed back equal the ones task `A`
/// held at the first entry: the first run parked them in `A`'s stack,
/// the second run's stores landed entirely inside `B`'s disjoint stack,
/// and the restore read `A`'s words back unchanged.
pub proof fn law_register_preservation_round_trip(
    cpu0: Cpu,
    k0: Kernel,
    cpu1: Cpu,
    k1: Kernel,
    cpu2: Cpu,
    k2: Kernel,
)
    requires
        pendsv_enter_ok(cpu0, k0),
        pendsv_relation(cpu0, k0, cpu1, k1),
        kernel_wf(k1),
        pendsv_relation(cpu1, k1, cpu2, k2),
        k1.current != k0.current,
        k2.current == k0.current,
    ensures
        cpu2.r4 == cpu0.r4,
        cpu2.r5 == cpu0.r5,
        cpu2.r6 == cpu0.r6,
        cpu2.r7 == cpu0.r7,
        cpu2.r8 == cpu0.r8,
        cpu2.r9 == cpu0.r9,
        cpu2.r10 == cpu0.r10,
        cpu2.r11 == cpu0.r11,
        cpu2.psp == cpu0.psp,
{
    let a = k0.current as int;
    let b = k1.current as int;
    assert(tcb_stack_wf(k1.tasks@[a], a));
    assert(tcb_stack_wf(k1.tasks@[b], b));
    let pa = cpu0.psp - 32;
    let pb = k1.tasks@[b].psp_value as int;
    assert(k1.tasks@[a].psp_value == pa);
    assert(cpu1.psp == pb + 32);
    let wa = word_index(pa);
    let wb = word_index(pb);
    assert((pa - stack_base()) % 4 == 0);
    assert((pb - stack_base()) % 4 == 0);
    if a < b {
        assert(task_region_hi(b) <= task_region_lo(a));
        assert(pb + 64 <= pa);
        assert(wb + 16 <= wa);
    } else {
        assert(task_region_hi(a) <= task_region_lo(b));
        assert(pa + 64 <= pb);
        assert(wa + 16 <= wb);
    }
}

} // verus!

