use rtos_core::cortex_m4::{Cpu, Scb};
use rtos_core::os::{
    init_task_stack, pendsv_handler, pick_next, scheduler_init, systick_handler,
    update_to_next_task, Kernel, SchedulerMode, CORE_CLOCK_MHZ, STACK_REGION_WORDS,
};
use rtos_core::os_config::{
    scheduler_stack_start, task_stack_start, Tcb, KERNEL_TICK_PERIOD_MS, MAX_TASK,
    TASK_BLOCKED_STATE, TASK_READY_STATE,
};
use rtos_core::systick::SysTick;

fn demo_entries() -> Vec<u32> {
    vec![0x0800_0100, 0x0800_0200, 0x0800_0300, 0x0800_0400]
}

fn demo_priorities() -> Vec<u8> {
    vec![0, 3, 3, 4]
}

fn demo_kernel(mode: SchedulerMode) -> Kernel {
    Kernel::new(&demo_entries(), &demo_priorities(), mode)
}

fn fresh_cpu() -> Cpu {
    Cpu {
        r4: 0,
        r5: 0,
        r6: 0,
        r7: 0,
        r8: 0,
        r9: 0,
        r10: 0,
        r11: 0,
        psp: 0,
        msp: 0,
        process_stack_active: false,
        primask: false,
    }
}

fn stack_word(kernel: &Kernel, addr: u32) -> u32 {
    kernel.stack_words[((addr - scheduler_stack_start()) / 4) as usize]
}

#[test]
fn new_kernel_table() {
    let kernel = demo_kernel(SchedulerMode::RoundRobin);
    assert_eq!(kernel.current, 0);
    assert_eq!(kernel.tick, 0);
    assert_eq!(kernel.tasks.len(), MAX_TASK);
    assert_eq!(kernel.stack_words.len(), STACK_REGION_WORDS);
    for i in 0..MAX_TASK {
        assert_eq!(kernel.tasks[i].psp_value, 0);
        assert_eq!(kernel.tasks[i].current_state, TASK_READY_STATE);
        assert_eq!(kernel.tasks[i].block_count, 0);
    }
    assert_eq!(kernel.tasks[0].priority, 0);
    assert_eq!(kernel.tasks[1].priority, 3);
    assert_eq!(kernel.tasks[2].priority, 3);
    assert_eq!(kernel.tasks[3].priority, 4);
    assert_eq!(kernel.tasks[2].task_handler, 0x0800_0300);
}

#[test]
fn stack_geometry() {
    assert_eq!(task_stack_start(0), 0x2002_0000);
    assert_eq!(task_stack_start(1), 0x2001_FC00);
    assert_eq!(task_stack_start(2), 0x2001_F800);
    assert_eq!(task_stack_start(3), 0x2001_F400);
    assert_eq!(scheduler_stack_start(), 0x2001_F000);
}

#[test]
fn initial_frames_well_formed() {
    let mut kernel = demo_kernel(SchedulerMode::RoundRobin);
    init_task_stack(&mut kernel);
    for i in 0..MAX_TASK {
        let psp = kernel.tasks[i].psp_value;
        assert_eq!(psp, task_stack_start(i) - 64);
        assert_eq!(stack_word(&kernel, psp + 15 * 4), 0x0100_0000);
        assert_eq!(stack_word(&kernel, psp + 14 * 4), kernel.tasks[i].task_handler);
        assert_eq!(stack_word(&kernel, psp + 13 * 4), 0xFFFF_FFFD);
        for j in 0..13 {
            assert_eq!(stack_word(&kernel, psp + j * 4), 0);
        }
    }
}

#[test]
fn round_robin_fairness_over_100_ticks() {
    let kernel = demo_kernel(SchedulerMode::RoundRobin);
    let mut current: usize = 0;
    let mut counts = [0usize; 4];
    let mut order = Vec::new();
    for _ in 0..100 {
        let next = pick_next(&kernel.tasks, current, SchedulerMode::RoundRobin);
        counts[next] += 1;
        order.push(next);
        current = next;
    }
    assert_eq!(counts, [25, 25, 25, 25]);
    for (step, &picked) in order.iter().enumerate() {
        assert_eq!(picked, (step + 1) % 4);
    }
}

#[test]
fn priority_alternates_between_equal_highest() {
    let kernel = demo_kernel(SchedulerMode::Priority);
    let mut current: usize = 0;
    let mut picks = Vec::new();
    for _ in 0..20 {
        let next = pick_next(&kernel.tasks, current, SchedulerMode::Priority);
        picks.push(next);
        current = next;
    }
    for (step, &picked) in picks.iter().enumerate() {
        assert_ne!(picked, 3, "a lower-priority task was selected");
        assert_eq!(picked, if step % 2 == 0 { 1 } else { 2 });
    }
}

#[test]
fn priority_prefers_lower_value() {
    let kernel = demo_kernel(SchedulerMode::Priority);
    let mut tasks = kernel.tasks;
    tasks[1].current_state = TASK_BLOCKED_STATE;
    tasks[2].current_state = TASK_BLOCKED_STATE;
    assert_eq!(pick_next(&tasks, 0, SchedulerMode::Priority), 3);
    tasks[2].current_state = TASK_READY_STATE;
    assert_eq!(pick_next(&tasks, 0, SchedulerMode::Priority), 2);
}

#[test]
fn idle_fallback_two_tasks() {
    let idle = Tcb {
        psp_value: 0,
        priority: 0,
        current_state: TASK_READY_STATE,
        block_count: 0,
        task_handler: 0x0800_0100,
    };
    let worker = Tcb {
        psp_value: 0,
        priority: 1,
        current_state: TASK_BLOCKED_STATE,
        block_count: 0,
        task_handler: 0x0800_0200,
    };
    let tasks = vec![idle, worker];
    let mut current: usize = 0;
    for _ in 0..10 {
        let rr = pick_next(&tasks, current, SchedulerMode::RoundRobin);
        let pr = pick_next(&tasks, current, SchedulerMode::Priority);
        assert_eq!(rr, 0);
        assert_eq!(pr, 0);
        current = rr;
    }
}

#[test]
fn pick_is_deterministic() {
    let kernel = demo_kernel(SchedulerMode::Priority);
    for current in 0..MAX_TASK {
        let a = pick_next(&kernel.tasks, current, SchedulerMode::Priority);
        let b = pick_next(&kernel.tasks, current, SchedulerMode::Priority);
        assert_eq!(a, b);
        let c = pick_next(&kernel.tasks, current, SchedulerMode::RoundRobin);
        let d = pick_next(&kernel.tasks, current, SchedulerMode::RoundRobin);
        assert_eq!(c, d);
    }
}

#[test]
fn update_to_next_task_commits_pick() {
    let mut kernel = demo_kernel(SchedulerMode::RoundRobin);
    update_to_next_task(&mut kernel);
    assert_eq!(kernel.current, 1);
    update_to_next_task(&mut kernel);
    assert_eq!(kernel.current, 2);
}

#[test]
fn registers_preserved_across_round_trip() {
    let mut kernel = demo_kernel(SchedulerMode::Priority);
    init_task_stack(&mut kernel);
    kernel.current = 1;

    let mut cpu = fresh_cpu();
    cpu.psp = kernel.tasks[1].psp_value + 32;
    cpu.r4 = 0xAAAA_0004;
    cpu.r5 = 0xAAAA_0005;
    cpu.r6 = 0xAAAA_0006;
    cpu.r7 = 0xAAAA_0007;
    cpu.r8 = 0xAAAA_0008;
    cpu.r9 = 0xAAAA_0009;
    cpu.r10 = 0xAAAA_000A;
    cpu.r11 = 0xAAAA_000B;
    let psp_before = cpu.psp;

    pendsv_handler(&mut cpu, &mut kernel);
    assert_eq!(kernel.current, 2);
    assert_ne!(cpu.r4, 0xAAAA_0004);

    pendsv_handler(&mut cpu, &mut kernel);
    assert_eq!(kernel.current, 1);
    assert_eq!(cpu.r4, 0xAAAA_0004);
    assert_eq!(cpu.r5, 0xAAAA_0005);
    assert_eq!(cpu.r6, 0xAAAA_0006);
    assert_eq!(cpu.r7, 0xAAAA_0007);
    assert_eq!(cpu.r8, 0xAAAA_0008);
    assert_eq!(cpu.r9, 0xAAAA_0009);
    assert_eq!(cpu.r10, 0xAAAA_000A);
    assert_eq!(cpu.r11, 0xAAAA_000B);
    assert_eq!(cpu.psp, psp_before);
}

#[test]
fn registers_preserved_across_full_round_robin_cycle() {
    let mut kernel = demo_kernel(SchedulerMode::RoundRobin);
    init_task_stack(&mut kernel);
    kernel.current = 1;

    let mut cpu = fresh_cpu();
    cpu.psp = kernel.tasks[1].psp_value + 32;
    cpu.r4 = 0xDEAD_BEEF;
    cpu.r11 = 0x1234_5678;
    let psp_before = cpu.psp;

    for _ in 0..4 {
        pendsv_handler(&mut cpu, &mut kernel);
    }
    assert_eq!(kernel.current, 1);
    assert_eq!(cpu.r4, 0xDEAD_BEEF);
    assert_eq!(cpu.r11, 0x1234_5678);
    assert_eq!(cpu.psp, psp_before);
}

#[test]
fn switch_exception_below_tick_exception() {
    let mut kernel = demo_kernel(SchedulerMode::Priority);
    let mut cpu = fresh_cpu();
    let mut scb = Scb::new();
    let mut systick = SysTick::new();
    scheduler_init(&mut cpu, &mut kernel, &mut scb, &mut systick);
    let pendsv_priority = (scb.shpr3 >> 16) & 0xFF;
    let systick_priority = (scb.shpr3 >> 24) & 0xFF;
    assert_eq!(pendsv_priority, 0xFF);
    assert_eq!(systick_priority, 0xF0);
    assert!(pendsv_priority > systick_priority);
}

#[test]
fn tick_reload_value() {
    let mut systick = SysTick::new();
    systick.init_systic_interrupt_ms(KERNEL_TICK_PERIOD_MS, CORE_CLOCK_MHZ);
    assert_eq!(systick.st_rvr, 15_999);
    assert_eq!(systick.st_cvr, 0);
    assert_eq!(systick.st_csr, 0b111);
}

#[test]
fn bootstrap_hands_off_on_process_stack() {
    let mut kernel = demo_kernel(SchedulerMode::RoundRobin);
    let mut cpu = fresh_cpu();
    let mut scb = Scb::new();
    let mut systick = SysTick::new();
    let entry = scheduler_init(&mut cpu, &mut kernel, &mut scb, &mut systick);

    assert!(cpu.process_stack_active);
    assert_eq!(kernel.current, 1);
    assert_eq!(entry, 0x0800_0200);
    assert_eq!(cpu.msp, scheduler_stack_start());
    let lo = task_stack_start(2);
    let hi = task_stack_start(1);
    assert!(lo <= cpu.psp && cpu.psp < hi);
    assert_eq!(cpu.psp, kernel.tasks[1].psp_value);
}

#[test]
fn bootstrap_first_task_priority_mode() {
    let mut kernel = demo_kernel(SchedulerMode::Priority);
    let mut cpu = fresh_cpu();
    let mut scb = Scb::new();
    let mut systick = SysTick::new();
    let entry = scheduler_init(&mut cpu, &mut kernel, &mut scb, &mut systick);
    assert_eq!(kernel.current, 1);
    assert_eq!(entry, 0x0800_0200);
}

#[test]
fn tick_counts_and_pends_switch() {
    let mut kernel = demo_kernel(SchedulerMode::RoundRobin);
    let mut scb = Scb::new();
    systick_handler(&mut kernel, &mut scb);
    assert_eq!(kernel.tick, 1);
    assert_eq!(scb.icsr, 1 << 28);
    systick_handler(&mut kernel, &mut scb);
    assert_eq!(kernel.tick, 2);
    assert_eq!(scb.icsr, 1 << 28);
    assert_eq!(kernel.current, 0);
}

#[test]
fn tick_wraps_at_counter_width() {
    let mut kernel = demo_kernel(SchedulerMode::RoundRobin);
    kernel.tick = u32::MAX;
    let mut scb = Scb::new();
    systick_handler(&mut kernel, &mut scb);
    assert_eq!(kernel.tick, 0);
}

#[test]
fn hundred_ticks_share_time_fairly() {
    let mut kernel = demo_kernel(SchedulerMode::RoundRobin);
    init_task_stack(&mut kernel);
    kernel.current = 1;
    let mut cpu = fresh_cpu();
    cpu.psp = kernel.tasks[1].psp_value + 32;
    let mut scb = Scb::new();

    let mut counts = [0usize; 4];
    for _ in 0..100 {
        systick_handler(&mut kernel, &mut scb);
        assert_eq!(scb.icsr & (1 << 28), 1 << 28);
        scb.icsr &= !(1 << 28);
        pendsv_handler(&mut cpu, &mut kernel);
        counts[kernel.current] += 1;
    }
    assert_eq!(counts, [25, 25, 25, 25]);
}
