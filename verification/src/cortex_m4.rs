//! Processor-core models and operations: the registers the context
//! switch and the interrupt plumbing touch, the nested vectored
//! interrupt controller, and the system control block.

use vstd::prelude::*;

verus! {

/// Number of interrupt lines the architecture's controller can address.
pub const NVIC_MAX_IRQ: u32 = 240;

/// The processor state the kernel reads and writes.
///
/// The callee-saved registers `R4`..`R11` are the only core registers an
/// exception does not stack automatically, so the context switch saves
/// and restores them by hand.  `process_stack_active` models the
/// stack-pointer selector: true when Thread mode runs on the process
/// stack pointer.  `primask` models the global interrupt mask: true when
/// maskable interrupts are held off.
pub struct Cpu {
    pub r4: u32,
    pub r5: u32,
    pub r6: u32,
    pub r7: u32,
    pub r8: u32,
    pub r9: u32,
    pub r10: u32,
    pub r11: u32,
    /// Process stack pointer.
    pub psp: u32,
    /// Main stack pointer.
    pub msp: u32,
    /// Stack-pointer selector: true when Thread mode uses the process stack.
    pub process_stack_active: bool,
    /// Global interrupt mask: true when maskable interrupts are disabled.
    pub primask: bool,
}

/// The interrupt-controller registers the drivers program.
///
/// `iser` and `icer` are the set-enable and clear-enable banks, eight
/// 32-bit words each; `ipr` is the byte-addressed priority bank, one
/// byte per interrupt line.
pub struct Nvic {
    pub iser: Vec<u32>,
    pub icer: Vec<u32>,
    pub ipr: Vec<u8>,
}

/// The register banks have their architectural sizes.
pub open spec fn nvic_wf(nvic: Nvic) -> bool {
    &&& nvic.iser@.len() == 8
    &&& nvic.icer@.len() == 8
    &&& nvic.ipr@.len() == NVIC_MAX_IRQ
}

impl Nvic {
    /// The controller as it reads after reset: every line disabled, every
    /// priority zero.
    pub fn new() -> (nvic: Nvic)
        ensures
            nvic_wf(nvic),
            forall|j: int| 0 <= j < 8 ==> nvic.iser@[j] == 0,
            forall|j: int| 0 <= j < 8 ==> nvic.icer@[j] == 0,
            forall|j: int| 0 <= j < NVIC_MAX_IRQ ==> nvic.ipr@[j] == 0,
    {
        let mut iser: Vec<u32> = Vec::new();
        let mut icer: Vec<u32> = Vec::new();
        let mut ipr: Vec<u8> = Vec::new();
        let mut j: usize = 0;
        while j < 8
            invariant
                j <= 8,
                iser@.len() == j,
                icer@.len() == j,
                forall|l: int| 0 <= l < j ==> iser@[l] == 0,
                forall|l: int| 0 <= l < j ==> icer@[l] == 0,
            decreases 8 - j,
        {
            iser.push(0);
            icer.push(0);
            j += 1;
        }
        let mut l: usize = 0;
        while l < 240
            invariant
                l <= 240,
                ipr@.len() == l,
                forall|m: int| 0 <= m < l ==> ipr@[m] == 0,
            decreases 240 - l,
        {
            ipr.push(0);
            l += 1;
        }
        Nvic { iser, icer, ipr }
    }
}

/// The system-control-block registers the kernel programs.
pub struct Scb {
    /// Interrupt control and state register: bit 28 pends the deferred
    /// context-switch exception.
    pub icsr: u32,
    /// System handler priority register 3: bits 23:16 hold the deferred
    /// switch exception's priority, bits 31:24 the system timer's.
    pub shpr3: u32,
    /// Application interrupt and reset control register: bits 10:8 hold
    /// the priority grouping.
    pub aircr: u32,
    /// Floating-point context control register: bit 31 enables automatic
    /// state preservation, bit 30 lazy stacking.
    pub fpccr: u32,
}

impl Scb {
    /// The block with every modelled register reading zero.
    pub fn new() -> (scb: Scb)
        ensures
            scb.icsr == 0,
            scb.shpr3 == 0,
            scb.aircr == 0,
            scb.fpccr == 0,
    {
        Scb { icsr: 0, shpr3: 0, aircr: 0, fpccr: 0 }
    }
}

/// Enables the interrupt line `irq_number`: sets its bit in the
/// set-enable bank and touches nothing else.
pub fn enable_irq(nvic: &mut Nvic, irq_number: u32)
    requires
        nvic_wf(*old(nvic)),
        irq_number < NVIC_MAX_IRQ,
    ensures
        nvic_wf(*final(nvic)),
        final(nvic).iser@ == old(nvic).iser@.update(
            irq_number as int / 32,
            old(nvic).iser@[irq_number as int / 32] | (1u32 << (irq_number % 32)),
        ),
        final(nvic).icer@ == old(nvic).icer@,
        final(nvic).ipr@ == old(nvic).ipr@,
{
    let register_index: usize = (irq_number / 32) as usize;
    let bit_position: u32 = irq_number % 32;
    let value: u32 = nvic.iser[register_index] | (1u32 << bit_position);
    nvic.iser[register_index] = value;
}

/// Disables the interrupt line `irq_number`: sets its bit in the
/// clear-enable bank, whose set bits the hardware reads as lines to
/// disable.
pub fn disable_irq(nvic: &mut Nvic, irq_number: u32)
    requires
        nvic_wf(*old(nvic)),
        irq_number < NVIC_MAX_IRQ,
    ensures
        nvic_wf(*final(nvic)),
        final(nvic).icer@ == old(nvic).icer@.update(
            irq_number as int / 32,
            old(nvic).icer@[irq_number as int / 32] | (1u32 << (irq_number % 32)),
        ),
        final(nvic).iser@ == old(nvic).iser@,
        final(nvic).ipr@ == old(nvic).ipr@,
{
    let register_index: usize = (irq_number / 32) as usize;
    let bit_position: u32 = irq_number % 32;
    let value: u32 = nvic.icer[register_index] | (1u32 << bit_position);
    nvic.icer[register_index] = value;
}

/// Sets the global interrupt mask, so that no maskable interrupt is
/// taken until it is cleared again.
pub fn disable_global_interrupt(cpu: &mut Cpu)
    ensures
        final(cpu).primask,
        *final(cpu) == (Cpu { primask: true, ..*old(cpu) }),
{
    cpu.primask = true;
}

/// Clears the global interrupt mask, letting maskable interrupts be
/// taken again.
pub fn enable_global_interrupt(cpu: &mut Cpu)
    ensures
        !final(cpu).primask,
        *final(cpu) == (Cpu { primask: false, ..*old(cpu) }),
{
    cpu.primask = false;
}

/// Writes the priority byte of interrupt line `irq_number`.  The
/// architecture implements the upper four bits of each priority byte, so
/// the value stored is `priority` shifted into them; lower numeric value
/// means higher priority.
pub fn set_interrupt_priority(nvic: &mut Nvic, irq_number: u32, priority: u8)
    requires
        nvic_wf(*old(nvic)),
        irq_number < NVIC_MAX_IRQ,
        priority < 16,
    ensures
        nvic_wf(*final(nvic)),
        final(nvic).ipr@ == old(nvic).ipr@.update(irq_number as int, (priority << 4) as u8),
        final(nvic).iser@ == old(nvic).iser@,
        final(nvic).icer@ == old(nvic).icer@,
{
    let shifted: u8 = priority << 4;
    nvic.ipr[irq_number as usize] = shifted;
}

/// Writes the priority-grouping field of the application interrupt and
/// reset control register: the three grouping bits are replaced by
/// `priority_group` and the register's write key is placed in the upper
/// half-word, as the architecture demands for the write to take effect.
pub fn set_interrupt_priority_grouping(scb: &mut Scb, priority_group: u8)
    requires
        priority_group <= 7,
    ensures
        final(scb).aircr == (old(scb).aircr & !0x700u32) | 0x05FA_0000u32 | ((priority_group
            as u32) << 8),
        *final(scb) == (Scb { aircr: final(scb).aircr, ..*old(scb) }),
{
    let current: u32 = scb.aircr;
    let new_value: u32 = (current & !0x700u32) | 0x05FA_0000u32 | ((priority_group as u32) << 8);
    scb.aircr = new_value;
}

} // verus!
