//! External-interrupt configuration: routing a port pin to its interrupt
//! line, masking, trigger selection and controller enablement.

use vstd::prelude::*;
use crate::cortex_m4::{enable_irq, nvic_wf, Nvic};
use crate::read_write::{bit_is_set, reg_write_bit};
use crate::stm32f407_registers::Rcc;

verus! {

/// The external-interrupt controller registers the driver programs.
pub struct Exti {
    /// Interrupt mask register: a set bit unmasks its line.
    pub imr: u32,
    /// Rising-trigger selection register.
    pub rtsr: u32,
    /// Falling-trigger selection register.
    pub ftsr: u32,
    /// Pending register; the hardware clears a line's pending state when
    /// a one is written to its bit.
    pub pr: u32,
}

impl Exti {
    /// The controller as it reads after reset: every line masked, no
    /// trigger selected, nothing pending.
    pub fn new() -> (exti: Exti)
        ensures
            exti.imr == 0,
            exti.rtsr == 0,
            exti.ftsr == 0,
            exti.pr == 0,
    {
        Exti { imr: 0, rtsr: 0, ftsr: 0, pr: 0 }
    }
}

/// The system-configuration controller's four external-interrupt
/// routing registers: register `r` holds, in four-bit fields, the port
/// selections of lines `4r` through `4r+3`.
pub struct Syscfg {
    pub exticr: Vec<u32>,
}

/// The routing bank has its architectural size.
pub open spec fn syscfg_wf(syscfg: Syscfg) -> bool {
    syscfg.exticr@.len() == 4
}

impl Syscfg {
    /// The controller as it reads after reset: every line routed to
    /// port A.
    pub fn new() -> (syscfg: Syscfg)
        ensures
            syscfg_wf(syscfg),
            forall|j: int| 0 <= j < 4 ==> syscfg.exticr@[j] == 0,
    {
        let mut exticr: Vec<u32> = Vec::new();
        exticr.push(0);
        exticr.push(0);
        exticr.push(0);
        exticr.push(0);
        Syscfg { exticr }
    }
}

/// Gates the system-configuration controller's clock on (`status` true)
/// or off: writes bit 14 of the APB2 clock-enable register.
fn configure_syscfgen_clock(rcc: &mut Rcc, status: bool)
    ensures
        bit_is_set(final(rcc).apb2enr, 14) == status,
        forall|k: u32|
            k < 32 && k != 14 ==> bit_is_set(final(rcc).apb2enr, k) == bit_is_set(
                old(rcc).apb2enr,
                k,
            ),
        final(rcc).ahb1enr == old(rcc).ahb1enr,
{
    let updated: u32 = if status {
        rcc.apb2enr | (1u32 << 14)
    } else {
        rcc.apb2enr & !(1u32 << 14)
    };
    proof {
        let prev = old(rcc).apb2enr;
        assert(bit_is_set(updated, 14) == status && forall|k: u32|
            k < 32 && k != 14 ==> bit_is_set(updated, k) == bit_is_set(prev, k)) by (bit_vector)
            requires
                updated == if status {
                    prev | (1u32 << 14)
                } else {
                    prev & !(1u32 << 14)
                },
        ;
    }
    rcc.apb2enr = updated;
}

/// Routes line `pin` to port `port`: replaces the line's four-bit field
/// in the routing register that covers it, leaving the other fields and
/// registers unchanged.
fn map_exti_line(syscfg: &mut Syscfg, port: u32, pin: u32)
    requires
        syscfg_wf(*old(syscfg)),
        port < 16,
        pin < 16,
    ensures
        syscfg_wf(*final(syscfg)),
        final(syscfg).exticr@ == old(syscfg).exticr@.update(
            pin as int / 4,
            ((old(syscfg).exticr@[pin as int / 4] & !(0xFu32 << ((pin % 4) * 4))) | (port << ((pin
                % 4) * 4))),
        ),
{
    let index: usize = (pin / 4) as usize;
    let shift: u32 = (pin % 4) * 4;
    let mask: u32 = 0xFu32 << shift;
    let mut reg_value: u32 = syscfg.exticr[index];
    reg_value = reg_value & !mask;
    reg_value = reg_value | ((port & 0xF) << shift);
    proof {
        let prev = old(syscfg).exticr@[pin as int / 4];
        assert((prev & !(0xFu32 << ((pin % 4) * 4))) | ((port & 0xF) << ((pin % 4) * 4)) == (prev
            & !(0xFu32 << ((pin % 4) * 4))) | (port << ((pin % 4) * 4))) by (bit_vector)
            requires
                port < 16,
        ;
    }
    syscfg.exticr[index] = reg_value;
}

/// Selects the trigger of line `pin`: `0` sets the line's bit in the
/// rising-trigger register, `1` sets it in the falling-trigger
/// register.  The other register is untouched either way.
fn config_interrupt_trigger(exti: &mut Exti, pin: u32, trigger_type: u32)
    requires
        pin < 16,
        trigger_type <= 1,
    ensures
        trigger_type == 0 ==> final(exti).rtsr == old(exti).rtsr | (1u32 << pin) && final(exti).ftsr == old(exti).ftsr,
        trigger_type == 1 ==> final(exti).ftsr == old(exti).ftsr | (1u32 << pin) && final(exti).rtsr == old(exti).rtsr,
        final(exti).imr == old(exti).imr,
        final(exti).pr == old(exti).pr,
{
    let bit: u32 = 1u32 << pin;
    if trigger_type == 0 {
        let value: u32 = exti.rtsr | bit;
        exti.rtsr = value;
    } else {
        let value: u32 = exti.ftsr | bit;
        exti.ftsr = value;
    }
}

/// Unmasks (`status` true) or masks the interrupt of line `pin`: writes
/// its bit of the interrupt mask register, leaving the other lines as
/// they were.
pub fn configure_interrupt_mask_register(exti: &mut Exti, pin: u32, status: bool)
    requires
        pin < 16,
    ensures
        bit_is_set(final(exti).imr, pin) == status,
        forall|k: u32|
            k < 32 && k != pin ==> bit_is_set(final(exti).imr, k) == bit_is_set(old(exti).imr, k),
        final(exti).rtsr == old(exti).rtsr,
        final(exti).ftsr == old(exti).ftsr,
        final(exti).pr == old(exti).pr,
{
    let value: u32 = reg_write_bit(exti.imr, pin, status);
    exti.imr = value;
}

/// The controller interrupt line that external-interrupt line `pin`
/// raises: lines 0 through 4 each have their own, lines 5 through 9 and
/// 10 through 15 share one each.
pub open spec fn spec_exti_irq_number(pin: u32) -> u32 {
    if pin == 0 {
        6
    } else if pin == 1 {
        7
    } else if pin == 2 {
        8
    } else if pin == 3 {
        9
    } else if pin == 4 {
        10
    } else if pin <= 9 {
        23
    } else {
        40
    }
}

/// Enables, in the interrupt controller, the line that external
/// interrupt `pin` raises.
pub fn enable_nvic_interrupt(nvic: &mut Nvic, pin: u32)
    requires
        nvic_wf(*old(nvic)),
        pin < 16,
    ensures
        nvic_wf(*final(nvic)),
        final(nvic).iser@ == old(nvic).iser@.update(
            spec_exti_irq_number(pin) as int / 32,
            old(nvic).iser@[spec_exti_irq_number(pin) as int / 32] | (1u32 << (
            spec_exti_irq_number(pin) % 32)),
        ),
        final(nvic).icer@ == old(nvic).icer@,
        final(nvic).ipr@ == old(nvic).ipr@,
{
    let irq_number: u32 = if pin == 0 {
        6
    } else if pin == 1 {
        7
    } else if pin == 2 {
        8
    } else if pin == 3 {
        9
    } else if pin == 4 {
        10
    } else if pin <= 9 {
        23
    } else {
        40
    };
    enable_irq(nvic, irq_number);
}

/// Fully configures a port pin as an external-interrupt source: gates
/// the routing controller's clock on, routes the line to the port,
/// unmasks the line, selects its trigger and enables the controller
/// interrupt the line raises.
pub fn configure_gpio_interrupt(
    rcc: &mut Rcc,
    syscfg: &mut Syscfg,
    exti: &mut Exti,
    nvic: &mut Nvic,
    port: u32,
    pin: u32,
    trigger_type: u32,
)
    requires
        syscfg_wf(*old(syscfg)),
        nvic_wf(*old(nvic)),
        port < 9,
        pin < 16,
        trigger_type <= 1,
    ensures
        bit_is_set(final(rcc).apb2enr, 14),
        forall|k: u32|
            k < 32 && k != 14 ==> bit_is_set(final(rcc).apb2enr, k) == bit_is_set(
                old(rcc).apb2enr,
                k,
            ),
        final(rcc).ahb1enr == old(rcc).ahb1enr,
        syscfg_wf(*final(syscfg)),
        final(syscfg).exticr@ == old(syscfg).exticr@.update(
            pin as int / 4,
            ((old(syscfg).exticr@[pin as int / 4] & !(0xFu32 << ((pin % 4) * 4))) | (port << ((pin
                % 4) * 4))),
        ),
        bit_is_set(final(exti).imr, pin),
        forall|k: u32|
            k < 32 && k != pin ==> bit_is_set(final(exti).imr, k) == bit_is_set(old(exti).imr, k),
        trigger_type == 0 ==> final(exti).rtsr == old(exti).rtsr | (1u32 << pin) && final(exti).ftsr == old(exti).ftsr,
        trigger_type == 1 ==> final(exti).ftsr == old(exti).ftsr | (1u32 << pin) && final(exti).rtsr == old(exti).rtsr,
        final(exti).pr == old(exti).pr,
        nvic_wf(*final(nvic)),
        final(nvic).iser@ == old(nvic).iser@.update(
            spec_exti_irq_number(pin) as int / 32,
            old(nvic).iser@[spec_exti_irq_number(pin) as int / 32] | (1u32 << (
            spec_exti_irq_number(pin) % 32)),
        ),
        final(nvic).icer@ == old(nvic).icer@,
        final(nvic).ipr@ == old(nvic).ipr@,
{
    configure_syscfgen_clock(rcc, true);
    map_exti_line(syscfg, port, pin);
    configure_interrupt_mask_register(exti, pin, true);
    config_interrupt_trigger(exti, pin, trigger_type);
    enable_nvic_interrupt(nvic, pin);
}

/// Acknowledges line `pin`: the word written to the pending register has
/// exactly the line's bit set, which the hardware takes as clearing that
/// line's pending state.
pub fn clear_exti_pending(exti: &mut Exti, pin: u32)
    requires
        pin < 16,
    ensures
        final(exti).pr == 1u32 << pin,
        final(exti).imr == old(exti).imr,
        final(exti).rtsr == old(exti).rtsr,
        final(exti).ftsr == old(exti).ftsr,
{
    exti.pr = 1u32 << pin;
}

} // verus!
