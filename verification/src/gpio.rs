//! General-purpose I/O driver: configuration and pin control for one
//! port's register block.
//!
//! Port indices follow the device's convention: `0` is port A up to `8`
//! for port I.  A pin index is in `0..16`.  Pin modes, output types,
//! speeds and pull settings use the two-bit encodings of the device's
//! reference manual, documented on each function.

use vstd::prelude::*;
use crate::read_write::{bit_is_set, reg_read_bit_value, reg_write_bit, reg_write_bits};
use crate::stm32f407_registers::{
    Rcc,
    GPIO_A_BASE,
    GPIO_B_BASE,
    GPIO_C_BASE,
    GPIO_D_BASE,
    GPIO_E_BASE,
    GPIO_F_BASE,
    GPIO_G_BASE,
    GPIO_H_BASE,
    GPIO_I_BASE,
};

verus! {

/// Number of ports the device exposes, A through I.
pub const GPIO_PORT_COUNT: u32 = 9;

/// Number of pins on each port.
pub const GPIO_PIN_COUNT: u32 = 16;

/// One port's register block.
///
/// Each register is the 32-bit word at the documented offset from the
/// port's base address: mode (0x00), output type (0x04), output speed
/// (0x08), pull-up/pull-down (0x0C), input data (0x10) and output data
/// (0x14).
pub struct GpioPort {
    /// Two bits per pin: pin `p` occupies bits `2p+1:2p`.
    pub moder: u32,
    /// One bit per pin.
    pub otyper: u32,
    /// Two bits per pin.
    pub ospeedr: u32,
    /// Two bits per pin.
    pub pupdr: u32,
    /// One bit per pin; the hardware drives this register from the pins.
    pub idr: u32,
    /// One bit per pin.
    pub odr: u32,
}

impl GpioPort {
    /// A port whose writable registers read zero, as after reset on the
    /// general-purpose ports.
    pub fn new() -> (port: GpioPort)
        ensures
            port.moder == 0,
            port.otyper == 0,
            port.ospeedr == 0,
            port.pupdr == 0,
            port.idr == 0,
            port.odr == 0,
    {
        GpioPort { moder: 0, otyper: 0, ospeedr: 0, pupdr: 0, idr: 0, odr: 0 }
    }
}

/// The base address of port `port`, as the memory map fixes it.
pub open spec fn spec_gpio_base(port: u32) -> u32 {
    if port == 0 {
        GPIO_A_BASE
    } else if port == 1 {
        GPIO_B_BASE
    } else if port == 2 {
        GPIO_C_BASE
    } else if port == 3 {
        GPIO_D_BASE
    } else if port == 4 {
        GPIO_E_BASE
    } else if port == 5 {
        GPIO_F_BASE
    } else if port == 6 {
        GPIO_G_BASE
    } else if port == 7 {
        GPIO_H_BASE
    } else {
        GPIO_I_BASE
    }
}

/// Returns the base address of the register block of port `port`.
pub fn select_gpio_base(port: u32) -> (base: u32)
    requires
        port < GPIO_PORT_COUNT,
    ensures
        base == spec_gpio_base(port),
{
    match port {
        0 => GPIO_A_BASE,
        1 => GPIO_B_BASE,
        2 => GPIO_C_BASE,
        3 => GPIO_D_BASE,
        4 => GPIO_E_BASE,
        5 => GPIO_F_BASE,
        6 => GPIO_G_BASE,
        7 => GPIO_H_BASE,
        _ => GPIO_I_BASE,
    }
}

/// Gates port `port`'s clock on (`enable` true) or off: writes its bit
/// in the AHB1 clock-enable register and touches nothing else.
fn configure_gpio_clock(rcc: &mut Rcc, port: u32, enable: bool)
    requires
        port < GPIO_PORT_COUNT,
    ensures
        bit_is_set(final(rcc).ahb1enr, port) == enable,
        forall|k: u32|
            k < 32 && k != port ==> bit_is_set(final(rcc).ahb1enr, k) == bit_is_set(
                old(rcc).ahb1enr,
                k,
            ),
        final(rcc).apb2enr == old(rcc).apb2enr,
{
    let value: u32 = reg_write_bit(rcc.ahb1enr, port, enable);
    rcc.ahb1enr = value;
}

/// Configures pin `pin` of `gpio` to `mode`: `0` input, `1` output, `2`
/// alternate function, `3` analog.  Also gates the port's clock on,
/// since the port ignores register writes without it.
pub fn gpio_configure_mode(rcc: &mut Rcc, gpio: &mut GpioPort, port: u32, pin: u32, mode: u32)
    requires
        port < GPIO_PORT_COUNT,
        pin < GPIO_PIN_COUNT,
        mode <= 3,
    ensures
        bit_is_set(final(rcc).ahb1enr, port),
        forall|k: u32|
            k < 32 && k != port ==> bit_is_set(final(rcc).ahb1enr, k) == bit_is_set(
                old(rcc).ahb1enr,
                k,
            ),
        final(rcc).apb2enr == old(rcc).apb2enr,
        bit_is_set(final(gpio).moder, (2 * pin) as u32) == bit_is_set(mode, 0),
        bit_is_set(final(gpio).moder, (2 * pin + 1) as u32) == bit_is_set(mode, 1),
        forall|k: u32|
            k < 32 && k != 2 * pin && k != 2 * pin + 1 ==> bit_is_set(final(gpio).moder, k)
                == bit_is_set(old(gpio).moder, k),
        *final(gpio) == (GpioPort { moder: final(gpio).moder, ..*old(gpio) }),
{
    configure_gpio_clock(rcc, port, true);
    let value: u32 = reg_write_bits(gpio.moder, mode, pin * 2, 2);
    gpio.moder = value;
}

/// Configures pin `pin`'s output type: `0` push-pull, `1` open-drain.
pub fn gpio_output_type_configure(gpio: &mut GpioPort, pin: u32, output_type: u32)
    requires
        pin < GPIO_PIN_COUNT,
        output_type <= 1,
    ensures
        bit_is_set(final(gpio).otyper, pin) == bit_is_set(output_type, 0),
        forall|k: u32|
            k < 32 && k != pin ==> bit_is_set(final(gpio).otyper, k) == bit_is_set(
                old(gpio).otyper,
                k,
            ),
        *final(gpio) == (GpioPort { otyper: final(gpio).otyper, ..*old(gpio) }),
{
    let value: u32 = reg_write_bits(gpio.otyper, output_type, pin, 1);
    gpio.otyper = value;
}

/// Configures pin `pin`'s output speed: `0` low, `1` medium, `2` fast,
/// `3` high.
pub fn gpio_output_speed_configure(gpio: &mut GpioPort, pin: u32, output_speed: u32)
    requires
        pin < GPIO_PIN_COUNT,
        output_speed <= 3,
    ensures
        bit_is_set(final(gpio).ospeedr, (2 * pin) as u32) == bit_is_set(output_speed, 0),
        bit_is_set(final(gpio).ospeedr, (2 * pin + 1) as u32) == bit_is_set(output_speed, 1),
        forall|k: u32|
            k < 32 && k != 2 * pin && k != 2 * pin + 1 ==> bit_is_set(final(gpio).ospeedr, k)
                == bit_is_set(old(gpio).ospeedr, k),
        *final(gpio) == (GpioPort { ospeedr: final(gpio).ospeedr, ..*old(gpio) }),
{
    let value: u32 = reg_write_bits(gpio.ospeedr, output_speed, pin * 2, 2);
    gpio.ospeedr = value;
}

/// Configures pin `pin`'s pull resistors: `0` none, `1` pull-up, `2`
/// pull-down.
pub fn gpio_pulup_puldown_configure(gpio: &mut GpioPort, pin: u32, pull_up_down: u32)
    requires
        pin < GPIO_PIN_COUNT,
        pull_up_down <= 2,
    ensures
        bit_is_set(final(gpio).pupdr, (2 * pin) as u32) == bit_is_set(pull_up_down, 0),
        bit_is_set(final(gpio).pupdr, (2 * pin + 1) as u32) == bit_is_set(pull_up_down, 1),
        forall|k: u32|
            k < 32 && k != 2 * pin && k != 2 * pin + 1 ==> bit_is_set(final(gpio).pupdr, k)
                == bit_is_set(old(gpio).pupdr, k),
        *final(gpio) == (GpioPort { pupdr: final(gpio).pupdr, ..*old(gpio) }),
{
    let value: u32 = reg_write_bits(gpio.pupdr, pull_up_down, pin * 2, 2);
    gpio.pupdr = value;
}

/// Reads pin `pin`'s input level: true when the pin reads high.
pub fn gpio_read(gpio: &GpioPort, pin: u32) -> (level: bool)
    requires
        pin < GPIO_PIN_COUNT,
    ensures
        level == bit_is_set(gpio.idr, pin),
{
    reg_read_bit_value(gpio.idr, pin)
}

/// Drives pin `pin` high (`status` true) or low: writes its bit of the
/// output data register and leaves the other pins as they were.
pub fn gpio_write(gpio: &mut GpioPort, pin: u32, status: bool)
    requires
        pin < GPIO_PIN_COUNT,
    ensures
        bit_is_set(final(gpio).odr, pin) == status,
        forall|k: u32|
            k < 32 && k != pin ==> bit_is_set(final(gpio).odr, k) == bit_is_set(old(gpio).odr, k),
        *final(gpio) == (GpioPort { odr: final(gpio).odr, ..*old(gpio) }),
{
    let value: u32 = reg_write_bit(gpio.odr, pin, status);
    gpio.odr = value;
}

/// Inverts pin `pin`'s output level and leaves the other pins as they
/// were.
pub fn toggle_gpio(gpio: &mut GpioPort, pin: u32)
    requires
        pin < GPIO_PIN_COUNT,
    ensures
        final(gpio).odr == old(gpio).odr ^ (1u32 << pin),
        bit_is_set(final(gpio).odr, pin) == !bit_is_set(old(gpio).odr, pin),
        forall|k: u32|
            k < 32 && k != pin ==> bit_is_set(final(gpio).odr, k) == bit_is_set(old(gpio).odr, k),
        *final(gpio) == (GpioPort { odr: final(gpio).odr, ..*old(gpio) }),
{
    let toggled: u32 = gpio.odr ^ (1u32 << pin);
    proof {
        let prev = old(gpio).odr;
        assert(bit_is_set(toggled, pin) == !bit_is_set(prev, pin) && forall|k: u32|
            k < 32 && k != pin ==> bit_is_set(toggled, k) == bit_is_set(prev, k)) by (bit_vector)
            requires
                pin < 32,
                toggled == prev ^ (1u32 << pin),
        ;
    }
    gpio.odr = toggled;
}

} // verus!
