//! Board LEDs: four user LEDs on pins 12 through 15 of port D.

use vstd::prelude::*;
use crate::gpio::{gpio_configure_mode, gpio_output_type_configure, gpio_write, toggle_gpio, GpioPort};
use crate::read_write::bit_is_set;
use crate::stm32f407_registers::Rcc;

verus! {

pub const PORTA: u32 = 0;

pub const PORTB: u32 = 1;

pub const PORTC: u32 = 2;

pub const PORTD: u32 = 3;

pub const GPIO_MODE_INPUT: u32 = 0;

pub const GPIO_MODE_GP_OUTPUT: u32 = 1;

pub const GPIO_MODE_ALTERNATE: u32 = 2;

pub const GPIO_MODE_ANALOG: u32 = 3;

pub const GPIO_OUTPUT_PUSH_PULL: u32 = 0;

pub const GPIO_OUTPUT_OPEN_DRAIN: u32 = 1;

pub const LED_OFF: bool = false;

pub const LED_ON: bool = true;

/// The port carrying the user LEDs.
pub const LED_PORT: u32 = PORTD;

pub const LED_1_PIN: u32 = 12;

pub const LED_2_PIN: u32 = 13;

pub const LED_3_PIN: u32 = 14;

pub const LED_4_PIN: u32 = 15;

/// Whether pin `pin` of `gpio` is configured as a push-pull
/// general-purpose output.
pub open spec fn pin_is_gp_output(gpio: GpioPort, pin: u32) -> bool {
    &&& bit_is_set(gpio.moder, (2 * pin) as u32)
    &&& !bit_is_set(gpio.moder, (2 * pin + 1) as u32)
    &&& !bit_is_set(gpio.otyper, pin)
}

/// Configures all four LED pins of the LED port as push-pull outputs and
/// gates the port's clock on.  Every other pin's configuration — its
/// mode and output-type bits, and the untouched speed and pull
/// registers — is preserved, as are the other clock-enable bits.
pub fn init_led(rcc: &mut Rcc, gpio: &mut GpioPort)
    ensures
        bit_is_set(final(rcc).ahb1enr, LED_PORT),
        forall|k: u32|
            k < 32 && k != LED_PORT ==> bit_is_set(final(rcc).ahb1enr, k) == bit_is_set(
                old(rcc).ahb1enr,
                k,
            ),
        final(rcc).apb2enr == old(rcc).apb2enr,
        pin_is_gp_output(*final(gpio), LED_1_PIN),
        pin_is_gp_output(*final(gpio), LED_2_PIN),
        pin_is_gp_output(*final(gpio), LED_3_PIN),
        pin_is_gp_output(*final(gpio), LED_4_PIN),
        forall|k: u32|
            k < 24 ==> bit_is_set(final(gpio).moder, k) == bit_is_set(old(gpio).moder, k),
        forall|k: u32|
            k < 32 && !(12 <= k < 16) ==> bit_is_set(final(gpio).otyper, k) == bit_is_set(
                old(gpio).otyper,
                k,
            ),
        final(gpio).ospeedr == old(gpio).ospeedr,
        final(gpio).pupdr == old(gpio).pupdr,
        final(gpio).odr == old(gpio).odr,
        final(gpio).idr == old(gpio).idr,
{
    gpio_configure_mode(rcc, gpio, LED_PORT, LED_1_PIN, GPIO_MODE_GP_OUTPUT);
    gpio_configure_mode(rcc, gpio, LED_PORT, LED_2_PIN, GPIO_MODE_GP_OUTPUT);
    gpio_configure_mode(rcc, gpio, LED_PORT, LED_3_PIN, GPIO_MODE_GP_OUTPUT);
    gpio_configure_mode(rcc, gpio, LED_PORT, LED_4_PIN, GPIO_MODE_GP_OUTPUT);

    gpio_output_type_configure(gpio, LED_1_PIN, GPIO_OUTPUT_PUSH_PULL);
    gpio_output_type_configure(gpio, LED_2_PIN, GPIO_OUTPUT_PUSH_PULL);
    gpio_output_type_configure(gpio, LED_3_PIN, GPIO_OUTPUT_PUSH_PULL);
    gpio_output_type_configure(gpio, LED_4_PIN, GPIO_OUTPUT_PUSH_PULL);
    proof {
        assert(bit_is_set(1u32, 0) && !bit_is_set(1u32, 1) && !bit_is_set(0u32, 0))
            by (bit_vector);
    }
}

/// Drives the first LED's pin high; the other pins keep their levels.
pub fn led1_on(gpio: &mut GpioPort)
    ensures
        bit_is_set(final(gpio).odr, LED_1_PIN),
        forall|k: u32|
            k < 32 && k != LED_1_PIN ==> bit_is_set(final(gpio).odr, k) == bit_is_set(
                old(gpio).odr,
                k,
            ),
        *final(gpio) == (GpioPort { odr: final(gpio).odr, ..*old(gpio) }),
{
    gpio_write(gpio, LED_1_PIN, LED_ON);
}

/// Drives the second LED's pin high; the other pins keep their levels.
pub fn led2_on(gpio: &mut GpioPort)
    ensures
        bit_is_set(final(gpio).odr, LED_2_PIN),
        forall|k: u32|
            k < 32 && k != LED_2_PIN ==> bit_is_set(final(gpio).odr, k) == bit_is_set(
                old(gpio).odr,
                k,
            ),
        *final(gpio) == (GpioPort { odr: final(gpio).odr, ..*old(gpio) }),
{
    gpio_write(gpio, LED_2_PIN, LED_ON);
}

/// Drives the third LED's pin high; the other pins keep their levels.
pub fn led3_on(gpio: &mut GpioPort)
    ensures
        bit_is_set(final(gpio).odr, LED_3_PIN),
        forall|k: u32|
            k < 32 && k != LED_3_PIN ==> bit_is_set(final(gpio).odr, k) == bit_is_set(
                old(gpio).odr,
                k,
            ),
        *final(gpio) == (GpioPort { odr: final(gpio).odr, ..*old(gpio) }),
{
    gpio_write(gpio, LED_3_PIN, LED_ON);
}

/// Drives the fourth LED's pin high; the other pins keep their levels.
pub fn led4_on(gpio: &mut GpioPort)
    ensures
        bit_is_set(final(gpio).odr, LED_4_PIN),
        forall|k: u32|
            k < 32 && k != LED_4_PIN ==> bit_is_set(final(gpio).odr, k) == bit_is_set(
                old(gpio).odr,
                k,
            ),
        *final(gpio) == (GpioPort { odr: final(gpio).odr, ..*old(gpio) }),
{
    gpio_write(gpio, LED_4_PIN, LED_ON);
}

/// Inverts the first LED's pin; the other pins keep their levels.
pub fn led1_toggle(gpio: &mut GpioPort)
    ensures
        final(gpio).odr == old(gpio).odr ^ (1u32 << LED_1_PIN),
        *final(gpio) == (GpioPort { odr: final(gpio).odr, ..*old(gpio) }),
{
    toggle_gpio(gpio, LED_1_PIN);
}

/// Inverts the second LED's pin; the other pins keep their levels.
pub fn led2_toggle(gpio: &mut GpioPort)
    ensures
        final(gpio).odr == old(gpio).odr ^ (1u32 << LED_2_PIN),
        *final(gpio) == (GpioPort { odr: final(gpio).odr, ..*old(gpio) }),
{
    toggle_gpio(gpio, LED_2_PIN);
}

/// Inverts the third LED's pin; the other pins keep their levels.
pub fn led3_toggle(gpio: &mut GpioPort)
    ensures
        final(gpio).odr == old(gpio).odr ^ (1u32 << LED_3_PIN),
        *final(gpio) == (GpioPort { odr: final(gpio).odr, ..*old(gpio) }),
{
    toggle_gpio(gpio, LED_3_PIN);
}

/// Inverts the fourth LED's pin; the other pins keep their levels.
pub fn led4_toggle(gpio: &mut GpioPort)
    ensures
        final(gpio).odr == old(gpio).odr ^ (1u32 << LED_4_PIN),
        *final(gpio) == (GpioPort { odr: final(gpio).odr, ..*old(gpio) }),
{
    toggle_gpio(gpio, LED_4_PIN);
}

} // verus!
