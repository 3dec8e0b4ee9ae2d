//! Board user button: an input pin on port A.

use vstd::prelude::*;
use crate::gpio::{gpio_configure_mode, GpioPort};
use crate::led::{GPIO_MODE_INPUT, PORTA};
use crate::read_write::bit_is_set;
use crate::stm32f407_registers::Rcc;

verus! {

/// The pin carrying the user button.
pub const BUTTON_PIN: u32 = 0;

/// The port carrying the user button.
pub const BUTTON_PORT: u32 = PORTA;

/// Configures the button pin as an input (both of its mode bits clear)
/// and gates its port's clock on.  Every other pin's mode bits, the
/// port's other registers and the other clock-enable bits are
/// preserved.
pub fn init_user_button(rcc: &mut Rcc, gpio: &mut GpioPort)
    ensures
        bit_is_set(final(rcc).ahb1enr, BUTTON_PORT),
        forall|k: u32|
            k < 32 && k != BUTTON_PORT ==> bit_is_set(final(rcc).ahb1enr, k) == bit_is_set(
                old(rcc).ahb1enr,
                k,
            ),
        final(rcc).apb2enr == old(rcc).apb2enr,
        !bit_is_set(final(gpio).moder, (2 * BUTTON_PIN) as u32),
        !bit_is_set(final(gpio).moder, (2 * BUTTON_PIN + 1) as u32),
        forall|k: u32|
            2 <= k < 32 ==> bit_is_set(final(gpio).moder, k) == bit_is_set(old(gpio).moder, k),
        *final(gpio) == (GpioPort { moder: final(gpio).moder, ..*old(gpio) }),
{
    gpio_configure_mode(rcc, gpio, BUTTON_PORT, BUTTON_PIN, GPIO_MODE_INPUT);
    proof {
        assert(!bit_is_set(0u32, 0) && !bit_is_set(0u32, 1)) by (bit_vector);
    }
}

} // verus!
