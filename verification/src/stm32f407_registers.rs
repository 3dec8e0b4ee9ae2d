//! Register addresses of the target microcontroller, and the model of
//! its reset and clock control block.
//!
//! The addresses are fixed by the device's memory map; the unverified
//! shell uses them to carry the register words the library computes to
//! the memory-mapped bus.

use vstd::prelude::*;

verus! {

/// Reset and clock control block base address.
pub const RCC_BASE: u32 = 0x4002_3800;

/// System configuration controller base address.
pub const SYSCFG_BASE: u32 = 0x4001_3800;

/// General-purpose I/O port base addresses, ports A through I.
pub const GPIO_A_BASE: u32 = 0x4002_0000;

pub const GPIO_B_BASE: u32 = 0x4002_0400;

pub const GPIO_C_BASE: u32 = 0x4002_0800;

pub const GPIO_D_BASE: u32 = 0x4002_0C00;

pub const GPIO_E_BASE: u32 = 0x4002_1000;

pub const GPIO_F_BASE: u32 = 0x4002_1400;

pub const GPIO_G_BASE: u32 = 0x4002_1800;

pub const GPIO_H_BASE: u32 = 0x4002_1C00;

pub const GPIO_I_BASE: u32 = 0x4002_2000;

/// External-interrupt controller base address.
pub const EXTI_BASE: u32 = 0x4001_3C00;

/// Nested vectored interrupt controller register addresses.
pub const NVIC_BASE: u32 = 0xE000_E100;

pub const NVIC_ISER: u32 = NVIC_BASE;

pub const NVIC_ICER: u32 = NVIC_BASE + 0x80;

pub const NVIC_IPR: u32 = 0xE000_E400;

/// Application interrupt and reset control register address.
pub const SCB_AIRCR_BASE: u32 = 0xE000_ED0C;

/// System timer block base address.
pub const SYSTICK_BASE: u32 = 0xE000_E010;

/// The reset and clock control registers the drivers program.
pub struct Rcc {
    /// AHB1 peripheral clock enable register (offset 0x30): bit `p`
    /// gates the clock of GPIO port `p`.
    pub ahb1enr: u32,
    /// APB2 peripheral clock enable register (offset 0x44): bit 14 gates
    /// the system configuration controller's clock.
    pub apb2enr: u32,
}

impl Rcc {
    /// The block as it reads after reset: all peripheral clocks gated.
    pub fn new() -> (rcc: Rcc)
        ensures
            rcc.ahb1enr == 0,
            rcc.apb2enr == 0,
    {
        Rcc { ahb1enr: 0, apb2enr: 0 }
    }
}

} // verus!
