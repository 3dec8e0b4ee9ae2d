//! System timer: the 24-bit down-counter that paces the kernel tick.
//!
//! The three programmable registers are modelled as plain words: the
//! control and status register, the reload register and the current
//! value register.  Each operation's contract states the exact register
//! words it leaves behind; counting, and the wait for the count flag
//! that the delay operations perform, are the hardware's part and happen
//! where the words reach a real timer.
//!
//! A target has exactly one such timer, so exactly one [`SysTick`]
//! value should stand for it; the model has a plain constructor, and
//! guarding that unique ownership is the surrounding shell's concern.

use vstd::prelude::*;

verus! {

/// Largest value the 24-bit reload register can hold.
pub const SYSTICK_RVR_MAX: u32 = 0x00FF_FFFF;

/// Control-register bit positions: counter enable, interrupt enable,
/// clock-source select and the count flag.
pub const SYSTICK_CSR_ENABLE_BIT: u32 = 0;

pub const SYSTICK_CSR_TICKINT_BIT: u32 = 1;

pub const SYSTICK_CSR_CLKSOURCE_BIT: u32 = 2;

pub const SYSTICK_CSR_COUNTFLAG_BIT: u32 = 16;

/// What clocks the counter: an external reference or the core clock.
pub enum ClockSource {
    External,
    Core,
}

/// The system timer's programmable registers.
pub struct SysTick {
    /// Control and status register.
    pub st_csr: u32,
    /// Reload value register; only its low 24 bits are implemented.
    pub st_rvr: u32,
    /// Current value register.
    pub st_cvr: u32,
}

impl SysTick {
    /// The timer disabled, with nothing loaded.
    pub fn new() -> (systick: SysTick)
        ensures
            systick.st_csr == 0,
            systick.st_rvr == 0,
            systick.st_cvr == 0,
    {
        SysTick { st_csr: 0, st_rvr: 0, st_cvr: 0 }
    }

    /// Starts the counter without an interrupt: loads the reload value
    /// (clipped to the implemented 24 bits), clears the current count
    /// and enables counting from the selected clock.
    pub fn init(&mut self, reload: u32, clk_source: ClockSource)
        ensures
            final(self).st_rvr == reload & SYSTICK_RVR_MAX,
            final(self).st_cvr == 0,
            final(self).st_csr == match clk_source {
                ClockSource::Core => 0b101u32,
                ClockSource::External => 0b001u32,
            },
    {
        self.st_csr = 0;
        self.st_rvr = reload & SYSTICK_RVR_MAX;
        self.st_cvr = 0;
        let mut control: u32 = 1u32 << SYSTICK_CSR_ENABLE_BIT;
        if let ClockSource::Core = clk_source {
            control = control | (1u32 << SYSTICK_CSR_CLKSOURCE_BIT);
        }
        proof {
            assert(1u32 << 0 == 1 && (1u32 << 0) | (1u32 << 2) == 5) by (bit_vector);
        }
        self.st_csr = control;
    }

    /// Busy-waits for `us` microseconds on a core clock of
    /// `core_clk_mhz` megahertz.
    pub fn delay_us(&mut self, us: u32, core_clk_mhz: u32)
        requires
            1 <= core_clk_mhz * us <= SYSTICK_RVR_MAX + 1,
        ensures
            final(self).st_rvr == core_clk_mhz * us - 1,
            final(self).st_cvr == 0,
            final(self).st_csr == 0,
    {
        let ticks: u32 = core_clk_mhz * us;
        self.delay_ticks(ticks);
    }

    /// Busy-waits for `ms` milliseconds on a core clock of
    /// `core_clk_mhz` megahertz.
    pub fn delay_ms(&mut self, ms: u32, core_clk_mhz: u32)
        requires
            1 <= core_clk_mhz * 1000 * ms <= SYSTICK_RVR_MAX + 1,
            ms * 1000 <= u32::MAX,
        ensures
            final(self).st_rvr == core_clk_mhz * 1000 * ms - 1,
            final(self).st_cvr == 0,
            final(self).st_csr == 0,
    {
        proof {
            assert(core_clk_mhz * 1000 * ms == core_clk_mhz * (ms * 1000)) by (nonlinear_arith);
        }
        self.delay_us(ms * 1_000, core_clk_mhz);
    }

    /// Counts `ticks` core-clock cycles once: loads `ticks - 1`, counts
    /// down to zero on the core clock, then disables the counter again.
    /// The wait for the count flag happens at the hardware; the contract
    /// states the register words the operation leaves behind.
    pub fn delay_ticks(&mut self, ticks: u32)
        requires
            1 <= ticks <= SYSTICK_RVR_MAX + 1,
        ensures
            final(self).st_rvr == ticks - 1,
            final(self).st_cvr == 0,
            final(self).st_csr == 0,
    {
        self.st_csr = 0;
        proof {
            assert(ticks - 1 == (ticks - 1) as u32 & 0x00FF_FFFFu32) by (bit_vector)
                requires
                    1 <= ticks <= 0x0100_0000u32,
            ;
        }
        self.st_rvr = (ticks - 1) & SYSTICK_RVR_MAX;
        self.st_cvr = 0;
        self.st_csr = (1u32 << SYSTICK_CSR_ENABLE_BIT) | (1u32 << SYSTICK_CSR_CLKSOURCE_BIT);
        self.st_csr = 0;
    }

    /// The current count.
    pub fn current(&self) -> (count: u32)
        ensures
            count == self.st_cvr,
    {
        self.st_cvr
    }

    /// Whether the counter has reached zero since the flag was last
    /// read: bit 16 of the control and status register.
    pub fn has_wrapped(&self) -> (wrapped: bool)
        ensures
            wrapped == (self.st_csr & 0x0001_0000u32 != 0),
    {
        proof {
            assert(1u32 << 16 == 0x0001_0000u32) by (bit_vector);
        }
        self.st_csr & (1u32 << SYSTICK_CSR_COUNTFLAG_BIT) != 0
    }

    /// Programs a periodic interrupt every `interval_us` microseconds on
    /// a core clock of `core_clk_mhz` megahertz.
    pub fn init_systic_interrupt_us(&mut self, interval_us: u32, core_clk_mhz: u32)
        requires
            1 <= core_clk_mhz * interval_us <= SYSTICK_RVR_MAX + 1,
        ensures
            final(self).st_rvr == core_clk_mhz * interval_us - 1,
            final(self).st_cvr == 0,
            final(self).st_csr == 0b111u32,
    {
        let ticks: u32 = core_clk_mhz * interval_us;
        self.configure_interrupt_ticks(ticks);
    }

    /// Programs a periodic interrupt every `interval_ms` milliseconds on
    /// a core clock of `core_clk_mhz` megahertz.
    pub fn init_systic_interrupt_ms(&mut self, interval_ms: u32, core_clk_mhz: u32)
        requires
            1 <= core_clk_mhz * 1000 * interval_ms <= SYSTICK_RVR_MAX + 1,
            core_clk_mhz * 1000 <= u32::MAX,
        ensures
            final(self).st_rvr == core_clk_mhz * 1000 * interval_ms - 1,
            final(self).st_cvr == 0,
            final(self).st_csr == 0b111u32,
    {
        let ticks: u32 = core_clk_mhz * 1_000 * interval_ms;
        self.configure_interrupt_ticks(ticks);
    }

    /// Loads a reload value of `ticks - 1` cycles, clears the current
    /// count, and enables counting on the core clock with the interrupt
    /// unmasked, so the timer fires every `ticks` cycles.
    fn configure_interrupt_ticks(&mut self, ticks: u32)
        requires
            1 <= ticks <= SYSTICK_RVR_MAX + 1,
        ensures
            final(self).st_rvr == ticks - 1,
            final(self).st_cvr == 0,
            final(self).st_csr == 0b111u32,
    {
        self.st_csr = 0;
        proof {
            assert(ticks - 1 == (ticks - 1) as u32 & 0x00FF_FFFFu32) by (bit_vector)
                requires
                    1 <= ticks <= 0x0100_0000u32,
            ;
            assert((1u32 << 0) | (1u32 << 2) | (1u32 << 1) == 7) by (bit_vector);
        }
        self.st_rvr = (ticks - 1) & SYSTICK_RVR_MAX;
        self.st_cvr = 0;
        let control: u32 = (1u32 << SYSTICK_CSR_ENABLE_BIT) | (1u32 << SYSTICK_CSR_CLKSOURCE_BIT)
            | (1u32 << SYSTICK_CSR_TICKINT_BIT);
        self.st_csr = control;
    }
}

} // verus!
