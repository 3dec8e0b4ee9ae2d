//! A preemptive multitasking micro-kernel core for an ARMv7-M class
//! processor, together with the board-support drivers it is usually
//! deployed with.
//!
//! Every hardware register the kernel and the drivers program is modelled
//! as plain data: a peripheral is a struct whose fields carry the register
//! words, the task stacks live in a word vector that mirrors the SRAM
//! region they occupy, and the processor state the context switch touches
//! (callee-saved registers, the two stack pointers, the stack-pointer
//! selector) is a struct of its own.  Each operation states in its
//! contract exactly which register words it produces, so the scheduler,
//! the stack initializer and the context-switch engine are verified
//! end to end.  Performing the volatile accesses that carry these values
//! to a real memory-mapped bus is the thin unverified shell's job.

pub mod button;
pub mod cortex_m4;
pub mod exti;
pub mod gpio;
pub mod led;
pub mod os;
pub mod os_config;
pub mod read_write;
pub mod stm32f407_registers;
pub mod systick;
