//! A functional emulator core for a 64-bit RISC-V hart (RV64IMA subset with
//! machine and supervisor privilege, Sv39 paging, and memory-mapped devices),
//! complete enough to boot an xv6-riscv kernel image.
//!
//! The crate models the whole machine as a pure state transformer: every
//! architectural effect of a fetch, an instruction, a trap or an interrupt is
//! specified against a ghost machine state, so the observable behaviour of the
//! core is pinned down by contracts rather than by the code alone.  All host
//! I/O (loading images, pumping console bytes) lives outside this crate; the
//! UART exchanges bytes through explicit buffers.

pub mod bus;
pub mod clint;
pub mod cpu;
pub mod dram;
pub mod inst;
pub mod plic;
pub mod trap;
pub mod uart;
pub mod virtio;
