//! A 16550a-style UART, modelled as a pure state machine.
//!
//! The device keeps its register file, its pending-interrupt flag and a
//! buffer of transmitted bytes as plain state.  The host hands received
//! bytes in through [`Uart::recv_byte`] and drains the transmit buffer with
//! [`Uart::take_output`]; no I/O happens inside the core.

use vstd::prelude::*;

use crate::bus::{Device, UART_BASE, UART_SIZE};
use crate::trap::Exception;

verus! {

/// The interrupt request number of the UART.
pub const UART_IRQ: u64 = 10;

/// Receive holding register (for input bytes).
pub const UART_RHR: u64 = UART_BASE + 0;
/// Transmit holding register (for output bytes).
pub const UART_THR: u64 = UART_BASE + 0;
/// Line control register.
pub const UART_LCR: u64 = UART_BASE + 3;
/// Line status register.  Bit 0 set means a byte is waiting in the receive
/// holding register; bit 5 set means the transmit holding register is empty.
pub const UART_LSR: u64 = UART_BASE + 5;

/// The receiver-ready (RX) bit of the line status register.
pub const UART_LSR_RX: u8 = 1;
/// The transmitter-empty (TX) bit of the line status register.
pub const UART_LSR_TX: u8 = 1 << 5;

/// The mathematical state of the UART: its register bytes, the
/// pending-interrupt flag, and the bytes written to the transmit holding
/// register so far (oldest first).
#[verifier::ext_equal]
pub struct UartState {
    pub regs: Seq<u8>,
    pub interrupting: bool,
    pub tx: Seq<u8>,
}

/// The UART device.
pub struct Uart {
    regs: [u8; 256],
    interrupting: bool,
    tx: Vec<u8>,
}

impl View for Uart {
    type V = UartState;

    closed spec fn view(&self) -> UartState {
        UartState { regs: self.regs@, interrupting: self.interrupting, tx: self.tx@ }
    }
}

/// What an 8-bit UART load does.  Reading the receive holding register
/// clears the RX-ready bit (so the host may deposit the next byte); reading
/// any other register has no side effect.
pub open spec fn spec_uart_load8(u: UartState, addr: u64) -> (UartState, u64) {
    if addr == UART_RHR {
        (
            UartState {
                regs: u.regs.update(
                    UART_LSR - UART_BASE,
                    (u.regs[UART_LSR - UART_BASE] & !UART_LSR_RX) as u8,
                ),
                ..u
            },
            u.regs[UART_RHR - UART_BASE] as u64,
        )
    } else {
        (u, u.regs[addr - UART_BASE] as u64)
    }
}

/// What an 8-bit UART store does.  Writing the transmit holding register
/// appends the byte to the transmit buffer; writing any other register
/// replaces its byte.
pub open spec fn spec_uart_store8(u: UartState, addr: u64, value: u64) -> UartState {
    if addr == UART_THR {
        UartState { tx: u.tx.push(value as u8), ..u }
    } else {
        UartState { regs: u.regs.update(addr - UART_BASE, value as u8), ..u }
    }
}

/// What depositing a received byte does.  If the RX-ready bit is clear the
/// byte lands in the receive holding register, RX-ready is set and an
/// interrupt becomes pending; otherwise the byte is refused and nothing
/// changes.
pub open spec fn spec_uart_recv(u: UartState, byte: u8) -> (UartState, bool) {
    if u.regs[UART_LSR - UART_BASE] & UART_LSR_RX == 0 {
        (
            UartState {
                regs: u.regs.update(UART_RHR - UART_BASE, byte).update(
                    UART_LSR - UART_BASE,
                    (u.regs[UART_LSR - UART_BASE] | UART_LSR_RX) as u8,
                ),
                interrupting: true,
                tx: u.tx,
            },
            true,
        )
    } else {
        (u, false)
    }
}

impl Device for Uart {
    open spec fn inv(&self) -> bool {
        true
    }

    open spec fn addr_ok(addr: u64) -> bool {
        UART_BASE <= addr < UART_BASE + UART_SIZE
    }

    open spec fn load_result(pre: UartState, addr: u64, size: u64) -> (UartState, Result<
        u64,
        Exception,
    >) {
        if size == 8 {
            let (post, v) = spec_uart_load8(pre, addr);
            (post, Ok(v))
        } else {
            (pre, Err(Exception::LoadAccessFault))
        }
    }

    open spec fn store_result(pre: UartState, addr: u64, size: u64, value: u64) -> (
        UartState,
        Result<(), Exception>,
    ) {
        if size == 8 {
            (spec_uart_store8(pre, addr, value), Ok(()))
        } else {
            (pre, Err(Exception::StoreAMOAccessFault))
        }
    }

    fn load(&mut self, addr: u64, size: u64) -> (r: Result<u64, Exception>) {
        match size {
            8 => Ok(self.load8(addr)),
            _ => Err(Exception::LoadAccessFault),
        }
    }

    fn store(&mut self, addr: u64, size: u64, value: u64) -> (r: Result<(), Exception>) {
        match size {
            8 => Ok(self.store8(addr, value)),
            _ => Err(Exception::StoreAMOAccessFault),
        }
    }
}

impl Uart {
    /// Create a new UART: all registers zero except the line status
    /// register, which asserts transmitter-empty; no pending interrupt and
    /// an empty transmit buffer.
    pub fn new() -> (r: Uart)
        ensures
            r@.regs.len() == 256,
            forall|i: int|
                0 <= i < 256 && i != UART_LSR - UART_BASE ==> r@.regs[i] == 0,
            r@.regs[UART_LSR - UART_BASE] == UART_LSR_TX,
            !r@.interrupting,
            r@.tx == Seq::<u8>::empty(),
    {
        let mut regs = [0u8; 256];
        regs[(UART_LSR - UART_BASE) as usize] = UART_LSR_TX;
        Uart { regs, interrupting: false, tx: Vec::new() }
    }

    /// Report whether an interrupt is pending, clearing the flag.
    pub fn is_interrupting(&mut self) -> (r: bool)
        ensures
            r == old(self)@.interrupting,
            final(self)@ == (UartState { interrupting: false, ..old(self)@ }),
    {
        let r = self.interrupting;
        self.interrupting = false;
        proof {
            assert(self@ =~= (UartState { interrupting: false, ..old(self)@ }));
        }
        r
    }

    /// Deposit a byte received from the host, if the receive holding
    /// register is free.  Returns whether the byte was accepted.
    pub fn recv_byte(&mut self, byte: u8) -> (accepted: bool)
        ensures
            (final(self)@, accepted) == spec_uart_recv(old(self)@, byte),
    {
        if self.regs[(UART_LSR - UART_BASE) as usize] & UART_LSR_RX == 0 {
            self.regs[(UART_RHR - UART_BASE) as usize] = byte;
            self.regs[(UART_LSR - UART_BASE) as usize] = self.regs[(UART_LSR
                - UART_BASE) as usize] | UART_LSR_RX;
            self.interrupting = true;
            proof {
                assert(self@ =~= spec_uart_recv(old(self)@, byte).0);
            }
            true
        } else {
            false
        }
    }

    /// Hand the bytes transmitted so far to the host, leaving the transmit
    /// buffer empty.
    pub fn take_output(&mut self) -> (out: Vec<u8>)
        ensures
            out@ == old(self)@.tx,
            final(self)@ == (UartState { tx: Seq::<u8>::empty(), ..old(self)@ }),
    {
        let mut out: Vec<u8> = Vec::new();
        core::mem::swap(&mut out, &mut self.tx);
        proof {
            assert(self@ =~= (UartState { tx: Seq::<u8>::empty(), ..old(self)@ }));
        }
        out
    }

    fn load8(&mut self, addr: u64) -> (r: u64)
        requires
            UART_BASE <= addr < UART_BASE + UART_SIZE,
        ensures
            (final(self)@, r) == spec_uart_load8(old(self)@, addr),
    {
        if addr == UART_RHR {
            self.regs[(UART_LSR - UART_BASE) as usize] = self.regs[(UART_LSR
                - UART_BASE) as usize] & !UART_LSR_RX;
            let r = self.regs[(UART_RHR - UART_BASE) as usize] as u64;
            proof {
                assert(self@ =~= spec_uart_load8(old(self)@, addr).0);
            }
            r
        } else {
            self.regs[(addr - UART_BASE) as usize] as u64
        }
    }

    fn store8(&mut self, addr: u64, value: u64)
        requires
            UART_BASE <= addr < UART_BASE + UART_SIZE,
        ensures
            final(self)@ == spec_uart_store8(old(self)@, addr, value),
    {
        if addr == UART_THR {
            self.tx.push(#[verifier::truncate] (value as u8));
            proof {
                assert(self@ =~= spec_uart_store8(old(self)@, addr, value));
            }
        } else {
            self.regs[(addr - UART_BASE) as usize] = #[verifier::truncate] (value as u8);
            proof {
                assert(self@ =~= spec_uart_store8(old(self)@, addr, value));
            }
        }
    }
}

} // verus!
