//! The platform-level interrupt controller (PLIC): pending, enable, priority
//! and claim/complete registers for the supervisor context, accessible only
//! with 32-bit loads and stores.

use vstd::prelude::*;

use crate::bus::{Device, PLIC_BASE, PLIC_SIZE};
use crate::trap::Exception;

verus! {

/// The address of the interrupt pending bits.
pub const PLIC_PENDING: u64 = PLIC_BASE + 0x1000;
/// The address of the register that enables interrupts for S-mode.
pub const PLIC_SENABLE: u64 = PLIC_BASE + 0x2080;
/// The address of the register that sets a priority threshold for S-mode.
pub const PLIC_SPRIORITY: u64 = PLIC_BASE + 0x201000;
/// The address of the claim/complete register for S-mode.
pub const PLIC_SCLAIM: u64 = PLIC_BASE + 0x201004;

/// The platform-level interrupt controller (PLIC).
#[derive(Debug, Clone, Copy, PartialEq, Eq, Structural)]
pub struct Plic {
    pub pending: u64,
    pub senable: u64,
    pub spriority: u64,
    pub sclaim: u64,
}

impl View for Plic {
    type V = Plic;

    open spec fn view(&self) -> Plic {
        *self
    }
}

/// The value a 32-bit PLIC load returns: a mapped register, or zero for any
/// other offset in the region.
pub open spec fn spec_plic_load32(p: Plic, addr: u64) -> u64 {
    if addr == PLIC_PENDING {
        p.pending
    } else if addr == PLIC_SENABLE {
        p.senable
    } else if addr == PLIC_SPRIORITY {
        p.spriority
    } else if addr == PLIC_SCLAIM {
        p.sclaim
    } else {
        0
    }
}

/// The PLIC after a 32-bit store: a mapped register is replaced, a store to
/// any other offset in the region is discarded.
pub open spec fn spec_plic_store32(p: Plic, addr: u64, value: u64) -> Plic {
    if addr == PLIC_PENDING {
        Plic { pending: value, ..p }
    } else if addr == PLIC_SENABLE {
        Plic { senable: value, ..p }
    } else if addr == PLIC_SPRIORITY {
        Plic { spriority: value, ..p }
    } else if addr == PLIC_SCLAIM {
        Plic { sclaim: value, ..p }
    } else {
        p
    }
}

impl Device for Plic {
    open spec fn inv(&self) -> bool {
        true
    }

    open spec fn addr_ok(addr: u64) -> bool {
        PLIC_BASE <= addr < PLIC_BASE + PLIC_SIZE
    }

    open spec fn load_result(pre: Plic, addr: u64, size: u64) -> (Plic, Result<u64, Exception>) {
        if size == 32 {
            (pre, Ok(spec_plic_load32(pre, addr)))
        } else {
            (pre, Err(Exception::LoadAccessFault))
        }
    }

    open spec fn store_result(pre: Plic, addr: u64, size: u64, value: u64) -> (Plic, Result<
        (),
        Exception,
    >) {
        if size == 32 {
            (spec_plic_store32(pre, addr, value), Ok(()))
        } else {
            (pre, Err(Exception::StoreAMOAccessFault))
        }
    }

    fn load(&mut self, addr: u64, size: u64) -> (r: Result<u64, Exception>) {
        match size {
            32 => Ok(self.load32(addr)),
            _ => Err(Exception::LoadAccessFault),
        }
    }

    fn store(&mut self, addr: u64, size: u64, value: u64) -> (r: Result<(), Exception>) {
        match size {
            32 => Ok(self.store32(addr, value)),
            _ => Err(Exception::StoreAMOAccessFault),
        }
    }
}

impl Plic {
    /// Create a new PLIC with all registers zero.
    pub fn new() -> (r: Plic)
        ensures
            r == (Plic { pending: 0, senable: 0, spriority: 0, sclaim: 0 }),
    {
        Plic { pending: 0, senable: 0, spriority: 0, sclaim: 0 }
    }

    fn load32(&self, addr: u64) -> (r: u64)
        ensures
            r == spec_plic_load32(*self, addr),
    {
        if addr == PLIC_PENDING {
            self.pending
        } else if addr == PLIC_SENABLE {
            self.senable
        } else if addr == PLIC_SPRIORITY {
            self.spriority
        } else if addr == PLIC_SCLAIM {
            self.sclaim
        } else {
            0
        }
    }

    fn store32(&mut self, addr: u64, value: u64)
        ensures
            *final(self) == spec_plic_store32(*old(self), addr, value),
    {
        if addr == PLIC_PENDING {
            self.pending = value;
        } else if addr == PLIC_SENABLE {
            self.senable = value;
        } else if addr == PLIC_SPRIORITY {
            self.spriority = value;
        } else if addr == PLIC_SCLAIM {
            self.sclaim = value;
        }
    }
}

} // verus!
