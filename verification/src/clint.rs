//! The core-local interruptor (CLINT): memory-mapped `mtime` and `mtimecmp`
//! registers, accessible only with 64-bit loads and stores.

use vstd::prelude::*;

use crate::bus::{Device, CLINT_BASE, CLINT_SIZE};
use crate::trap::Exception;

verus! {

/// The address of the `mtimecmp` register: a memory-mapped machine-mode timer
/// compare register, used to trigger an interrupt when `mtimecmp` is greater
/// than or equal to `mtime`.
pub const CLINT_MTIMECMP: u64 = CLINT_BASE + 0x4000;
/// The address of the `mtime` register: a machine-mode timer register which
/// runs at a constant frequency.
pub const CLINT_MTIME: u64 = CLINT_BASE + 0xbff8;

/// The core-local interruptor (CLINT).
#[derive(Debug, Clone, Copy, PartialEq, Eq, Structural)]
pub struct Clint {
    pub mtime: u64,
    pub mtimecmp: u64,
}

impl View for Clint {
    type V = Clint;

    open spec fn view(&self) -> Clint {
        *self
    }
}

/// The value a 64-bit CLINT load returns: a mapped register, or zero for any
/// other offset in the region.
pub open spec fn spec_clint_load64(c: Clint, addr: u64) -> u64 {
    if addr == CLINT_MTIMECMP {
        c.mtimecmp
    } else if addr == CLINT_MTIME {
        c.mtime
    } else {
        0
    }
}

/// The CLINT after a 64-bit store: a mapped register is replaced, a store to
/// any other offset in the region is discarded.
pub open spec fn spec_clint_store64(c: Clint, addr: u64, value: u64) -> Clint {
    if addr == CLINT_MTIMECMP {
        Clint { mtimecmp: value, ..c }
    } else if addr == CLINT_MTIME {
        Clint { mtime: value, ..c }
    } else {
        c
    }
}

impl Device for Clint {
    open spec fn inv(&self) -> bool {
        true
    }

    open spec fn addr_ok(addr: u64) -> bool {
        CLINT_BASE <= addr < CLINT_BASE + CLINT_SIZE
    }

    open spec fn load_result(pre: Clint, addr: u64, size: u64) -> (Clint, Result<
        u64,
        Exception,
    >) {
        if size == 64 {
            (pre, Ok(spec_clint_load64(pre, addr)))
        } else {
            (pre, Err(Exception::LoadAccessFault))
        }
    }

    open spec fn store_result(pre: Clint, addr: u64, size: u64, value: u64) -> (Clint, Result<
        (),
        Exception,
    >) {
        if size == 64 {
            (spec_clint_store64(pre, addr, value), Ok(()))
        } else {
            (pre, Err(Exception::StoreAMOAccessFault))
        }
    }

    fn load(&mut self, addr: u64, size: u64) -> (r: Result<u64, Exception>) {
        match size {
            64 => Ok(self.load64(addr)),
            _ => Err(Exception::LoadAccessFault),
        }
    }

    fn store(&mut self, addr: u64, size: u64, value: u64) -> (r: Result<(), Exception>) {
        match size {
            64 => Ok(self.store64(addr, value)),
            _ => Err(Exception::StoreAMOAccessFault),
        }
    }
}

impl Clint {
    /// Create a new CLINT with both timer registers zero.
    pub fn new() -> (r: Clint)
        ensures
            r == (Clint { mtime: 0, mtimecmp: 0 }),
    {
        Clint { mtime: 0, mtimecmp: 0 }
    }

    fn load64(&self, addr: u64) -> (r: u64)
        ensures
            r == spec_clint_load64(*self, addr),
    {
        if addr == CLINT_MTIMECMP {
            self.mtimecmp
        } else if addr == CLINT_MTIME {
            self.mtime
        } else {
            0
        }
    }

    fn store64(&mut self, addr: u64, value: u64)
        ensures
            *final(self) == spec_clint_store64(*old(self), addr, value),
    {
        if addr == CLINT_MTIMECMP {
            self.mtimecmp = value;
        } else if addr == CLINT_MTIME {
            self.mtime = value;
        }
    }
}

} // verus!
