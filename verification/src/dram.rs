//! The DRAM: a linear little-endian byte store of 128 MiB based at
//! `DRAM_BASE`, serving naturally aligned or unaligned 8/16/32/64-bit
//! accesses.  Its mathematical view is the byte sequence it holds.

use vstd::prelude::*;

use crate::bus::{Device, DRAM_BASE};
use crate::trap::Exception;

verus! {

/// Default DRAM size (128 MiB).
pub const DRAM_SIZE: u64 = 1024 * 1024 * 128;

/// The dynamic random access memory (DRAM).
#[derive(Debug)]
pub struct Dram {
    pub dram: Vec<u8>,
}

impl View for Dram {
    type V = Seq<u8>;

    open spec fn view(&self) -> Seq<u8> {
        self.dram@
    }
}

/// Whether `nbytes` bytes starting at physical address `addr` lie in DRAM.
pub open spec fn dram_in_range(addr: u64, nbytes: u64) -> bool {
    DRAM_BASE <= addr && addr + nbytes <= DRAM_BASE + DRAM_SIZE
}

/// The byte at `addr`, widened to 64 bits.
pub open spec fn spec_dram_load8(mem: Seq<u8>, addr: u64) -> u64 {
    mem[addr - DRAM_BASE] as u64
}

/// Two bytes at `addr`, composed little-endian.
pub open spec fn spec_dram_load16(mem: Seq<u8>, addr: u64) -> u64 {
    (mem[addr - DRAM_BASE] as u64) | ((mem[addr - DRAM_BASE + 1] as u64) << 8)
}

/// Four bytes at `addr`, composed little-endian.
pub open spec fn spec_dram_load32(mem: Seq<u8>, addr: u64) -> u64 {
    (mem[addr - DRAM_BASE] as u64) | ((mem[addr - DRAM_BASE + 1] as u64) << 8) | ((mem[addr
        - DRAM_BASE + 2] as u64) << 16) | ((mem[addr - DRAM_BASE + 3] as u64) << 24)
}

/// Eight bytes at `addr`, composed little-endian.
pub open spec fn spec_dram_load64(mem: Seq<u8>, addr: u64) -> u64 {
    (mem[addr - DRAM_BASE] as u64) | ((mem[addr - DRAM_BASE + 1] as u64) << 8) | ((mem[addr
        - DRAM_BASE + 2] as u64) << 16) | ((mem[addr - DRAM_BASE + 3] as u64) << 24) | ((mem[addr
        - DRAM_BASE + 4] as u64) << 32) | ((mem[addr - DRAM_BASE + 5] as u64) << 40) | ((mem[addr
        - DRAM_BASE + 6] as u64) << 48) | ((mem[addr - DRAM_BASE + 7] as u64) << 56)
}

/// The memory after storing the low byte of `value` at `addr`.
pub open spec fn spec_dram_store8(mem: Seq<u8>, addr: u64, value: u64) -> Seq<u8> {
    mem.update(addr - DRAM_BASE, value as u8)
}

/// The memory after a little-endian 16-bit store of `value` at `addr`.
pub open spec fn spec_dram_store16(mem: Seq<u8>, addr: u64, value: u64) -> Seq<u8> {
    mem.update(addr - DRAM_BASE, (value & 0xff) as u8).update(
        addr - DRAM_BASE + 1,
        ((value >> 8) & 0xff) as u8,
    )
}

/// The memory after a little-endian 32-bit store of `value` at `addr`.
pub open spec fn spec_dram_store32(mem: Seq<u8>, addr: u64, value: u64) -> Seq<u8> {
    mem.update(addr - DRAM_BASE, (value & 0xff) as u8).update(
        addr - DRAM_BASE + 1,
        ((value >> 8) & 0xff) as u8,
    ).update(addr - DRAM_BASE + 2, ((value >> 16) & 0xff) as u8).update(
        addr - DRAM_BASE + 3,
        ((value >> 24) & 0xff) as u8,
    )
}

/// The memory after a little-endian 64-bit store of `value` at `addr`.
pub open spec fn spec_dram_store64(mem: Seq<u8>, addr: u64, value: u64) -> Seq<u8> {
    mem.update(addr - DRAM_BASE, (value & 0xff) as u8).update(
        addr - DRAM_BASE + 1,
        ((value >> 8) & 0xff) as u8,
    ).update(addr - DRAM_BASE + 2, ((value >> 16) & 0xff) as u8).update(
        addr - DRAM_BASE + 3,
        ((value >> 24) & 0xff) as u8,
    ).update(addr - DRAM_BASE + 4, ((value >> 32) & 0xff) as u8).update(
        addr - DRAM_BASE + 5,
        ((value >> 40) & 0xff) as u8,
    ).update(addr - DRAM_BASE + 6, ((value >> 48) & 0xff) as u8).update(
        addr - DRAM_BASE + 7,
        ((value >> 56) & 0xff) as u8,
    )
}

/// What a DRAM load returns: the little-endian composition of the addressed
/// bytes for the four legal sizes, a load access fault for any other size or
/// for an address beyond the end of DRAM.
pub open spec fn spec_dram_load(mem: Seq<u8>, addr: u64, size: u64) -> Result<u64, Exception> {
    if size == 8 {
        if dram_in_range(addr, 1) {
            Ok(spec_dram_load8(mem, addr))
        } else {
            Err(Exception::LoadAccessFault)
        }
    } else if size == 16 {
        if dram_in_range(addr, 2) {
            Ok(spec_dram_load16(mem, addr))
        } else {
            Err(Exception::LoadAccessFault)
        }
    } else if size == 32 {
        if dram_in_range(addr, 4) {
            Ok(spec_dram_load32(mem, addr))
        } else {
            Err(Exception::LoadAccessFault)
        }
    } else if size == 64 {
        if dram_in_range(addr, 8) {
            Ok(spec_dram_load64(mem, addr))
        } else {
            Err(Exception::LoadAccessFault)
        }
    } else {
        Err(Exception::LoadAccessFault)
    }
}

/// What a DRAM store does: the updated memory for the four legal sizes, a
/// store access fault for any other size or for an address beyond the end.
pub open spec fn spec_dram_store(mem: Seq<u8>, addr: u64, size: u64, value: u64) -> Result<
    Seq<u8>,
    Exception,
> {
    if size == 8 {
        if dram_in_range(addr, 1) {
            Ok(spec_dram_store8(mem, addr, value))
        } else {
            Err(Exception::StoreAMOAccessFault)
        }
    } else if size == 16 {
        if dram_in_range(addr, 2) {
            Ok(spec_dram_store16(mem, addr, value))
        } else {
            Err(Exception::StoreAMOAccessFault)
        }
    } else if size == 32 {
        if dram_in_range(addr, 4) {
            Ok(spec_dram_store32(mem, addr, value))
        } else {
            Err(Exception::StoreAMOAccessFault)
        }
    } else if size == 64 {
        if dram_in_range(addr, 8) {
            Ok(spec_dram_store64(mem, addr, value))
        } else {
            Err(Exception::StoreAMOAccessFault)
        }
    } else {
        Err(Exception::StoreAMOAccessFault)
    }
}

/// A store followed by a load of the same address and size returns the
/// value masked to that size: `v & ((1 << size) - 1)`, the full value for a
/// 64-bit access.
pub proof fn lemma_dram_store_then_load(mem: Seq<u8>, addr: u64, size: u64, value: u64)
    requires
        mem.len() == DRAM_SIZE,
        size == 8 || size == 16 || size == 32 || size == 64,
        dram_in_range(addr, size / 8),
    ensures
        spec_dram_store(mem, addr, size, value) is Ok,
        spec_dram_load(spec_dram_store(mem, addr, size, value)->Ok_0, addr, size) == Ok::<
            u64,
            Exception,
        >(
            if size == 8 {
                value & 0xff
            } else if size == 16 {
                value & 0xffff
            } else if size == 32 {
                value & 0xffff_ffff
            } else {
                value
            },
        ),
{
    if size == 8 {
        assert(((value as u8) as u64) == value & 0xff) by (bit_vector);
    } else if size == 16 {
        assert((((value & 0xff) as u8) as u64) | ((((value >> 8) & 0xff) as u8) as u64) << 8
            == value & 0xffff) by (bit_vector);
    } else if size == 32 {
        assert((((value & 0xff) as u8) as u64) | ((((value >> 8) & 0xff) as u8) as u64) << 8 | ((((
        value >> 16) & 0xff) as u8) as u64) << 16 | ((((value >> 24) & 0xff) as u8) as u64) << 24
            == value & 0xffff_ffff) by (bit_vector);
    } else {
        assert((((value & 0xff) as u8) as u64) | ((((value >> 8) & 0xff) as u8) as u64) << 8 | ((((
        value >> 16) & 0xff) as u8) as u64) << 16 | ((((value >> 24) & 0xff) as u8) as u64) << 24
            | ((((value >> 32) & 0xff) as u8) as u64) << 32 | ((((value >> 40) & 0xff) as u8)
            as u64) << 40 | ((((value >> 48) & 0xff) as u8) as u64) << 48 | ((((value >> 56)
            & 0xff) as u8) as u64) << 56 == value) by (bit_vector);
    }
}

impl Device for Dram {
    open spec fn inv(&self) -> bool {
        self.dram@.len() == DRAM_SIZE
    }

    open spec fn addr_ok(addr: u64) -> bool {
        DRAM_BASE <= addr
    }

    open spec fn load_result(pre: Seq<u8>, addr: u64, size: u64) -> (Seq<u8>, Result<
        u64,
        Exception,
    >) {
        (pre, spec_dram_load(pre, addr, size))
    }

    open spec fn store_result(pre: Seq<u8>, addr: u64, size: u64, value: u64) -> (Seq<u8>, Result<
        (),
        Exception,
    >) {
        match spec_dram_store(pre, addr, size, value) {
            Ok(mem) => (mem, Ok(())),
            Err(e) => (pre, Err(e)),
        }
    }

    fn load(&mut self, addr: u64, size: u64) -> (r: Result<u64, Exception>) {
        match size {
            8 => {
                if addr - DRAM_BASE < DRAM_SIZE {
                    Ok(self.load8(addr))
                } else {
                    Err(Exception::LoadAccessFault)
                }
            },
            16 => {
                if addr - DRAM_BASE + 2 <= DRAM_SIZE {
                    Ok(self.load16(addr))
                } else {
                    Err(Exception::LoadAccessFault)
                }
            },
            32 => {
                if addr - DRAM_BASE + 4 <= DRAM_SIZE {
                    Ok(self.load32(addr))
                } else {
                    Err(Exception::LoadAccessFault)
                }
            },
            64 => {
                if addr - DRAM_BASE + 8 <= DRAM_SIZE {
                    Ok(self.load64(addr))
                } else {
                    Err(Exception::LoadAccessFault)
                }
            },
            _ => Err(Exception::LoadAccessFault),
        }
    }

    fn store(&mut self, addr: u64, size: u64, value: u64) -> (r: Result<(), Exception>) {
        match size {
            8 => {
                if addr - DRAM_BASE < DRAM_SIZE {
                    Ok(self.store8(addr, value))
                } else {
                    Err(Exception::StoreAMOAccessFault)
                }
            },
            16 => {
                if addr - DRAM_BASE + 2 <= DRAM_SIZE {
                    Ok(self.store16(addr, value))
                } else {
                    Err(Exception::StoreAMOAccessFault)
                }
            },
            32 => {
                if addr - DRAM_BASE + 4 <= DRAM_SIZE {
                    Ok(self.store32(addr, value))
                } else {
                    Err(Exception::StoreAMOAccessFault)
                }
            },
            64 => {
                if addr - DRAM_BASE + 8 <= DRAM_SIZE {
                    Ok(self.store64(addr, value))
                } else {
                    Err(Exception::StoreAMOAccessFault)
                }
            },
            _ => Err(Exception::StoreAMOAccessFault),
        }
    }
}

impl Dram {
    /// Create a new DRAM of the default size with `binary` copied to its
    /// start and every remaining byte zero.
    pub fn new(binary: Vec<u8>) -> (r: Dram)
        requires
            binary@.len() <= DRAM_SIZE,
        ensures
            r.inv(),
            r@ == binary@ + Seq::<u8>::new((DRAM_SIZE - binary@.len()) as nat, |i: int| 0u8),
    {
        let ghost orig: Seq<u8> = binary@;
        let mut dram = binary;
        proof {
            assert(dram@ =~= orig + Seq::<u8>::new(0, |j: int| 0u8));
        }
        while dram.len() < DRAM_SIZE as usize
            invariant
                orig.len() <= dram@.len() <= DRAM_SIZE,
                dram@ == orig + Seq::<u8>::new((dram@.len() - orig.len()) as nat, |j: int| 0u8),
            decreases DRAM_SIZE - dram@.len(),
        {
            dram.push(0u8);
            proof {
                assert(dram@ =~= orig + Seq::<u8>::new(
                    (dram@.len() - orig.len()) as nat,
                    |j: int| 0u8,
                ));
            }
        }
        Dram { dram }
    }

    /// Load a byte from the little-endian DRAM.
    fn load8(&self, addr: u64) -> (r: u64)
        requires
            self.inv(),
            dram_in_range(addr, 1),
        ensures
            r == spec_dram_load8(self@, addr),
    {
        let index = (addr - DRAM_BASE) as usize;
        self.dram[index] as u64
    }

    /// Load 2 bytes from the little-endian DRAM.
    fn load16(&self, addr: u64) -> (r: u64)
        requires
            self.inv(),
            dram_in_range(addr, 2),
        ensures
            r == spec_dram_load16(self@, addr),
    {
        let index = (addr - DRAM_BASE) as usize;
        (self.dram[index] as u64) | ((self.dram[index + 1] as u64) << 8)
    }

    /// Load 4 bytes from the little-endian DRAM.
    fn load32(&self, addr: u64) -> (r: u64)
        requires
            self.inv(),
            dram_in_range(addr, 4),
        ensures
            r == spec_dram_load32(self@, addr),
    {
        let index = (addr - DRAM_BASE) as usize;
        (self.dram[index] as u64) | ((self.dram[index + 1] as u64) << 8) | ((self.dram[index
            + 2] as u64) << 16) | ((self.dram[index + 3] as u64) << 24)
    }

    /// Load 8 bytes from the little-endian DRAM.
    fn load64(&self, addr: u64) -> (r: u64)
        requires
            self.inv(),
            dram_in_range(addr, 8),
        ensures
            r == spec_dram_load64(self@, addr),
    {
        let index = (addr - DRAM_BASE) as usize;
        (self.dram[index] as u64) | ((self.dram[index + 1] as u64) << 8) | ((self.dram[index
            + 2] as u64) << 16) | ((self.dram[index + 3] as u64) << 24) | ((self.dram[index
            + 4] as u64) << 32) | ((self.dram[index + 5] as u64) << 40) | ((self.dram[index
            + 6] as u64) << 48) | ((self.dram[index + 7] as u64) << 56)
    }

    /// Store a byte to the little-endian DRAM.
    fn store8(&mut self, addr: u64, value: u64)
        requires
            old(self).inv(),
            dram_in_range(addr, 1),
        ensures
            final(self).inv(),
            final(self)@ == spec_dram_store8(old(self)@, addr, value),
    {
        let index = (addr - DRAM_BASE) as usize;
        self.dram[index] = #[verifier::truncate] (value as u8);
    }

    /// Store 2 bytes to the little-endian DRAM.
    fn store16(&mut self, addr: u64, value: u64)
        requires
            old(self).inv(),
            dram_in_range(addr, 2),
        ensures
            final(self).inv(),
            final(self)@ == spec_dram_store16(old(self)@, addr, value),
    {
        let index = (addr - DRAM_BASE) as usize;
        self.dram[index] = #[verifier::truncate] ((value & 0xff) as u8);
        self.dram[index + 1] = #[verifier::truncate] (((value >> 8) & 0xff) as u8);
    }

    /// Store 4 bytes to the little-endian DRAM.
    fn store32(&mut self, addr: u64, value: u64)
        requires
            old(self).inv(),
            dram_in_range(addr, 4),
        ensures
            final(self).inv(),
            final(self)@ == spec_dram_store32(old(self)@, addr, value),
    {
        let index = (addr - DRAM_BASE) as usize;
        self.dram[index] = #[verifier::truncate] ((value & 0xff) as u8);
        self.dram[index + 1] = #[verifier::truncate] (((value >> 8) & 0xff) as u8);
        self.dram[index + 2] = #[verifier::truncate] (((value >> 16) & 0xff) as u8);
        self.dram[index + 3] = #[verifier::truncate] (((value >> 24) & 0xff) as u8);
    }

    /// Store 8 bytes to the little-endian DRAM.
    fn store64(&mut self, addr: u64, value: u64)
        requires
            old(self).inv(),
            dram_in_range(addr, 8),
        ensures
            final(self).inv(),
            final(self)@ == spec_dram_store64(old(self)@, addr, value),
    {
        let index = (addr - DRAM_BASE) as usize;
        self.dram[index] = #[verifier::truncate] ((value & 0xff) as u8);
        self.dram[index + 1] = #[verifier::truncate] (((value >> 8) & 0xff) as u8);
        self.dram[index + 2] = #[verifier::truncate] (((value >> 16) & 0xff) as u8);
        self.dram[index + 3] = #[verifier::truncate] (((value >> 24) & 0xff) as u8);
        self.dram[index + 4] = #[verifier::truncate] (((value >> 32) & 0xff) as u8);
        self.dram[index + 5] = #[verifier::truncate] (((value >> 40) & 0xff) as u8);
        self.dram[index + 6] = #[verifier::truncate] (((value >> 48) & 0xff) as u8);
        self.dram[index + 7] = #[verifier::truncate] (((value >> 56) & 0xff) as u8);
    }
}

} // verus!
