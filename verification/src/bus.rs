//! The system bus: the physical address map of the machine, the common device
//! interface, and the dispatcher that routes physical accesses to the memory
//! or to a memory-mapped peripheral.

use vstd::prelude::*;

use crate::clint::Clint;
use crate::dram::{Dram, DRAM_SIZE};
use crate::plic::Plic;
use crate::trap::Exception;
use crate::uart::{Uart, UartState, UART_LSR, UART_LSR_TX};
use crate::virtio::{Virtio, VirtioState, VIRTIO_NOTIFY_NONE};

verus! {

/// The address at which the core-local interruptor (CLINT) starts.  It holds
/// the timer registers and generates per-hart software and timer interrupts.
pub const CLINT_BASE: u64 = 0x200_0000;
/// The size of the CLINT region.
pub const CLINT_SIZE: u64 = 0x10000;

/// The address at which the platform-level interrupt controller (PLIC) starts.
/// The PLIC connects all external interrupts in the system to all hart
/// contexts, via the external interrupt source in each hart.
pub const PLIC_BASE: u64 = 0xc00_0000;
/// The size of the PLIC region.
pub const PLIC_SIZE: u64 = 0x4000000;

/// The address at which the UART starts, same as the QEMU virt machine.
pub const UART_BASE: u64 = 0x1000_0000;
/// The size of the UART region.
pub const UART_SIZE: u64 = 0x100;

/// The address at which the virtio block device starts.
pub const VIRTIO_BASE: u64 = 0x1000_1000;
/// The size of the virtio region.
pub const VIRTIO_SIZE: u64 = 0x1000;

/// The address at which DRAM starts, same as the QEMU virt machine.
pub const DRAM_BASE: u64 = 0x8000_0000;

/// A memory-mapped device: something the bus can route a load or a store to.
///
/// Every device carries a mathematical view of its state (`View`), an
/// invariant its operations preserve, and two spec-level transition functions
/// that say exactly which value a load returns and how a store (or a load with
/// a read side effect) changes the device.
pub trait Device: View + Sized {
    /// The invariant the device's operations require and preserve.
    spec fn inv(&self) -> bool;

    /// Which physical addresses the bus may hand to this device.
    spec fn addr_ok(addr: u64) -> bool;

    /// The state after a load together with the loaded value or the fault.
    spec fn load_result(pre: Self::V, addr: u64, size: u64) -> (Self::V, Result<
        u64,
        Exception,
    >);

    /// The state after a store together with the fault, if any.
    spec fn store_result(pre: Self::V, addr: u64, size: u64, value: u64) -> (Self::V, Result<
        (),
        Exception,
    >);

    /// Load `size` bits from the device at physical address `addr`.
    fn load(&mut self, addr: u64, size: u64) -> (r: Result<u64, Exception>)
        requires
            old(self).inv(),
            Self::addr_ok(addr),
        ensures
            final(self).inv(),
            (final(self)@, r) == Self::load_result(old(self)@, addr, size),
    ;

    /// Store the low `size` bits of `value` to the device at `addr`.
    fn store(&mut self, addr: u64, size: u64, value: u64) -> (r: Result<(), Exception>)
        requires
            old(self).inv(),
            Self::addr_ok(addr),
        ensures
            final(self).inv(),
            (final(self)@, r) == Self::store_result(old(self)@, addr, size, value),
    ;
}

/// The mathematical state of the whole bus: every device and the memory.
#[verifier::ext_equal]
pub struct BusState {
    pub clint: Clint,
    pub plic: Plic,
    pub uart: UartState,
    pub virtio: VirtioState,
    pub dram: Seq<u8>,
}

/// The bus invariant: the memory holds exactly `DRAM_SIZE` bytes.
pub open spec fn bus_wf(b: BusState) -> bool {
    b.dram.len() == DRAM_SIZE
}

/// What a bus load does: route the access to the device owning the address,
/// return its value or fault, and carry any read side effect of the device.
/// An address below DRAM that no device claims is a load access fault.
pub open spec fn spec_bus_load(b: BusState, addr: u64, size: u64) -> (BusState, Result<
    u64,
    Exception,
>) {
    if CLINT_BASE <= addr && addr < CLINT_BASE + CLINT_SIZE {
        let (d, r) = <Clint as Device>::load_result(b.clint, addr, size);
        (BusState { clint: d, ..b }, r)
    } else if PLIC_BASE <= addr && addr < PLIC_BASE + PLIC_SIZE {
        let (d, r) = <Plic as Device>::load_result(b.plic, addr, size);
        (BusState { plic: d, ..b }, r)
    } else if UART_BASE <= addr && addr < UART_BASE + UART_SIZE {
        let (d, r) = <Uart as Device>::load_result(b.uart, addr, size);
        (BusState { uart: d, ..b }, r)
    } else if VIRTIO_BASE <= addr && addr < VIRTIO_BASE + VIRTIO_SIZE {
        let (d, r) = <Virtio as Device>::load_result(b.virtio, addr, size);
        (BusState { virtio: d, ..b }, r)
    } else if DRAM_BASE <= addr {
        let (d, r) = <Dram as Device>::load_result(b.dram, addr, size);
        (BusState { dram: d, ..b }, r)
    } else {
        (b, Err(Exception::LoadAccessFault))
    }
}

/// What a bus store does: route the access to the device owning the address
/// and carry its state change.  An address below DRAM that no device claims
/// is a store access fault.
pub open spec fn spec_bus_store(b: BusState, addr: u64, size: u64, value: u64) -> (
    BusState,
    Result<(), Exception>,
) {
    if CLINT_BASE <= addr && addr < CLINT_BASE + CLINT_SIZE {
        let (d, r) = <Clint as Device>::store_result(b.clint, addr, size, value);
        (BusState { clint: d, ..b }, r)
    } else if PLIC_BASE <= addr && addr < PLIC_BASE + PLIC_SIZE {
        let (d, r) = <Plic as Device>::store_result(b.plic, addr, size, value);
        (BusState { plic: d, ..b }, r)
    } else if UART_BASE <= addr && addr < UART_BASE + UART_SIZE {
        let (d, r) = <Uart as Device>::store_result(b.uart, addr, size, value);
        (BusState { uart: d, ..b }, r)
    } else if VIRTIO_BASE <= addr && addr < VIRTIO_BASE + VIRTIO_SIZE {
        let (d, r) = <Virtio as Device>::store_result(b.virtio, addr, size, value);
        (BusState { virtio: d, ..b }, r)
    } else if DRAM_BASE <= addr {
        let (d, r) = <Dram as Device>::store_result(b.dram, addr, size, value);
        (BusState { dram: d, ..b }, r)
    } else {
        (b, Err(Exception::StoreAMOAccessFault))
    }
}

/// The system bus.
pub struct Bus {
    pub clint: Clint,
    pub plic: Plic,
    pub uart: Uart,
    pub virtio: Virtio,
    pub dram: Dram,
}

impl View for Bus {
    type V = BusState;

    open spec fn view(&self) -> BusState {
        BusState {
            clint: self.clint@,
            plic: self.plic@,
            uart: self.uart@,
            virtio: self.virtio@,
            dram: self.dram@,
        }
    }
}

impl Bus {
    /// Create a new system bus: fresh devices, `binary` at the bottom of the
    /// memory, `disk_image` behind the block device.
    pub fn new(binary: Vec<u8>, disk_image: Vec<u8>) -> (r: Bus)
        requires
            binary@.len() <= DRAM_SIZE,
        ensures
            bus_wf(r@),
            r@.clint == (Clint { mtime: 0, mtimecmp: 0 }),
            r@.plic == (Plic { pending: 0, senable: 0, spriority: 0, sclaim: 0 }),
            r@.uart.regs.len() == 256,
            forall|i: int|
                0 <= i < 256 && i != UART_LSR - UART_BASE ==> r@.uart.regs[i] == 0,
            r@.uart.regs[UART_LSR - UART_BASE] == UART_LSR_TX,
            !r@.uart.interrupting,
            r@.uart.tx == Seq::<u8>::empty(),
            r@.virtio == (VirtioState {
                id: 0,
                driver_features: 0,
                page_size: 0,
                queue_sel: 0,
                queue_num: 0,
                queue_pfn: 0,
                queue_notify: VIRTIO_NOTIFY_NONE,
                status: 0,
                disk: disk_image@,
            }),
            r@.dram == binary@ + Seq::<u8>::new((DRAM_SIZE - binary@.len()) as nat, |i: int| 0u8),
    {
        Bus {
            clint: Clint::new(),
            plic: Plic::new(),
            uart: Uart::new(),
            virtio: Virtio::new(disk_image),
            dram: Dram::new(binary),
        }
    }

    /// Load `size` bits from the physical address `addr`.
    pub fn load(&mut self, addr: u64, size: u64) -> (r: Result<u64, Exception>)
        requires
            bus_wf(old(self)@),
        ensures
            bus_wf(final(self)@),
            (final(self)@, r) == spec_bus_load(old(self)@, addr, size),
    {
        if CLINT_BASE <= addr && addr < CLINT_BASE + CLINT_SIZE {
            return self.clint.load(addr, size);
        }
        if PLIC_BASE <= addr && addr < PLIC_BASE + PLIC_SIZE {
            return self.plic.load(addr, size);
        }
        if UART_BASE <= addr && addr < UART_BASE + UART_SIZE {
            return self.uart.load(addr, size);
        }
        if VIRTIO_BASE <= addr && addr < VIRTIO_BASE + VIRTIO_SIZE {
            return self.virtio.load(addr, size);
        }
        if DRAM_BASE <= addr {
            return self.dram.load(addr, size);
        }
        Err(Exception::LoadAccessFault)
    }

    /// Store the low `size` bits of `value` to the physical address `addr`.
    pub fn store(&mut self, addr: u64, size: u64, value: u64) -> (r: Result<(), Exception>)
        requires
            bus_wf(old(self)@),
        ensures
            bus_wf(final(self)@),
            (final(self)@, r) == spec_bus_store(old(self)@, addr, size, value),
    {
        if CLINT_BASE <= addr && addr < CLINT_BASE + CLINT_SIZE {
            return self.clint.store(addr, size, value);
        }
        if PLIC_BASE <= addr && addr < PLIC_BASE + PLIC_SIZE {
            return self.plic.store(addr, size, value);
        }
        if UART_BASE <= addr && addr < UART_BASE + UART_SIZE {
            return self.uart.store(addr, size, value);
        }
        if VIRTIO_BASE <= addr && addr < VIRTIO_BASE + VIRTIO_SIZE {
            return self.virtio.store(addr, size, value);
        }
        if DRAM_BASE <= addr {
            return self.dram.store(addr, size, value);
        }
        Err(Exception::StoreAMOAccessFault)
    }
}

} // verus!
