//! The virtio block device: the legacy MMIO transport registers and the
//! in-memory disk.  The descriptor-ring DMA routine [`Virtio::disk_access`]
//! lives here too; it drives the bus directly, so its specification is given
//! over the whole machine state.

use vstd::prelude::*;

use crate::bus::{spec_bus_load, spec_bus_store, BusState, Device, VIRTIO_BASE, VIRTIO_SIZE};
use crate::cpu::{cpu_wf, Cpu, CpuState};
use crate::trap::Exception;

verus! {

/// The interrupt request number of the virtio block device.
pub const VIRTIO_IRQ: u64 = 1;

/// The size of one descriptor in the ring, in bytes.
pub const VRING_DESC_SIZE: u64 = 16;
/// The number of virtio descriptors.  It must be a power of two.
pub const DESC_NUM: u64 = 8;

/// Always reads 0x74726976.
pub const VIRTIO_MAGIC: u64 = VIRTIO_BASE + 0x000;
/// The version; 1 is legacy.
pub const VIRTIO_VERSION: u64 = VIRTIO_BASE + 0x004;
/// Device type; 1 is net, 2 is disk.
pub const VIRTIO_DEVICE_ID: u64 = VIRTIO_BASE + 0x008;
/// Always reads 0x554d4551.
pub const VIRTIO_VENDOR_ID: u64 = VIRTIO_BASE + 0x00c;
/// Device features.
pub const VIRTIO_DEVICE_FEATURES: u64 = VIRTIO_BASE + 0x010;
/// Driver features.
pub const VIRTIO_DRIVER_FEATURES: u64 = VIRTIO_BASE + 0x020;
/// Page size for PFN, write-only.
pub const VIRTIO_GUEST_PAGE_SIZE: u64 = VIRTIO_BASE + 0x028;
/// Select queue, write-only.
pub const VIRTIO_QUEUE_SEL: u64 = VIRTIO_BASE + 0x030;
/// Maximum size of the current queue, read-only.
pub const VIRTIO_QUEUE_NUM_MAX: u64 = VIRTIO_BASE + 0x034;
/// Size of the current queue, write-only.
pub const VIRTIO_QUEUE_NUM: u64 = VIRTIO_BASE + 0x038;
/// Physical page number for the queue, read and write.
pub const VIRTIO_QUEUE_PFN: u64 = VIRTIO_BASE + 0x040;
/// Notify the queue number, write-only.
pub const VIRTIO_QUEUE_NOTIFY: u64 = VIRTIO_BASE + 0x050;
/// Device status, read and write.
pub const VIRTIO_STATUS: u64 = VIRTIO_BASE + 0x070;

/// The idle value of the notification register: no notification pending.
pub const VIRTIO_NOTIFY_NONE: u32 = 9999;

/// The mathematical state of the virtio device: its transport registers, the
/// internal id counter and the disk bytes.
#[verifier::ext_equal]
pub struct VirtioState {
    pub id: u64,
    pub driver_features: u32,
    pub page_size: u32,
    pub queue_sel: u32,
    pub queue_num: u32,
    pub queue_pfn: u32,
    pub queue_notify: u32,
    pub status: u32,
    pub disk: Seq<u8>,
}

/// The virtio block device.
pub struct Virtio {
    id: u64,
    driver_features: u32,
    page_size: u32,
    queue_sel: u32,
    queue_num: u32,
    queue_pfn: u32,
    queue_notify: u32,
    status: u32,
    disk: Vec<u8>,
}

impl View for Virtio {
    type V = VirtioState;

    closed spec fn view(&self) -> VirtioState {
        VirtioState {
            id: self.id,
            driver_features: self.driver_features,
            page_size: self.page_size,
            queue_sel: self.queue_sel,
            queue_num: self.queue_num,
            queue_pfn: self.queue_pfn,
            queue_notify: self.queue_notify,
            status: self.status,
            disk: self.disk@,
        }
    }
}

/// The value a 32-bit virtio load returns: a constant for the identification
/// registers, a stored value for the writable fields, zero elsewhere.
pub open spec fn spec_virtio_load32(v: VirtioState, addr: u64) -> u64 {
    if addr == VIRTIO_MAGIC {
        0x74726976
    } else if addr == VIRTIO_VERSION {
        0x1
    } else if addr == VIRTIO_DEVICE_ID {
        0x2
    } else if addr == VIRTIO_VENDOR_ID {
        0x554d4551
    } else if addr == VIRTIO_DEVICE_FEATURES {
        0
    } else if addr == VIRTIO_DRIVER_FEATURES {
        v.driver_features as u64
    } else if addr == VIRTIO_QUEUE_NUM_MAX {
        8
    } else if addr == VIRTIO_QUEUE_PFN {
        v.queue_pfn as u64
    } else if addr == VIRTIO_STATUS {
        v.status as u64
    } else {
        0
    }
}

/// The device after a 32-bit store: a writable field is replaced with the
/// low 32 bits of the value, a store to any other offset is discarded.
pub open spec fn spec_virtio_store32(v: VirtioState, addr: u64, value: u64) -> VirtioState {
    let val = value as u32;
    if addr == VIRTIO_DEVICE_FEATURES {
        VirtioState { driver_features: val, ..v }
    } else if addr == VIRTIO_GUEST_PAGE_SIZE {
        VirtioState { page_size: val, ..v }
    } else if addr == VIRTIO_QUEUE_SEL {
        VirtioState { queue_sel: val, ..v }
    } else if addr == VIRTIO_QUEUE_NUM {
        VirtioState { queue_num: val, ..v }
    } else if addr == VIRTIO_QUEUE_PFN {
        VirtioState { queue_pfn: val, ..v }
    } else if addr == VIRTIO_QUEUE_NOTIFY {
        VirtioState { queue_notify: val, ..v }
    } else if addr == VIRTIO_STATUS {
        VirtioState { status: val, ..v }
    } else {
        v
    }
}

/// The byte of the disk at `addr`, or zero beyond its end.
pub open spec fn spec_disk_read(disk: Seq<u8>, addr: u64) -> u64 {
    if addr < disk.len() {
        disk[addr as int] as u64
    } else {
        0
    }
}

/// The disk after writing the low byte of `value` at `addr`; a write beyond
/// the end is discarded.
pub open spec fn spec_disk_write(disk: Seq<u8>, addr: u64, value: u64) -> Seq<u8> {
    if addr < disk.len() {
        disk.update(addr as int, value as u8)
    } else {
        disk
    }
}

/// The base physical address of the descriptor table, as configured by the
/// guest: queue page frame number times guest page size.
pub open spec fn spec_desc_addr(v: VirtioState) -> u64 {
    ((v.queue_pfn as u64) * (v.page_size as u64)) as u64
}

impl Device for Virtio {
    open spec fn inv(&self) -> bool {
        true
    }

    open spec fn addr_ok(addr: u64) -> bool {
        VIRTIO_BASE <= addr < VIRTIO_BASE + VIRTIO_SIZE
    }

    open spec fn load_result(pre: VirtioState, addr: u64, size: u64) -> (VirtioState, Result<
        u64,
        Exception,
    >) {
        if size == 32 {
            (pre, Ok(spec_virtio_load32(pre, addr)))
        } else {
            (pre, Err(Exception::LoadAccessFault))
        }
    }

    open spec fn store_result(pre: VirtioState, addr: u64, size: u64, value: u64) -> (
        VirtioState,
        Result<(), Exception>,
    ) {
        if size == 32 {
            (spec_virtio_store32(pre, addr, value), Ok(()))
        } else {
            (pre, Err(Exception::StoreAMOAccessFault))
        }
    }

    fn load(&mut self, addr: u64, size: u64) -> (r: Result<u64, Exception>) {
        match size {
            32 => Ok(self.load32(addr)),
            _ => Err(Exception::LoadAccessFault),
        }
    }

    fn store(&mut self, addr: u64, size: u64, value: u64) -> (r: Result<(), Exception>) {
        match size {
            32 => {
                self.store32(addr, value);
                Ok(())
            },
            _ => Err(Exception::StoreAMOAccessFault),
        }
    }
}

impl Virtio {
    /// Create a new virtio block device over the given disk image.
    pub fn new(disk_image: Vec<u8>) -> (r: Virtio)
        ensures
            r@ == (VirtioState {
                id: 0,
                driver_features: 0,
                page_size: 0,
                queue_sel: 0,
                queue_num: 0,
                queue_pfn: 0,
                queue_notify: VIRTIO_NOTIFY_NONE,
                status: 0,
                disk: disk_image@,
            }),
    {
        let r = Virtio {
            id: 0,
            driver_features: 0,
            page_size: 0,
            queue_sel: 0,
            queue_num: 0,
            queue_pfn: 0,
            queue_notify: VIRTIO_NOTIFY_NONE,
            status: 0,
            disk: disk_image,
        };
        proof {
            assert(r@ =~= (VirtioState {
                id: 0,
                driver_features: 0,
                page_size: 0,
                queue_sel: 0,
                queue_num: 0,
                queue_pfn: 0,
                queue_notify: VIRTIO_NOTIFY_NONE,
                status: 0,
                disk: disk_image@,
            }));
        }
        r
    }

    /// Report whether a queue notification is pending, resetting the
    /// notification register to its idle value.
    pub fn is_interrupting(&mut self) -> (r: bool)
        ensures
            r == (old(self)@.queue_notify != VIRTIO_NOTIFY_NONE),
            final(self)@ == (VirtioState { queue_notify: VIRTIO_NOTIFY_NONE, ..old(self)@ }),
    {
        let r = self.queue_notify != VIRTIO_NOTIFY_NONE;
        self.queue_notify = VIRTIO_NOTIFY_NONE;
        proof {
            assert(self@ =~= (VirtioState { queue_notify: VIRTIO_NOTIFY_NONE, ..old(self)@ }));
        }
        r
    }

    /// Load 4 bytes from the virtio register file.
    pub fn load32(&self, addr: u64) -> (r: u64)
        ensures
            r == spec_virtio_load32(self@, addr),
    {
        if addr == VIRTIO_MAGIC {
            0x74726976
        } else if addr == VIRTIO_VERSION {
            0x1
        } else if addr == VIRTIO_DEVICE_ID {
            0x2
        } else if addr == VIRTIO_VENDOR_ID {
            0x554d4551
        } else if addr == VIRTIO_DEVICE_FEATURES {
            0
        } else if addr == VIRTIO_DRIVER_FEATURES {
            self.driver_features as u64
        } else if addr == VIRTIO_QUEUE_NUM_MAX {
            8
        } else if addr == VIRTIO_QUEUE_PFN {
            self.queue_pfn as u64
        } else if addr == VIRTIO_STATUS {
            self.status as u64
        } else {
            0
        }
    }

    /// Store 4 bytes to the virtio register file.
    pub fn store32(&mut self, addr: u64, value: u64)
        ensures
            final(self)@ == spec_virtio_store32(old(self)@, addr, value),
    {
        let val = #[verifier::truncate] (value as u32);
        if addr == VIRTIO_DEVICE_FEATURES {
            self.driver_features = val;
        } else if addr == VIRTIO_GUEST_PAGE_SIZE {
            self.page_size = val;
        } else if addr == VIRTIO_QUEUE_SEL {
            self.queue_sel = val;
        } else if addr == VIRTIO_QUEUE_NUM {
            self.queue_num = val;
        } else if addr == VIRTIO_QUEUE_PFN {
            self.queue_pfn = val;
        } else if addr == VIRTIO_QUEUE_NOTIFY {
            self.queue_notify = val;
        } else if addr == VIRTIO_STATUS {
            self.status = val;
        }
        proof {
            assert(self@ =~= spec_virtio_store32(old(self)@, addr, value));
        }
    }

    /// Advance the internal id counter and return its new value.
    fn get_new_id(&mut self) -> (r: u64)
        ensures
            r == old(self)@.id.wrapping_add(1),
            final(self)@ == (VirtioState { id: old(self)@.id.wrapping_add(1), ..old(self)@ }),
    {
        self.id = self.id.wrapping_add(1);
        proof {
            assert(self@ =~= (VirtioState { id: old(self)@.id.wrapping_add(1), ..old(self)@ }));
        }
        self.id
    }

    /// The base physical address of the descriptor table.
    fn desc_addr(&self) -> (r: u64)
        ensures
            r == spec_desc_addr(self@),
    {
        proof {
            assert((self.queue_pfn as u64) * (self.page_size as u64) < 0x10000000000000000)
                by (nonlinear_arith)
                requires
                    self.queue_pfn <= 0xffff_ffffu64,
                    self.page_size <= 0xffff_ffffu64,
            ;
        }
        self.queue_pfn as u64 * self.page_size as u64
    }

    /// The byte of the disk at `addr`, or zero beyond its end.
    fn read_disk(&self, addr: u64) -> (r: u64)
        ensures
            r == spec_disk_read(self@.disk, addr),
    {
        if addr < self.disk.len() as u64 {
            self.disk[addr as usize] as u64
        } else {
            0
        }
    }

    /// Write the low byte of `value` to the disk at `addr`; writes beyond
    /// the end are discarded.
    fn write_disk(&mut self, addr: u64, value: u64)
        ensures
            final(self)@ == (VirtioState {
                disk: spec_disk_write(old(self)@.disk, addr, value),
                ..old(self)@
            }),
    {
        if addr < self.disk.len() as u64 {
            self.disk[addr as usize] = #[verifier::truncate] (value as u8);
        }
        proof {
            assert(self@ =~= (VirtioState {
                disk: spec_disk_write(old(self)@.disk, addr, value),
                ..old(self)@
            }));
        }
    }

    /// Access the disk via virtio, as [`spec_disk_access`] describes.  This
    /// is an associated function taking the whole `Cpu` so it can read the
    /// descriptor ring and perform the transfer directly against the bus
    /// (DMA).
    pub fn disk_access(cpu: &mut Cpu) -> (r: Result<(), Exception>)
        requires
            cpu_wf(old(cpu)@),
        ensures
            cpu_wf(final(cpu)@),
            (final(cpu)@, r) == spec_disk_access(old(cpu)@),
    {
        // Legacy block operations use three descriptors: one for the
        // type/reserved/sector header, one for the data, one for a one-byte
        // status result; this emulator touches the first two.
        //
        // desc  = pages          -- num * VRingDesc
        // avail = pages + 0x40   -- 2 * uint16, then num * uint16
        // used  = pages + 4096   -- 2 * uint16, then num * vRingUsedElem
        let desc_addr = cpu.bus.virtio.desc_addr();
        let avail_addr = desc_addr.wrapping_add(0x40);
        let used_addr = desc_addr.wrapping_add(4096);

        // avail[0] is flags; avail[1] tells the device how far to look in
        // avail[2...], the ring of descriptor indices.
        let offset = match cpu.bus.load(avail_addr.wrapping_add(1), 16) {
            Ok(v) => v,
            Err(e) => {
                return Err(e);
            },
        };
        let index = match cpu.bus.load(
            avail_addr.wrapping_add(offset % DESC_NUM).wrapping_add(2),
            16,
        ) {
            Ok(v) => v,
            Err(e) => {
                return Err(e);
            },
        };

        // The first descriptor: its address field, and its `next` field at
        // byte offset 14 (addr:64, len:32, flags:16, next:16).
        let desc_addr0 = desc_addr.wrapping_add(VRING_DESC_SIZE.wrapping_mul(index));
        let addr0 = match cpu.bus.load(desc_addr0, 64) {
            Ok(v) => v,
            Err(e) => {
                return Err(e);
            },
        };
        let next0 = match cpu.bus.load(desc_addr0.wrapping_add(14), 16) {
            Ok(v) => v,
            Err(e) => {
                return Err(e);
            },
        };

        // The second descriptor: the data buffer's address, length and
        // flags.
        let desc_addr1 = desc_addr.wrapping_add(VRING_DESC_SIZE.wrapping_mul(next0));
        let addr1 = match cpu.bus.load(desc_addr1, 64) {
            Ok(v) => v,
            Err(e) => {
                return Err(e);
            },
        };
        let len1 = match cpu.bus.load(desc_addr1.wrapping_add(8), 32) {
            Ok(v) => v,
            Err(e) => {
                return Err(e);
            },
        };
        let flags1 = match cpu.bus.load(desc_addr1.wrapping_add(12), 16) {
            Ok(v) => v,
            Err(e) => {
                return Err(e);
            },
        };

        // The 64-bit sector number sits at byte offset 8 of the block
        // request header the first descriptor points to.
        let blk_sector = match cpu.bus.load(addr0.wrapping_add(8), 64) {
            Ok(v) => v,
            Err(e) => {
                return Err(e);
            },
        };

        Self::dma_transfer(cpu, used_addr, addr1, len1, flags1, blk_sector)
    }

    /// The transfer and completion half of a disk access: the byte copy in
    /// the direction the flags select, then the used-ring report.
    #[verifier::rlimit(50)]
    fn dma_transfer(
        cpu: &mut Cpu,
        used_addr: u64,
        addr1: u64,
        len1: u64,
        flags1: u64,
        blk_sector: u64,
    ) -> (r: Result<(), Exception>)
        requires
            cpu_wf(old(cpu)@),
        ensures
            cpu_wf(final(cpu)@),
            (final(cpu)@, r) == spec_disk_access_transfer(
                old(cpu)@,
                used_addr,
                addr1,
                len1,
                flags1,
                blk_sector,
            ),
    {
        let ghost s_mid = cpu@;
        // The second bit of the flags decides the direction: clear means
        // the device reads from memory (a write to the disk).
        if (flags1 & 2) == 0 {
            // Read memory data and write it to the disk (DMA).
            let mut i: u64 = 0;
            while i < len1
                invariant
                    cpu_wf(cpu@),
                    i <= len1,
                    s_mid == old(cpu)@,
                    (flags1 & 2) == 0,
                    cpu@ == (CpuState { bus: cpu@.bus, ..s_mid }),
                    spec_dma_write_to_disk(cpu@.bus, addr1, blk_sector, i, len1)
                        == spec_dma_write_to_disk(s_mid.bus, addr1, blk_sector, 0, len1),
                decreases len1 - i,
            {
                let ghost b_pre = cpu@.bus;
                let data = match cpu.bus.load(addr1.wrapping_add(i), 8) {
                    Ok(v) => v,
                    Err(e) => {
                        proof {
                            assert(spec_dma_write_to_disk(b_pre, addr1, blk_sector, i, len1) == (
                            cpu@.bus,
                            Err::<(), Exception>(e),
                            ));
                            assert(spec_dma_write_to_disk(s_mid.bus, addr1, blk_sector, 0, len1)
                                == (cpu@.bus, Err::<(), Exception>(e)));
                            assert(cpu@ =~~= (CpuState { bus: cpu@.bus, ..old(cpu)@ }));
                            assert((cpu@, Err::<(), Exception>(e)) == spec_disk_access_transfer(
                                old(cpu)@,
                                used_addr,
                                addr1,
                                len1,
                                flags1,
                                blk_sector,
                            ));
                        }
                        return Err(e);
                    },
                };
                cpu.bus.virtio.write_disk(blk_sector.wrapping_mul(512).wrapping_add(i), data);
                proof {
                    assert(cpu@.bus =~= (BusState {
                        virtio: VirtioState {
                            disk: spec_disk_write(
                                spec_bus_load(b_pre, addr1.wrapping_add(i), 8).0.virtio.disk,
                                blk_sector.wrapping_mul(512).wrapping_add(i),
                                data,
                            ),
                            ..spec_bus_load(b_pre, addr1.wrapping_add(i), 8).0.virtio
                        },
                        ..spec_bus_load(b_pre, addr1.wrapping_add(i), 8).0
                    }));
                    assert(spec_dma_write_to_disk(b_pre, addr1, blk_sector, i, len1)
                        == spec_dma_write_to_disk(cpu@.bus, addr1, blk_sector, (i + 1) as u64, len1));
                }
                i = i + 1;
            }
        } else {
            // Read disk data and write it to memory (DMA).
            let mut i: u64 = 0;
            while i < len1
                invariant
                    cpu_wf(cpu@),
                    i <= len1,
                    s_mid == old(cpu)@,
                    (flags1 & 2) != 0,
                    cpu@ == (CpuState { bus: cpu@.bus, ..s_mid }),
                    spec_dma_read_from_disk(cpu@.bus, addr1, blk_sector, i, len1)
                        == spec_dma_read_from_disk(s_mid.bus, addr1, blk_sector, 0, len1),
                decreases len1 - i,
            {
                let ghost b_pre = cpu@.bus;
                let data = cpu.bus.virtio.read_disk(blk_sector.wrapping_mul(512).wrapping_add(i));
                match cpu.bus.store(addr1.wrapping_add(i), 8, data) {
                    Ok(_) => {},
                    Err(e) => {
                        proof {
                            assert(spec_dma_read_from_disk(b_pre, addr1, blk_sector, i, len1) == (
                            cpu@.bus,
                            Err::<(), Exception>(e),
                            ));
                            assert(spec_dma_read_from_disk(s_mid.bus, addr1, blk_sector, 0, len1)
                                == (cpu@.bus, Err::<(), Exception>(e)));
                            assert(cpu@ =~~= (CpuState { bus: cpu@.bus, ..old(cpu)@ }));
                            assert((cpu@, Err::<(), Exception>(e)) == spec_disk_access_transfer(
                                old(cpu)@,
                                used_addr,
                                addr1,
                                len1,
                                flags1,
                                blk_sector,
                            ));
                        }
                        return Err(e);
                    },
                };
                proof {
                    assert(spec_dma_read_from_disk(b_pre, addr1, blk_sector, i, len1)
                        == spec_dma_read_from_disk(cpu@.bus, addr1, blk_sector, (i + 1) as u64, len1));
                }
                i = i + 1;
            }
        }

        // Report the processed descriptor in the used ring: its `id` field
        // sits at byte offset 2.
        let new_id = cpu.bus.virtio.get_new_id();
        match cpu.bus.store(used_addr.wrapping_add(2), 16, new_id % 8) {
            Ok(_) => Ok(()),
            Err(e) => Err(e),
        }
    }
}

/// The byte-by-byte DMA transfer from memory to the disk: bytes `i..len` of
/// the buffer at `addr1` land at the corresponding offsets of the sector.
/// A faulting memory load stops the transfer with its fault.
pub open spec fn spec_dma_write_to_disk(
    b: BusState,
    addr1: u64,
    sector: u64,
    i: u64,
    len: u64,
) -> (BusState, Result<(), Exception>)
    decreases len - i,
{
    if i >= len {
        (b, Ok(()))
    } else {
        let (b1, r) = spec_bus_load(b, addr1.wrapping_add(i), 8);
        match r {
            Ok(data) => {
                let b2 = BusState {
                    virtio: VirtioState {
                        disk: spec_disk_write(
                            b1.virtio.disk,
                            sector.wrapping_mul(512).wrapping_add(i),
                            data,
                        ),
                        ..b1.virtio
                    },
                    ..b1
                };
                spec_dma_write_to_disk(b2, addr1, sector, (i + 1) as u64, len)
            },
            Err(e) => (b1, Err(e)),
        }
    }
}

/// The byte-by-byte DMA transfer from the disk to memory: the sector bytes
/// at offsets `i..len` land in the buffer at `addr1`.  A faulting memory
/// store stops the transfer with its fault.
pub open spec fn spec_dma_read_from_disk(
    b: BusState,
    addr1: u64,
    sector: u64,
    i: u64,
    len: u64,
) -> (BusState, Result<(), Exception>)
    decreases len - i,
{
    if i >= len {
        (b, Ok(()))
    } else {
        let data = spec_disk_read(b.virtio.disk, sector.wrapping_mul(512).wrapping_add(i));
        let (b1, r) = spec_bus_store(b, addr1.wrapping_add(i), 8, data);
        match r {
            Ok(u) => spec_dma_read_from_disk(b1, addr1, sector, (i + 1) as u64, len),
            Err(e) => (b1, Err(e)),
        }
    }
}

/// What one disk access at notification time does, start to finish: read the
/// available ring for the head descriptor index, follow the two-descriptor
/// chain for the sector number and the data buffer, transfer the bytes in
/// the direction the flags select, and report the descriptor in the used
/// ring with a fresh id.  Any faulting ring access stops the routine with
/// that fault; the transfer itself keeps the progress made before a fault.
pub open spec fn spec_disk_access(s: CpuState) -> (CpuState, Result<(), Exception>) {
    let desc_addr = spec_desc_addr(s.bus.virtio);
    let avail_addr = desc_addr.wrapping_add(0x40);
    let used_addr = desc_addr.wrapping_add(4096);
    let (b1, r1) = spec_bus_load(s.bus, avail_addr.wrapping_add(1), 16);
    match r1 {
        Err(e) => (CpuState { bus: b1, ..s }, Err(e)),
        Ok(offset) => {
            let (b2, r2) = spec_bus_load(
                b1,
                avail_addr.wrapping_add(offset % DESC_NUM).wrapping_add(2),
                16,
            );
            match r2 {
                Err(e) => (CpuState { bus: b2, ..s }, Err(e)),
                Ok(index) => {
                    let desc_addr0 = desc_addr.wrapping_add(VRING_DESC_SIZE.wrapping_mul(index));
                    let (b3, r3) = spec_bus_load(b2, desc_addr0, 64);
                    match r3 {
                        Err(e) => (CpuState { bus: b3, ..s }, Err(e)),
                        Ok(addr0) => {
                            let (b4, r4) = spec_bus_load(b3, desc_addr0.wrapping_add(14), 16);
                            match r4 {
                                Err(e) => (CpuState { bus: b4, ..s }, Err(e)),
                                Ok(next0) => {
                                    let desc_addr1 = desc_addr.wrapping_add(
                                        VRING_DESC_SIZE.wrapping_mul(next0),
                                    );
                                    let (b5, r5) = spec_bus_load(b4, desc_addr1, 64);
                                    match r5 {
                                        Err(e) => (CpuState { bus: b5, ..s }, Err(e)),
                                        Ok(addr1) => {
                                            let (b6, r6) = spec_bus_load(
                                                b5,
                                                desc_addr1.wrapping_add(8),
                                                32,
                                            );
                                            match r6 {
                                                Err(e) => (CpuState { bus: b6, ..s }, Err(e)),
                                                Ok(len1) => {
                                                    let (b7, r7) = spec_bus_load(
                                                        b6,
                                                        desc_addr1.wrapping_add(12),
                                                        16,
                                                    );
                                                    match r7 {
                                                        Err(e) => (
                                                            CpuState { bus: b7, ..s },
                                                            Err(e),
                                                        ),
                                                        Ok(flags1) => {
                                                            let (b8, r8) = spec_bus_load(
                                                                b7,
                                                                addr0.wrapping_add(8),
                                                                64,
                                                            );
                                                            match r8 {
                                                                Err(e) => (
                                                                    CpuState { bus: b8, ..s },
                                                                    Err(e),
                                                                ),
                                                                Ok(blk_sector) => spec_disk_access_transfer(
                                                                    CpuState { bus: b8, ..s },
                                                                    used_addr,
                                                                    addr1,
                                                                    len1,
                                                                    flags1,
                                                                    blk_sector,
                                                                ),
                                                            }
                                                        },
                                                    }
                                                },
                                            }
                                        },
                                    }
                                },
                            }
                        },
                    }
                },
            }
        },
    }
}

/// The transfer and completion half of a disk access: move the bytes in the
/// direction the flags select, then advance the id counter and write the
/// descriptor id into the used ring.
pub open spec fn spec_disk_access_transfer(
    s: CpuState,
    used_addr: u64,
    addr1: u64,
    len1: u64,
    flags1: u64,
    blk_sector: u64,
) -> (CpuState, Result<(), Exception>) {
    let (bt, rt) = if (flags1 & 2) == 0 {
        spec_dma_write_to_disk(s.bus, addr1, blk_sector, 0, len1)
    } else {
        spec_dma_read_from_disk(s.bus, addr1, blk_sector, 0, len1)
    };
    match rt {
        Err(e) => (CpuState { bus: bt, ..s }, Err(e)),
        Ok(u) => {
            let new_id = bt.virtio.id.wrapping_add(1);
            let b9 = BusState {
                virtio: VirtioState { id: new_id, ..bt.virtio },
                ..bt
            };
            let (b10, r10) = spec_bus_store(
                b9,
                used_addr.wrapping_add(2),
                16,
                (new_id % 8) as u64,
            );
            match r10 {
                Ok(v) => (CpuState { bus: b10, ..s }, Ok(())),
                Err(e) => (CpuState { bus: b10, ..s }, Err(e)),
            }
        },
    }
}

} // verus!
