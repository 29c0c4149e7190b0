//! The CPU: register file, program counter, privilege mode, CSR file and the
//! Sv39 address translation, together with the mathematical machine state
//! every contract in this crate is written against.

use vstd::prelude::*;

use crate::bus::{bus_wf, spec_bus_load, spec_bus_store, Bus, BusState, DRAM_BASE};
use crate::dram::DRAM_SIZE;
use crate::plic::PLIC_SCLAIM;
use crate::trap::{Exception, Interrupt};
use crate::uart::{UartState, UART_IRQ};
use crate::virtio::{spec_disk_access, Virtio, VirtioState, VIRTIO_IRQ, VIRTIO_NOTIFY_NONE};

verus! {

/// The page size (4 KiB) of the paged virtual memory system.
pub const PAGE_SIZE: u64 = 4096;

// Machine-level CSRs.
/// Machine status register.
pub const MSTATUS: usize = 0x300;
/// Machine exception delegation register.
pub const MEDELEG: usize = 0x302;
/// Machine interrupt delegation register.
pub const MIDELEG: usize = 0x303;
/// Machine interrupt-enable register.
pub const MIE: usize = 0x304;
/// Machine trap-handler base address.
pub const MTVEC: usize = 0x305;
/// Machine exception program counter.
pub const MEPC: usize = 0x341;
/// Machine trap cause.
pub const MCAUSE: usize = 0x342;
/// Machine bad address or instruction.
pub const MTVAL: usize = 0x343;
/// Machine interrupt pending.
pub const MIP: usize = 0x344;

// MIP fields.
/// Supervisor software interrupt pending (bit 1).
pub const MIP_SSIP: u64 = 0x2;
/// Machine software interrupt pending (bit 3).
pub const MIP_MSIP: u64 = 0x8;
/// Supervisor timer interrupt pending (bit 5).
pub const MIP_STIP: u64 = 0x20;
/// Machine timer interrupt pending (bit 7).
pub const MIP_MTIP: u64 = 0x80;
/// Supervisor external interrupt pending (bit 9).
pub const MIP_SEIP: u64 = 0x200;
/// Machine external interrupt pending (bit 11).
pub const MIP_MEIP: u64 = 0x800;

// Supervisor-level CSRs.
/// Supervisor status register.
pub const SSTATUS: usize = 0x100;
/// Supervisor interrupt-enable register.
pub const SIE: usize = 0x104;
/// Supervisor trap handler base address.
pub const STVEC: usize = 0x105;
/// Supervisor exception program counter.
pub const SEPC: usize = 0x141;
/// Supervisor trap cause.
pub const SCAUSE: usize = 0x142;
/// Supervisor bad address or instruction.
pub const STVAL: usize = 0x143;
/// Supervisor interrupt pending.
pub const SIP: usize = 0x144;
/// Supervisor address translation and protection.
pub const SATP: usize = 0x180;

/// The mask of the physical page number field of `satp`: the low 44 bits.
pub const SATP_PPN_MASK: u64 = 0xfff_ffff_ffff;

/// The largest page-table root address `satp` can configure:
/// the 44-bit PPN mask times the page size.
pub const PAGE_TABLE_ROOT_MAX: u64 = 0xfff_ffff_ffff * 4096;

/// The privilege mode of the hart, ordered `User < Supervisor < Machine`.
#[derive(Debug, Clone, Copy, PartialEq, Eq, Structural)]
pub enum Mode {
    User,
    Supervisor,
    Machine,
}

/// The kind of memory access being translated.  It decides which page fault
/// is raised when the translation fails.
#[derive(Debug, Clone, Copy, PartialEq, Eq, Structural)]
pub enum AccessType {
    /// An instruction fetch; faults raise `InstructionPageFault`.
    Instruction,
    /// A data load; faults raise `LoadPageFault`.
    Load,
    /// A data store or AMO; faults raise `StoreAMOPageFault`.
    Store,
}

/// The mathematical state of the whole machine: the hart's registers and the
/// bus with every device behind it.
#[verifier::ext_equal]
pub struct CpuState {
    pub regs: Seq<u64>,
    pub pc: u64,
    pub mode: Mode,
    pub csrs: Seq<u64>,
    pub enable_paging: bool,
    pub page_table: u64,
    pub bus: BusState,
}

/// The machine invariant: thirty-two registers, 4096 CSR slots, a bounded
/// page-table root and a well-formed bus.
pub open spec fn cpu_wf(s: CpuState) -> bool {
    &&& s.regs.len() == 32
    &&& s.csrs.len() == 4096
    &&& s.page_table <= PAGE_TABLE_ROOT_MAX
    &&& bus_wf(s.bus)
}

/// The `Cpu` struct contains registers, a program counter, the system bus
/// that connects peripheral devices, and control and status registers.
pub struct Cpu {
    /// 32 64-bit integer registers.
    pub regs: [u64; 32],
    /// Program counter holding the address of the next instruction.
    pub pc: u64,
    /// The current privilege mode.
    pub mode: Mode,
    /// System bus that transfers data between the CPU and the devices.
    pub bus: Bus,
    /// Control and status registers (a 12-bit encoding space).
    pub csrs: [u64; 4096],
    /// Sv39 paging flag.
    pub enable_paging: bool,
    /// Physical page number of the page-table root times the page size.
    pub page_table: u64,
}

impl View for Cpu {
    type V = CpuState;

    open spec fn view(&self) -> CpuState {
        CpuState {
            regs: self.regs@,
            pc: self.pc,
            mode: self.mode,
            csrs: self.csrs@,
            enable_paging: self.enable_paging,
            page_table: self.page_table,
            bus: self.bus@,
        }
    }
}

/// What a CSR read returns.  `sie` is not stored: it reads as `mie` masked
/// by `mideleg`.  Every other address reads its stored value.
pub open spec fn spec_load_csr(csrs: Seq<u64>, addr: usize) -> u64 {
    if addr == SIE {
        csrs[MIE as int] & csrs[MIDELEG as int]
    } else {
        csrs[addr as int]
    }
}

/// What a CSR write does.  A write to `sie` updates only the bits of `mie`
/// that `mideleg` delegates; every other address stores the value directly.
pub open spec fn spec_store_csr(csrs: Seq<u64>, addr: usize, value: u64) -> Seq<u64> {
    if addr == SIE {
        csrs.update(
            MIE as int,
            (csrs[MIE as int] & !csrs[MIDELEG as int]) | (value & csrs[MIDELEG as int]),
        )
    } else {
        csrs.update(addr as int, value)
    }
}

/// What the paging-state refresh after a CSR write does: if the written CSR
/// is `satp`, recompute the page-table root from its PPN field and enable
/// Sv39 exactly when the mode field is 8; otherwise nothing changes.
pub open spec fn spec_update_paging(s: CpuState, csr_addr: usize) -> CpuState {
    if csr_addr != SATP {
        s
    } else {
        let satp = spec_load_csr(s.csrs, SATP);
        CpuState {
            page_table: ((satp & SATP_PPN_MASK) * PAGE_SIZE) as u64,
            enable_paging: (satp >> 60) == 8,
            ..s
        }
    }
}

/// The page fault corresponding to an access kind.
pub open spec fn spec_page_fault(acc: AccessType) -> Exception {
    match acc {
        AccessType::Instruction => Exception::InstructionPageFault,
        AccessType::Load => Exception::LoadPageFault,
        AccessType::Store => Exception::StoreAMOPageFault,
    }
}

/// The nine-bit virtual page number field of `addr` for level `i`.
pub open spec fn spec_vpn(addr: u64, i: int) -> u64 {
    if i == 2 {
        (addr >> 30) & 0x1ff
    } else if i == 1 {
        (addr >> 21) & 0x1ff
    } else {
        (addr >> 12) & 0x1ff
    }
}

/// One to three steps of the Sv39 page walk, starting at the page-table page
/// `a` on level `i`.  Returns the translated physical address, or the bus
/// fault of the PTE load, or the page fault of the access kind when the walk
/// dead-ends.  Permission, A/D and superpage-alignment checks (steps 5-7 of
/// the architectural algorithm) are deliberately not performed.
pub open spec fn spec_walk(b: BusState, addr: u64, acc: AccessType, a: u64, i: int) -> Result<
    u64,
    Exception,
>
    decreases i,
{
    match spec_bus_load(b, (a + spec_vpn(addr, i) * 8) as u64, 64).1 {
        Err(e) => Err(e),
        Ok(pte) => {
            let v = pte & 1;
            let r = (pte >> 1) & 1;
            let w = (pte >> 2) & 1;
            let x = (pte >> 3) & 1;
            if v == 0 || (r == 0 && w == 1) {
                Err(spec_page_fault(acc))
            } else if r == 1 || x == 1 {
                let offset = addr & 0xfff;
                if i == 0 {
                    Ok((((pte >> 10) & 0x0fff_ffff_ffff) << 12) | offset)
                } else if i == 1 {
                    Ok(
                        (((pte >> 28) & 0x03ff_ffff) << 30) | (((pte >> 19) & 0x1ff) << 21) | (((
                        addr >> 12) & 0x1ff) << 12) | offset,
                    )
                } else if i == 2 {
                    Ok(
                        (((pte >> 28) & 0x03ff_ffff) << 30) | (((addr >> 21) & 0x1ff) << 21) | (((
                        addr >> 12) & 0x1ff) << 12) | offset,
                    )
                } else {
                    Err(spec_page_fault(acc))
                }
            } else if i <= 0 {
                Err(spec_page_fault(acc))
            } else {
                spec_walk(b, addr, acc, (((pte >> 10) & 0x0fff_ffff_ffff) * PAGE_SIZE) as u64, i - 1)
            }
        },
    }
}

/// What translating a virtual address does: the identity with paging off, a
/// three-level page walk from the cached root with paging on.
pub open spec fn spec_translate(s: CpuState, addr: u64, acc: AccessType) -> Result<
    u64,
    Exception,
> {
    if !s.enable_paging {
        Ok(addr)
    } else {
        spec_walk(s.bus, addr, acc, s.page_table, 2)
    }
}

/// What a data load does: translate, then load over the bus.  The machine
/// state changes only by the read side effect of the addressed device.
pub open spec fn spec_cpu_load(s: CpuState, addr: u64, size: u64) -> (CpuState, Result<
    u64,
    Exception,
>) {
    match spec_translate(s, addr, AccessType::Load) {
        Err(e) => (s, Err(e)),
        Ok(pa) => {
            let (b, r) = spec_bus_load(s.bus, pa, size);
            (CpuState { bus: b, ..s }, r)
        },
    }
}

/// What a data store does: translate, then store over the bus.
pub open spec fn spec_cpu_store(s: CpuState, addr: u64, size: u64, value: u64) -> (
    CpuState,
    Result<(), Exception>,
) {
    match spec_translate(s, addr, AccessType::Store) {
        Err(e) => (s, Err(e)),
        Ok(pa) => {
            let (b, r) = spec_bus_store(s.bus, pa, size, value);
            (CpuState { bus: b, ..s }, r)
        },
    }
}

/// What a fetch returns: the 32-bit word at the translated program counter.
/// A failed translation keeps its page fault; a failed bus load becomes an
/// instruction access fault.  The machine state does not change.
pub open spec fn spec_fetch(s: CpuState) -> Result<u64, Exception> {
    match spec_translate(s, s.pc, AccessType::Instruction) {
        Err(e) => Err(e),
        Ok(p_pc) => match spec_bus_load(s.bus, p_pc, 32).1 {
            Ok(inst) => Ok(inst),
            Err(_) => Err(Exception::InstructionAccessFault),
        },
    }
}

/// The machine state right after loading the images: registers cleared but
/// for the stack pointer, the program counter at the bottom of DRAM, machine
/// mode, all CSRs zero, paging off.
pub open spec fn spec_initial_cpu(binary: Seq<u8>, disk: Seq<u8>) -> CpuState {
    CpuState {
        regs: Seq::new(32, |i: int| if i == 2 { (DRAM_BASE + DRAM_SIZE) as u64 } else { 0u64 }),
        pc: DRAM_BASE,
        mode: Mode::Machine,
        csrs: Seq::new(4096, |i: int| 0u64),
        enable_paging: false,
        page_table: 0,
        bus: BusState {
            clint: crate::clint::Clint { mtime: 0, mtimecmp: 0 },
            plic: crate::plic::Plic { pending: 0, senable: 0, spriority: 0, sclaim: 0 },
            uart: crate::uart::UartState {
                regs: Seq::new(
                    256,
                    |i: int|
                        if i == crate::uart::UART_LSR - crate::bus::UART_BASE {
                            crate::uart::UART_LSR_TX
                        } else {
                            0u8
                        },
                ),
                interrupting: false,
                tx: Seq::empty(),
            },
            virtio: crate::virtio::VirtioState {
                id: 0,
                driver_features: 0,
                page_size: 0,
                queue_sel: 0,
                queue_num: 0,
                queue_pfn: 0,
                queue_notify: crate::virtio::VIRTIO_NOTIFY_NONE,
                status: 0,
                disk,
            },
            dram: binary + Seq::new((DRAM_SIZE - binary.len()) as nat, |i: int| 0u8),
        },
    }
}

impl Cpu {
    /// Create a new `Cpu` with `binary` loaded at the bottom of DRAM and
    /// `disk_image` behind the virtio block device.
    pub fn new(binary: Vec<u8>, disk_image: Vec<u8>) -> (r: Cpu)
        requires
            binary@.len() <= DRAM_SIZE,
        ensures
            cpu_wf(r@),
            r@ == spec_initial_cpu(binary@, disk_image@),
    {
        let mut regs = [0u64; 32];
        // The stack pointer must be set up first.
        regs[2] = DRAM_BASE + DRAM_SIZE;
        let r = Cpu {
            regs,
            // The program counter starts at the start address of DRAM.
            pc: DRAM_BASE,
            mode: Mode::Machine,
            bus: Bus::new(binary, disk_image),
            csrs: [0u64; 4096],
            enable_paging: false,
            page_table: 0,
        };
        proof {
            assert(r@.regs =~= spec_initial_cpu(binary@, disk_image@).regs);
            assert(r@.csrs =~= spec_initial_cpu(binary@, disk_image@).csrs);
            assert(r@.bus.uart.regs =~= spec_initial_cpu(binary@, disk_image@).bus.uart.regs);
            assert(r@.bus.uart.tx =~= spec_initial_cpu(binary@, disk_image@).bus.uart.tx);
            assert(r@ =~= spec_initial_cpu(binary@, disk_image@));
        }
        r
    }

    /// The machine invariant, stated over the view.
    pub open spec fn wf(&self) -> bool {
        cpu_wf(self@)
    }

    /// Load a value from a CSR.
    pub fn load_csr(&self, addr: usize) -> (r: u64)
        requires
            addr < 4096,
        ensures
            r == spec_load_csr(self@.csrs, addr),
    {
        if addr == SIE {
            self.csrs[MIE] & self.csrs[MIDELEG]
        } else {
            self.csrs[addr]
        }
    }

    /// Store a value to a CSR.
    pub fn store_csr(&mut self, addr: usize, value: u64)
        requires
            addr < 4096,
        ensures
            final(self)@ == (CpuState {
                csrs: spec_store_csr(old(self)@.csrs, addr, value),
                ..old(self)@
            }),
    {
        if addr == SIE {
            self.csrs[MIE] = (self.csrs[MIE] & !self.csrs[MIDELEG]) | (value
                & self.csrs[MIDELEG]);
        } else {
            self.csrs[addr] = value;
        }
        proof {
            assert(self@ =~= (CpuState {
                csrs: spec_store_csr(old(self)@.csrs, addr, value),
                ..old(self)@
            }));
        }
    }

    /// Refresh the cached page-table root and the Sv39 flag after a write to
    /// `csr_addr`, as [`spec_update_paging`] describes.
    pub(crate) fn update_paging(&mut self, csr_addr: usize)
        ensures
            final(self)@ == spec_update_paging(old(self)@, csr_addr),
            final(self)@.page_table <= PAGE_TABLE_ROOT_MAX || final(self)@.page_table == old(
                self,
            )@.page_table,
    {
        if csr_addr != SATP {
            return ;
        }
        // The physical page number of the root page table: the low 44 bits
        // of satp, scaled by the page size.
        let satp = self.load_csr(SATP);
        proof {
            assert(satp & SATP_PPN_MASK <= SATP_PPN_MASK) by (bit_vector);
        }
        self.page_table = (satp & SATP_PPN_MASK) * PAGE_SIZE;

        // The MODE field selects the address-translation scheme; 8 is Sv39.
        let mode = satp >> 60;
        self.enable_paging = mode == 8;
        proof {
            assert(self@ =~= spec_update_paging(old(self)@, csr_addr));
        }
    }

    /// Translate a virtual address to a physical address, as
    /// [`spec_translate`] describes.  The machine state is untouched.
    pub fn translate(&mut self, addr: u64, access_type: AccessType) -> (r: Result<u64, Exception>)
        requires
            cpu_wf(old(self)@),
        ensures
            final(self)@ == old(self)@,
            r == spec_translate(old(self)@, addr, access_type),
    {
        if !self.enable_paging {
            return Ok(addr);
        }
        proof {
            lemma_vpn_bounds(addr);
            reveal_with_fuel(spec_walk, 3);
        }

        // Level 2.
        let a2 = self.page_table;
        let pte2 = match self.bus.load(a2 + ((addr >> 30) & 0x1ff) * 8, 64) {
            Ok(pte) => pte,
            Err(e) => {
                return Err(e);
            },
        };
        match walk_classify(pte2, addr, access_type, 2) {
            WalkStep::Fault(e) => {
                return Err(e);
            },
            WalkStep::Leaf(pa) => {
                return Ok(pa);
            },
            WalkStep::Next(a1) => {
                // Level 1.
                proof {
                    lemma_ppn_bound(pte2);
                }
                let pte1 = match self.bus.load(a1 + ((addr >> 21) & 0x1ff) * 8, 64) {
                    Ok(pte) => pte,
                    Err(e) => {
                        return Err(e);
                    },
                };
                match walk_classify(pte1, addr, access_type, 1) {
                    WalkStep::Fault(e) => {
                        return Err(e);
                    },
                    WalkStep::Leaf(pa) => {
                        return Ok(pa);
                    },
                    WalkStep::Next(a0) => {
                        // Level 0.
                        proof {
                            lemma_ppn_bound(pte1);
                        }
                        let pte0 = match self.bus.load(a0 + ((addr >> 12) & 0x1ff) * 8, 64) {
                            Ok(pte) => pte,
                            Err(e) => {
                                return Err(e);
                            },
                        };
                        match walk_classify(pte0, addr, access_type, 0) {
                            WalkStep::Fault(e) => Err(e),
                            WalkStep::Leaf(pa) => Ok(pa),
                            WalkStep::Next(_) => {
                                // The walk ran out of levels.
                                Err(page_fault_of(access_type))
                            },
                        }
                    },
                }
            },
        }
    }

    /// Load a value from memory through address translation.
    pub fn load(&mut self, addr: u64, size: u64) -> (r: Result<u64, Exception>)
        requires
            cpu_wf(old(self)@),
        ensures
            cpu_wf(final(self)@),
            (final(self)@, r) == spec_cpu_load(old(self)@, addr, size),
    {
        let p_addr = match self.translate(addr, AccessType::Load) {
            Ok(p) => p,
            Err(e) => {
                return Err(e);
            },
        };
        let r = self.bus.load(p_addr, size);
        proof {
            assert(self@ =~= spec_cpu_load(old(self)@, addr, size).0);
        }
        r
    }

    /// Store a value to memory through address translation.
    pub fn store(&mut self, addr: u64, size: u64, value: u64) -> (r: Result<(), Exception>)
        requires
            cpu_wf(old(self)@),
        ensures
            cpu_wf(final(self)@),
            (final(self)@, r) == spec_cpu_store(old(self)@, addr, size, value),
    {
        let p_addr = match self.translate(addr, AccessType::Store) {
            Ok(p) => p,
            Err(e) => {
                return Err(e);
            },
        };
        let r = self.bus.store(p_addr, size, value);
        proof {
            assert(self@ =~= spec_cpu_store(old(self)@, addr, size, value).0);
        }
        r
    }

    /// Get an instruction word from memory at the program counter.
    pub fn fetch(&mut self) -> (r: Result<u64, Exception>)
        requires
            cpu_wf(old(self)@),
        ensures
            final(self)@ == old(self)@,
            r == spec_fetch(old(self)@),
    {
        let p_pc = match self.translate(self.pc, AccessType::Instruction) {
            Ok(p) => p,
            Err(e) => {
                return Err(e);
            },
        };
        match self.bus.load(p_pc, 32) {
            Ok(inst) => {
                proof {
                    assert(self@ =~= old(self)@);
                }
                Ok(inst)
            },
            Err(_e) => {
                proof {
                    assert(self@ =~= old(self)@);
                }
                Err(Exception::InstructionAccessFault)
            },
        }
    }
}

/// The externally pending interrupt request and the machine state after
/// polling the devices: the UART is polled first; a virtio notification
/// additionally runs the disk access, and its interrupt is raised whether or
/// not the transfer ran to completion.  An IRQ of zero means no device is
/// interrupting.
pub open spec fn spec_poll_devices(s: CpuState) -> (CpuState, u64) {
    let s_u = CpuState {
        bus: BusState { uart: UartState { interrupting: false, ..s.bus.uart }, ..s.bus },
        ..s
    };
    if s.bus.uart.interrupting {
        (s_u, UART_IRQ)
    } else {
        let s_v = CpuState {
            bus: BusState {
                virtio: VirtioState { queue_notify: VIRTIO_NOTIFY_NONE, ..s_u.bus.virtio },
                ..s_u.bus
            },
            ..s_u
        };
        if s_u.bus.virtio.queue_notify != VIRTIO_NOTIFY_NONE {
            (spec_disk_access(s_v).0, VIRTIO_IRQ)
        } else {
            (s_v, 0)
        }
    }
}

/// What the per-step interrupt arbitration does.  When interrupts are
/// globally enabled for the current mode, the devices are polled; a pending
/// IRQ is written to the PLIC claim register and raises the SEIP bit of
/// `mip`.  Then the highest-priority bit set in both `mie` and `mip` is
/// cleared in `mip` and its interrupt is returned.
pub open spec fn spec_check_pending_interrupt(s: CpuState) -> (CpuState, Option<Interrupt>) {
    if s.mode == Mode::Machine && (spec_load_csr(s.csrs, MSTATUS) >> 3) & 1 == 0 {
        (s, None)
    } else if s.mode == Mode::Supervisor && (spec_load_csr(s.csrs, SSTATUS) >> 1) & 1 == 0 {
        (s, None)
    } else {
        let (s1, irq) = spec_poll_devices(s);
        let s2 = if irq != 0 {
            let sb = CpuState { bus: spec_bus_store(s1.bus, PLIC_SCLAIM, 32, irq).0, ..s1 };
            CpuState {
                csrs: spec_store_csr(sb.csrs, MIP, spec_load_csr(sb.csrs, MIP) | MIP_SEIP),
                ..sb
            }
        } else {
            s1
        };
        let pending = spec_load_csr(s2.csrs, MIE) & spec_load_csr(s2.csrs, MIP);
        if pending & MIP_MEIP != 0 {
            (
                CpuState {
                    csrs: spec_store_csr(s2.csrs, MIP, spec_load_csr(s2.csrs, MIP) & !MIP_MEIP),
                    ..s2
                },
                Some(Interrupt::MachineExternalInterrupt),
            )
        } else if pending & MIP_MSIP != 0 {
            (
                CpuState {
                    csrs: spec_store_csr(s2.csrs, MIP, spec_load_csr(s2.csrs, MIP) & !MIP_MSIP),
                    ..s2
                },
                Some(Interrupt::MachineSoftwareInterrupt),
            )
        } else if pending & MIP_MTIP != 0 {
            (
                CpuState {
                    csrs: spec_store_csr(s2.csrs, MIP, spec_load_csr(s2.csrs, MIP) & !MIP_MTIP),
                    ..s2
                },
                Some(Interrupt::MachineTimerInterrupt),
            )
        } else if pending & MIP_SEIP != 0 {
            (
                CpuState {
                    csrs: spec_store_csr(s2.csrs, MIP, spec_load_csr(s2.csrs, MIP) & !MIP_SEIP),
                    ..s2
                },
                Some(Interrupt::SupervisorExternalInterrupt),
            )
        } else if pending & MIP_SSIP != 0 {
            (
                CpuState {
                    csrs: spec_store_csr(s2.csrs, MIP, spec_load_csr(s2.csrs, MIP) & !MIP_SSIP),
                    ..s2
                },
                Some(Interrupt::SupervisorSoftwareInterrupt),
            )
        } else if pending & MIP_STIP != 0 {
            (
                CpuState {
                    csrs: spec_store_csr(s2.csrs, MIP, spec_load_csr(s2.csrs, MIP) & !MIP_STIP),
                    ..s2
                },
                Some(Interrupt::SupervisorTimerInterrupt),
            )
        } else {
            (s2, None)
        }
    }
}

impl Cpu {
    /// Arbitrate pending interrupts after an execute step, as
    /// [`spec_check_pending_interrupt`] describes.
    #[verifier::rlimit(50)]
    pub fn check_pending_interrupt(&mut self) -> (r: Option<Interrupt>)
        requires
            cpu_wf(old(self)@),
        ensures
            cpu_wf(final(self)@),
            (final(self)@, r) == spec_check_pending_interrupt(old(self)@),
    {
        // Interrupts are globally enabled when the current mode's
        // interrupt-enable bit of the status register is set.
        match self.mode {
            Mode::Machine => {
                if (self.load_csr(MSTATUS) >> 3) & 1 == 0 {
                    return None;
                }
            },
            Mode::Supervisor => {
                if (self.load_csr(SSTATUS) >> 1) & 1 == 0 {
                    return None;
                }
            },
            _ => {},
        }

        // Poll the UART first, then the virtio block device; a virtio
        // notification triggers the disk access (DMA) before its interrupt
        // is raised.
        let irq: u64 = if self.bus.uart.is_interrupting() {
            UART_IRQ
        } else if self.bus.virtio.is_interrupting() {
            let _ = Virtio::disk_access(self);
            VIRTIO_IRQ
        } else {
            0
        };

        if irq != 0 {
            let _ = self.bus.store(PLIC_SCLAIM, 32, irq);
            let mip = self.load_csr(MIP) | MIP_SEIP;
            self.store_csr(MIP, mip);
        }

        // An interrupt is taken when its bit is set in both mip and mie, in
        // the fixed priority order below; the taken bit is cleared in mip.
        let pending = self.load_csr(MIE) & self.load_csr(MIP);

        if (pending & MIP_MEIP) != 0 {
            let mip = self.load_csr(MIP) & !MIP_MEIP;
            self.store_csr(MIP, mip);
            return Some(Interrupt::MachineExternalInterrupt);
        }
        if (pending & MIP_MSIP) != 0 {
            let mip = self.load_csr(MIP) & !MIP_MSIP;
            self.store_csr(MIP, mip);
            return Some(Interrupt::MachineSoftwareInterrupt);
        }
        if (pending & MIP_MTIP) != 0 {
            let mip = self.load_csr(MIP) & !MIP_MTIP;
            self.store_csr(MIP, mip);
            return Some(Interrupt::MachineTimerInterrupt);
        }
        if (pending & MIP_SEIP) != 0 {
            let mip = self.load_csr(MIP) & !MIP_SEIP;
            self.store_csr(MIP, mip);
            return Some(Interrupt::SupervisorExternalInterrupt);
        }
        if (pending & MIP_SSIP) != 0 {
            let mip = self.load_csr(MIP) & !MIP_SSIP;
            self.store_csr(MIP, mip);
            return Some(Interrupt::SupervisorSoftwareInterrupt);
        }
        if (pending & MIP_STIP) != 0 {
            let mip = self.load_csr(MIP) & !MIP_STIP;
            self.store_csr(MIP, mip);
            return Some(Interrupt::SupervisorTimerInterrupt);
        }
        None
    }
}

/// Writing any CSR other than `sie` and reading it back returns the stored
/// value unchanged.
pub proof fn lemma_csr_store_then_load(csrs: Seq<u64>, addr: usize, value: u64)
    requires
        csrs.len() == 4096,
        addr < 4096,
        addr != SIE,
    ensures
        spec_load_csr(spec_store_csr(csrs, addr, value), addr) == value,
{
}

/// Writing `sie` and reading it back returns the value masked by `mideleg`,
/// and the bits of `mie` outside `mideleg` are preserved.
pub proof fn lemma_sie_store_then_load(csrs: Seq<u64>, value: u64)
    requires
        csrs.len() == 4096,
    ensures
        spec_load_csr(spec_store_csr(csrs, SIE, value), SIE) == value & csrs[MIDELEG as int],
        spec_store_csr(csrs, SIE, value)[MIE as int] & !csrs[MIDELEG as int] == csrs[MIE as int]
            & !csrs[MIDELEG as int],
{
    let m = csrs[MIE as int];
    let d = csrs[MIDELEG as int];
    assert(((m & !d) | (value & d)) & d == value & d) by (bit_vector);
    assert(((m & !d) | (value & d)) & !d == m & !d) by (bit_vector);
}

/// After the paging-state refresh that follows a write to `satp`, Sv39 is
/// enabled exactly when the mode field (bits 60 and up) is 8, and the cached
/// page-table root is the 44-bit PPN field times the page size.
pub proof fn lemma_satp_controls_paging(s: CpuState)
    requires
        s.csrs.len() == 4096,
    ensures
        spec_update_paging(s, SATP).enable_paging <==> (spec_load_csr(s.csrs, SATP) >> 60) == 8,
        spec_update_paging(s, SATP).page_table == (spec_load_csr(s.csrs, SATP) & (((1u64 << 44)
            - 1) as u64)) * PAGE_SIZE,
{
    let satp = spec_load_csr(s.csrs, SATP);
    assert(satp & (((1u64 << 44) - 1) as u64) == satp & SATP_PPN_MASK) by (bit_vector);
    assert(satp & SATP_PPN_MASK <= SATP_PPN_MASK) by (bit_vector);
}

/// The outcome of inspecting one PTE during the walk.
enum WalkStep {
    /// The walk stops with a fault.
    Fault(Exception),
    /// A leaf PTE: the translated physical address.
    Leaf(u64),
    /// A pointer PTE: the base of the next-level page table.
    Next(u64),
}

/// The nine-bit VPN fields are bounded by 0x1ff.
proof fn lemma_vpn_bounds(addr: u64)
    by (bit_vector)
    ensures
        (addr >> 30) & 0x1ff <= 0x1ff,
        (addr >> 21) & 0x1ff <= 0x1ff,
        (addr >> 12) & 0x1ff <= 0x1ff,
{
}

/// The 44-bit PPN field of a PTE is bounded by its mask.
proof fn lemma_ppn_bound(pte: u64)
    by (bit_vector)
    ensures
        (pte >> 10) & 0x0fff_ffff_ffff <= 0x0fff_ffff_ffff,
{
}

/// The page fault corresponding to an access kind.
fn page_fault_of(access_type: AccessType) -> (e: Exception)
    ensures
        e == spec_page_fault(access_type),
{
    match access_type {
        AccessType::Instruction => Exception::InstructionPageFault,
        AccessType::Load => Exception::LoadPageFault,
        AccessType::Store => Exception::StoreAMOPageFault,
    }
}

/// Inspect one PTE on level `i`: fault, leaf translation, or the base of
/// the next page-table level, exactly as one unfolding of [`spec_walk`]
/// classifies it.
fn walk_classify(pte: u64, addr: u64, access_type: AccessType, i: u64) -> (step: WalkStep)
    requires
        i <= 2,
    ensures
        ({
            let v = pte & 1;
            let r = (pte >> 1) & 1;
            let w = (pte >> 2) & 1;
            let x = (pte >> 3) & 1;
            if v == 0 || (r == 0 && w == 1) {
                step == WalkStep::Fault(spec_page_fault(access_type))
            } else if r == 1 || x == 1 {
                let offset = addr & 0xfff;
                if i == 0 {
                    step == WalkStep::Leaf((((pte >> 10) & 0x0fff_ffff_ffff) << 12) | offset)
                } else if i == 1 {
                    step == WalkStep::Leaf(
                        (((pte >> 28) & 0x03ff_ffff) << 30) | (((pte >> 19) & 0x1ff) << 21) | (((
                        addr >> 12) & 0x1ff) << 12) | offset,
                    )
                } else {
                    step == WalkStep::Leaf(
                        (((pte >> 28) & 0x03ff_ffff) << 30) | (((addr >> 21) & 0x1ff) << 21) | (((
                        addr >> 12) & 0x1ff) << 12) | offset,
                    )
                }
            } else {
                step == WalkStep::Next(
                    ((((pte >> 10) & 0x0fff_ffff_ffff) * PAGE_SIZE) as u64),
                ) && ((pte >> 10) & 0x0fff_ffff_ffff) * PAGE_SIZE <= PAGE_TABLE_ROOT_MAX
            }
        }),
{
    let v = pte & 1;
    let r = (pte >> 1) & 1;
    let w = (pte >> 2) & 1;
    let x = (pte >> 3) & 1;
    if v == 0 || (r == 0 && w == 1) {
        WalkStep::Fault(page_fault_of(access_type))
    } else if r == 1 || x == 1 {
        let offset = addr & 0xfff;
        if i == 0 {
            WalkStep::Leaf((((pte >> 10) & 0x0fff_ffff_ffff) << 12) | offset)
        } else if i == 1 {
            WalkStep::Leaf(
                (((pte >> 28) & 0x03ff_ffff) << 30) | (((pte >> 19) & 0x1ff) << 21) | (((addr
                    >> 12) & 0x1ff) << 12) | offset,
            )
        } else {
            WalkStep::Leaf(
                (((pte >> 28) & 0x03ff_ffff) << 30) | (((addr >> 21) & 0x1ff) << 21) | (((addr
                    >> 12) & 0x1ff) << 12) | offset,
            )
        }
    } else {
        proof {
            lemma_ppn_bound(pte);
        }
        WalkStep::Next(((pte >> 10) & 0x0fff_ffff_ffff) * PAGE_SIZE)
    }
}

} // verus!
