//! System-level tests: the CSR file and its aliases, paging control, trap
//! delivery, trap returns, the page walk, the disk DMA and the per-step
//! interrupt arbitration.

use rvemu::bus::DRAM_BASE;
use rvemu::cpu::{
    Cpu, Mode, MCAUSE, MEDELEG, MEPC, MIDELEG, MIE, MIP, MSTATUS, MTVEC, SATP, SCAUSE, SEPC, SIE,
    STVEC,
};
use rvemu::plic::PLIC_SCLAIM;
use rvemu::trap::{Exception, Interrupt, Trap};
use rvemu::virtio::{VIRTIO_GUEST_PAGE_SIZE, VIRTIO_QUEUE_NOTIFY, VIRTIO_QUEUE_PFN};

fn fresh_cpu() -> Cpu {
    Cpu::new(Vec::new(), Vec::new())
}

#[test]
fn csr_store_then_load_round_trips() {
    let mut cpu = fresh_cpu();
    cpu.store_csr(MSTATUS, 0x1234_5678_9abc_def0);
    assert_eq!(cpu.load_csr(MSTATUS), 0x1234_5678_9abc_def0);
    cpu.store_csr(MTVEC, 7);
    assert_eq!(cpu.load_csr(MTVEC), 7);
    cpu.store_csr(MEDELEG, u64::MAX);
    assert_eq!(cpu.load_csr(MEDELEG), u64::MAX);
}

#[test]
fn sie_reads_as_mie_masked_by_mideleg() {
    let mut cpu = fresh_cpu();
    cpu.store_csr(MIDELEG, 0xf0);
    cpu.store_csr(MIE, 0x0f);
    // A write to sie may only change the delegated bits.
    cpu.store_csr(SIE, 0xff);
    assert_eq!(cpu.load_csr(SIE), 0xf0);
    // The mie bits outside mideleg kept their old value.
    assert_eq!(cpu.load_csr(MIE), 0xff);
    cpu.store_csr(SIE, 0x00);
    assert_eq!(cpu.load_csr(SIE), 0x00);
    assert_eq!(cpu.load_csr(MIE), 0x0f);
}

#[test]
fn satp_write_enables_and_disables_paging() {
    let mut cpu = fresh_cpu();
    // csrrw x0,satp,x1 with mode field 8 (Sv39) and PPN 0x80000.
    cpu.regs[1] = (8u64 << 60) | 0x80000;
    cpu.execute(0x1800_9073).unwrap();
    assert!(cpu.enable_paging);
    assert_eq!(cpu.page_table, 0x80000 * 4096);
    assert_eq!(cpu.load_csr(SATP), (8u64 << 60) | 0x80000);
    // Any other mode field turns translation off again.
    cpu.regs[1] = 0x80000;
    cpu.execute(0x1800_9073).unwrap();
    assert!(!cpu.enable_paging);
    assert_eq!(cpu.page_table, 0x80000 * 4096);
}

#[test]
fn ecall_from_machine_mode_traps_to_mtvec() {
    // Memory holds a single ecall; mtvec is set beforehand.
    let code = vec![0x73, 0x00, 0x00, 0x00];
    let mut cpu = Cpu::new(code, Vec::new());
    cpu.store_csr(MTVEC, DRAM_BASE + 0x200);
    let inst = cpu.fetch().unwrap();
    cpu.pc = cpu.pc.wrapping_add(4);
    let e = cpu.execute(inst).unwrap_err();
    assert_eq!(e, Exception::EnvironmentCallFromMMode);
    assert_eq!(e.exception_code(), 11);
    e.take_trap(&mut cpu);
    assert_eq!(cpu.load_csr(MCAUSE), 11);
    assert_eq!(cpu.load_csr(MEPC), DRAM_BASE);
    assert_eq!(cpu.pc, (DRAM_BASE + 0x200) & !1);
    assert_eq!(cpu.mode, Mode::Machine);
}

#[test]
fn undelegated_supervisor_exception_enters_machine_mode() {
    let mut cpu = fresh_cpu();
    cpu.mode = Mode::Supervisor;
    cpu.store_csr(MTVEC, DRAM_BASE + 0x100);
    cpu.pc = DRAM_BASE + 0x44;
    let e = Exception::IllegalInstruction;
    e.take_trap(&mut cpu);
    assert_eq!(cpu.mode, Mode::Machine);
    assert_eq!(cpu.pc, (DRAM_BASE + 0x100) & !1);
    assert_eq!(cpu.load_csr(MEPC), DRAM_BASE + 0x40);
    assert_eq!(cpu.load_csr(MCAUSE), 2);
}

#[test]
fn delegated_supervisor_exception_enters_supervisor_mode() {
    let mut cpu = fresh_cpu();
    cpu.mode = Mode::Supervisor;
    cpu.store_csr(MEDELEG, 1 << 13);
    cpu.store_csr(STVEC, DRAM_BASE + 0x300);
    cpu.pc = DRAM_BASE + 0x24;
    let e = Exception::LoadPageFault;
    e.take_trap(&mut cpu);
    assert_eq!(cpu.mode, Mode::Supervisor);
    assert_eq!(cpu.pc, (DRAM_BASE + 0x300) & !1);
    assert_eq!(cpu.load_csr(SEPC), DRAM_BASE + 0x20);
    assert_eq!(cpu.load_csr(SCAUSE), 13);
}

#[test]
fn load_through_empty_page_table_faults() {
    // Enable Sv39 with the page-table root at the bottom of DRAM, which is
    // all zero: the very first PTE is invalid.
    let mut cpu = fresh_cpu();
    cpu.regs[1] = (8u64 << 60) | 0x80000;
    cpu.execute(0x1800_9073).unwrap();
    assert!(cpu.enable_paging);
    // lw x3,0(x5) from a virtual address that walks the empty table.
    cpu.regs[5] = 0x4000;
    let e = cpu.execute(0x0002_a183).unwrap_err();
    assert_eq!(e, Exception::LoadPageFault);
    // Delivered without delegation, the fault enters machine mode.
    cpu.store_csr(MTVEC, DRAM_BASE + 0x80);
    e.take_trap(&mut cpu);
    assert_eq!(cpu.mode, Mode::Machine);
    assert_eq!(cpu.pc, DRAM_BASE + 0x80);
    assert_eq!(cpu.load_csr(MCAUSE), 13);
}

#[test]
fn page_walk_translates_a_mapped_page() {
    // Build a one-entry Sv39 mapping by hand: a level-2 leaf PTE ("gigapage")
    // mapping VA 0 to PA 0x8000_0000, with V|R|X set, then read through it.
    let mut cpu = fresh_cpu();
    // Store the instruction word at DRAM_BASE + 0x100 (physical).
    cpu.bus.store(DRAM_BASE + 0x100, 32, 0xdead_beef).unwrap();
    // PTE at root + vpn2*8 where root = DRAM_BASE + 0x1000 and vpn2 of the
    // virtual address 0x8000_0100 is 2: PPN points at 0x8000_0000 >> 12.
    let pte = ((0x8000_0000u64 >> 12) << 10) | 0xb; // V|R|X
    cpu.bus.store(DRAM_BASE + 0x1000 + 2 * 8, 64, pte).unwrap();
    // satp: mode 8, root PPN = (DRAM_BASE + 0x1000) / 4096.
    cpu.regs[1] = (8u64 << 60) | ((DRAM_BASE + 0x1000) >> 12);
    cpu.execute(0x1800_9073).unwrap();
    // lwu x3,0x100(x5) with x5 = 0x8000_0000: a gigapage maps it 1:1 here.
    cpu.regs[5] = 0x8000_0000;
    cpu.execute(0x1002_e183).unwrap();
    assert_eq!(cpu.regs[3], 0xdead_beef);
}

#[test]
fn mret_restores_pc_and_mode() {
    let mut cpu = fresh_cpu();
    cpu.store_csr(MEPC, DRAM_BASE + 0x40);
    // MPP = 1 (supervisor), MPIE = 1.
    cpu.store_csr(MSTATUS, (1u64 << 11) | (1u64 << 7));
    cpu.execute(0x3020_0073).unwrap();
    assert_eq!(cpu.pc, DRAM_BASE + 0x40);
    assert_eq!(cpu.mode, Mode::Supervisor);
    // MIE received the old MPIE; MPP was cleared.
    assert_eq!((cpu.load_csr(MSTATUS) >> 3) & 1, 1);
    assert_eq!((cpu.load_csr(MSTATUS) >> 11) & 0b11, 0);
}

#[test]
fn sret_restores_pc_and_mode() {
    let mut cpu = fresh_cpu();
    cpu.mode = Mode::Supervisor;
    cpu.store_csr(SEPC, DRAM_BASE + 0x88);
    // SPP = 0: return to user mode.
    cpu.execute(0x1020_0073).unwrap();
    assert_eq!(cpu.pc, DRAM_BASE + 0x88);
    assert_eq!(cpu.mode, Mode::User);
}

#[test]
fn interrupt_taken_only_when_globally_enabled() {
    let mut cpu = fresh_cpu();
    // Machine mode with MIE clear: nothing is taken.
    cpu.store_csr(MIE, 0x800);
    cpu.store_csr(MIP, 0x800);
    assert_eq!(cpu.check_pending_interrupt(), None);
    // With MSTATUS.MIE set the machine external interrupt is taken and its
    // pending bit is cleared.
    cpu.store_csr(MSTATUS, 1 << 3);
    assert_eq!(
        cpu.check_pending_interrupt(),
        Some(Interrupt::MachineExternalInterrupt)
    );
    assert_eq!(cpu.load_csr(MIP) & 0x800, 0);
}

#[test]
fn uart_interrupt_claims_irq_ten() {
    let mut cpu = fresh_cpu();
    cpu.store_csr(MSTATUS, 1 << 3);
    cpu.store_csr(MIE, 0x200); // SEIP enabled
    assert!(cpu.bus.uart.recv_byte(0x41));
    let taken = cpu.check_pending_interrupt();
    assert_eq!(taken, Some(Interrupt::SupervisorExternalInterrupt));
    assert_eq!(cpu.bus.load(PLIC_SCLAIM, 32).unwrap(), 10);
}

#[test]
fn virtio_notification_runs_disk_access() {
    // A read request: two descriptors, the second pointing at a buffer the
    // device fills from the disk.
    let disk = vec![0xaa, 0xbb, 0xcc, 0xdd, 0xee];
    let mut cpu = Cpu::new(Vec::new(), disk);
    cpu.store_csr(MSTATUS, 1 << 3);
    cpu.store_csr(MIE, 0x200);

    // The queue lives at the bottom of DRAM: page size 4096, PFN 0x80000.
    cpu.bus.store(VIRTIO_GUEST_PAGE_SIZE, 32, 4096).unwrap();
    cpu.bus.store(VIRTIO_QUEUE_PFN, 32, 0x80000).unwrap();

    let desc = DRAM_BASE;
    let avail = desc + 0x40;
    let used = desc + 4096;

    // avail: the 16-bit ring cursor (read from avail+1) is 0, and the ring
    // entry at avail+2 names descriptor 0.
    cpu.bus.store(avail + 1, 16, 0).unwrap();
    cpu.bus.store(avail + 2, 16, 0).unwrap();
    // Descriptor 0: header at DRAM_BASE+0x1000, next = 1.
    cpu.bus.store(desc, 64, DRAM_BASE + 0x1000).unwrap();
    cpu.bus.store(desc + 14, 16, 1).unwrap();
    // Descriptor 1: buffer at DRAM_BASE+0x2000, length 4, flags bit 1 set
    // (the device writes to memory).
    cpu.bus.store(desc + 16, 64, DRAM_BASE + 0x2000).unwrap();
    cpu.bus.store(desc + 16 + 8, 32, 4).unwrap();
    cpu.bus.store(desc + 16 + 12, 16, 2).unwrap();
    // The header's sector field: sector 0.
    cpu.bus.store(DRAM_BASE + 0x1000 + 8, 64, 0).unwrap();

    // Notify the queue, then let the arbitration run the transfer.
    cpu.bus.store(VIRTIO_QUEUE_NOTIFY, 32, 0).unwrap();
    let taken = cpu.check_pending_interrupt();
    assert_eq!(taken, Some(Interrupt::SupervisorExternalInterrupt));
    assert_eq!(cpu.bus.load(PLIC_SCLAIM, 32).unwrap(), 1);

    // The first four disk bytes landed in the buffer.
    assert_eq!(cpu.bus.load(DRAM_BASE + 0x2000, 32).unwrap(), 0xddcc_bbaa);
    // The used ring received the id 1 (the counter after one request).
    assert_eq!(cpu.bus.load(used + 2, 16).unwrap(), 1);
}

#[test]
fn virtio_write_request_copies_memory_to_disk() {
    let disk = vec![0u8; 1024];
    let mut cpu = Cpu::new(Vec::new(), disk);
    cpu.store_csr(MSTATUS, 1 << 3);
    cpu.store_csr(MIE, 0x200);
    cpu.bus.store(VIRTIO_GUEST_PAGE_SIZE, 32, 4096).unwrap();
    cpu.bus.store(VIRTIO_QUEUE_PFN, 32, 0x80000).unwrap();

    let desc = DRAM_BASE;
    let avail = desc + 0x40;
    cpu.bus.store(avail + 1, 16, 0).unwrap();
    cpu.bus.store(avail + 2, 16, 0).unwrap();
    cpu.bus.store(desc, 64, DRAM_BASE + 0x1000).unwrap();
    cpu.bus.store(desc + 14, 16, 1).unwrap();
    // Flags bit 1 clear: the device reads from memory (write to disk),
    // sector 1.
    cpu.bus.store(desc + 16, 64, DRAM_BASE + 0x2000).unwrap();
    cpu.bus.store(desc + 16 + 8, 32, 4).unwrap();
    cpu.bus.store(desc + 16 + 12, 16, 0).unwrap();
    cpu.bus.store(DRAM_BASE + 0x1000 + 8, 64, 1).unwrap();
    cpu.bus.store(DRAM_BASE + 0x2000, 32, 0x4433_2211).unwrap();

    cpu.bus.store(VIRTIO_QUEUE_NOTIFY, 32, 0).unwrap();
    cpu.check_pending_interrupt();

    // The bytes were copied to disk sector 1 (byte offset 512); read them
    // back through a second, read-direction request.
    cpu.bus.store(desc + 16, 64, DRAM_BASE + 0x3000).unwrap();
    cpu.bus.store(desc + 16 + 12, 16, 2).unwrap();
    cpu.bus.store(VIRTIO_QUEUE_NOTIFY, 32, 0).unwrap();
    cpu.check_pending_interrupt();
    assert_eq!(cpu.bus.load(DRAM_BASE + 0x3000, 32).unwrap(), 0x4433_2211);
}

#[test]
fn delegated_vectored_interrupt_offsets_the_handler() {
    // A delegated supervisor timer interrupt with stvec in vectored mode
    // lands at base + 4 * cause; the interrupt bit of the cause word wraps
    // out of the multiplication.
    let mut cpu = fresh_cpu();
    cpu.mode = Mode::Supervisor;
    cpu.store_csr(MEDELEG, 1 << 5);
    cpu.store_csr(STVEC, (DRAM_BASE + 0x100) | 1);
    Interrupt::SupervisorTimerInterrupt.take_trap(&mut cpu);
    assert_eq!(cpu.mode, Mode::Supervisor);
    assert_eq!(cpu.pc, DRAM_BASE + 0x100 + 20);
    assert_eq!(cpu.load_csr(SCAUSE), (1u64 << 63) | 5);
}

#[test]
fn fatal_and_non_fatal_exceptions() {
    assert!(Exception::LoadAccessFault.is_fatal());
    assert!(Exception::InstructionAccessFault.is_fatal());
    assert!(Exception::StoreAMOAccessFault.is_fatal());
    assert!(Exception::InstructionAddressMisaligned.is_fatal());
    assert!(Exception::StoreAMOAddressMisaligned.is_fatal());
    assert!(!Exception::IllegalInstruction.is_fatal());
    assert!(!Exception::Breakpoint.is_fatal());
    assert!(!Exception::LoadPageFault.is_fatal());
    assert!(!Exception::EnvironmentCallFromMMode.is_fatal());
}

#[test]
fn interrupt_codes() {
    assert_eq!(Interrupt::SupervisorSoftwareInterrupt.exception_code(), 1);
    assert_eq!(Interrupt::MachineSoftwareInterrupt.exception_code(), 3);
    assert_eq!(Interrupt::SupervisorTimerInterrupt.exception_code(), 5);
    assert_eq!(Interrupt::MachineTimerInterrupt.exception_code(), 7);
    assert_eq!(Interrupt::SupervisorExternalInterrupt.exception_code(), 9);
    assert_eq!(Interrupt::MachineExternalInterrupt.exception_code(), 11);
}

#[test]
fn ebreak_raises_breakpoint() {
    let mut cpu = fresh_cpu();
    assert_eq!(cpu.execute(0x0010_0073), Err(Exception::Breakpoint));
}

#[test]
fn csrrs_and_csrrc_modify_bits() {
    let mut cpu = fresh_cpu();
    cpu.store_csr(MSTATUS, 0xf0);
    // csrrs x1,mstatus,x2 with x2 = 0x0f: x1 gets the old value.
    cpu.regs[2] = 0x0f;
    cpu.execute(0x3001_20f3).unwrap();
    assert_eq!(cpu.regs[1], 0xf0);
    assert_eq!(cpu.load_csr(MSTATUS), 0xff);
    // csrrc x3,mstatus,x2 clears those bits again.
    cpu.execute(0x3001_31f3).unwrap();
    assert_eq!(cpu.regs[3], 0xff);
    assert_eq!(cpu.load_csr(MSTATUS), 0xf0);
}

#[test]
fn csr_immediate_forms() {
    let mut cpu = fresh_cpu();
    // csrrwi x1,mscratch-like slot: use mtvec for simplicity; zimm = 21.
    cpu.store_csr(MTVEC, 3);
    cpu.execute(0x305a_d0f3).unwrap(); // csrrwi x1,mtvec,21
    assert_eq!(cpu.regs[1], 3);
    assert_eq!(cpu.load_csr(MTVEC), 21);
    cpu.execute(0x305a_e0f3).unwrap(); // csrrsi x1,mtvec,21
    assert_eq!(cpu.regs[1], 21);
    cpu.execute(0x305a_f0f3).unwrap(); // csrrci x1,mtvec,21
    assert_eq!(cpu.load_csr(MTVEC), 0);
}
