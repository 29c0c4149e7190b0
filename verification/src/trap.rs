//! Exceptions and interrupts: the trap taxonomy of the hart, and the
//! delivery of a trap into machine or supervisor state (`take_trap`), whose
//! full effect on the machine is given by `spec_take_trap`.

use vstd::prelude::*;

use crate::cpu::{
    spec_load_csr, spec_store_csr, Cpu, CpuState, Mode, MCAUSE, MEDELEG, MEPC, MSTATUS, MTVAL,
    MTVEC, SCAUSE, SEPC, SSTATUS, STVAL, STVEC,
};

verus! {

/// The interrupt bit: the most significant bit of a cause word.
pub const INTERRUPT_BIT: u64 = 0x8000_0000_0000_0000;

/// An unusual condition occurring at run time, associated with an instruction
/// of the current hardware thread.
#[derive(Debug, Clone, Copy, PartialEq, Eq, Structural)]
pub enum Exception {
    InstructionAddressMisaligned,
    InstructionAccessFault,
    IllegalInstruction,
    Breakpoint,
    LoadAddressMisaligned,
    LoadAccessFault,
    StoreAMOAddressMisaligned,
    StoreAMOAccessFault,
    EnvironmentCallFromUMode,
    EnvironmentCallFromSMode,
    EnvironmentCallFromMMode,
    InstructionPageFault,
    LoadPageFault,
    StoreAMOPageFault,
}

/// An external asynchronous event that may cause the hart to experience an
/// unexpected transfer of control.
#[derive(Debug, Clone, Copy, PartialEq, Eq, Structural)]
pub enum Interrupt {
    UserSoftwareInterrupt,
    SupervisorSoftwareInterrupt,
    MachineSoftwareInterrupt,
    UserTimerInterrupt,
    SupervisorTimerInterrupt,
    MachineTimerInterrupt,
    UserExternalInterrupt,
    SupervisorExternalInterrupt,
    MachineExternalInterrupt,
}

/// The architectural cause code of an exception.
pub open spec fn spec_exception_code(e: Exception) -> u64 {
    match e {
        Exception::InstructionAddressMisaligned => 0,
        Exception::InstructionAccessFault => 1,
        Exception::IllegalInstruction => 2,
        Exception::Breakpoint => 3,
        Exception::LoadAddressMisaligned => 4,
        Exception::LoadAccessFault => 5,
        Exception::StoreAMOAddressMisaligned => 6,
        Exception::StoreAMOAccessFault => 7,
        Exception::EnvironmentCallFromUMode => 8,
        Exception::EnvironmentCallFromSMode => 9,
        Exception::EnvironmentCallFromMMode => 11,
        Exception::InstructionPageFault => 12,
        Exception::LoadPageFault => 13,
        Exception::StoreAMOPageFault => 15,
    }
}

/// The architectural cause code of an interrupt (without the interrupt bit).
pub open spec fn spec_interrupt_code(i: Interrupt) -> u64 {
    match i {
        Interrupt::UserSoftwareInterrupt => 0,
        Interrupt::SupervisorSoftwareInterrupt => 1,
        Interrupt::MachineSoftwareInterrupt => 3,
        Interrupt::UserTimerInterrupt => 4,
        Interrupt::SupervisorTimerInterrupt => 5,
        Interrupt::MachineTimerInterrupt => 7,
        Interrupt::UserExternalInterrupt => 8,
        Interrupt::SupervisorExternalInterrupt => 9,
        Interrupt::MachineExternalInterrupt => 11,
    }
}

/// Whether an exception terminates the run loop after being delivered.
pub open spec fn spec_is_fatal(e: Exception) -> bool {
    match e {
        Exception::InstructionAddressMisaligned
        | Exception::InstructionAccessFault
        | Exception::LoadAccessFault
        | Exception::StoreAMOAddressMisaligned
        | Exception::StoreAMOAccessFault => true,
        _ => false,
    }
}

/// Whether a mode is at most supervisor (the modes a trap can be delegated
/// away from).
pub open spec fn spec_mode_le_supervisor(m: Mode) -> bool {
    m == Mode::User || m == Mode::Supervisor
}

/// What taking a trap does to the machine, given the cause code and whether
/// it is an interrupt.
///
/// The faulting program counter is the current one minus four (the step loop
/// advances it right after the fetch).  If the previous mode was at most
/// supervisor and the `medeleg` bit of the cause is set, the trap is handled
/// in S-mode: the program counter moves to `stvec` (plus the vectored offset
/// for an interrupt), `sepc`, `scause` and `stval` are written, and the
/// SPIE/SIE/SPP fields of `sstatus` are updated.  Otherwise it is handled in
/// M-mode with the symmetric `mtvec`/`mepc`/`mcause`/`mtval` and
/// MPIE/MIE/MPP updates, MPP being cleared to zero.
pub open spec fn spec_take_trap(s: CpuState, code: u64, is_interrupt: bool) -> CpuState {
    let exception_pc = s.pc.wrapping_sub(4);
    let previous_mode = s.mode;
    let cause = if is_interrupt {
        INTERRUPT_BIT | code
    } else {
        code
    };
    if spec_mode_le_supervisor(previous_mode) && (spec_load_csr(s.csrs, MEDELEG).wrapping_shr(
        cause as u32,
    )) & 1 != 0 {
        // Handle the trap in S-mode.
        let stvec = spec_load_csr(s.csrs, STVEC);
        let pc = if is_interrupt {
            (stvec & !1).wrapping_add(
                if stvec & 1 == 1 {
                    (4 as u64).wrapping_mul(cause)
                } else {
                    0
                },
            )
        } else {
            stvec & !1
        };
        let c1 = spec_store_csr(s.csrs, SEPC, exception_pc & !1);
        let c2 = spec_store_csr(c1, SCAUSE, cause);
        let c3 = spec_store_csr(c2, STVAL, 0);
        let c4 = spec_store_csr(
            c3,
            SSTATUS,
            if (spec_load_csr(c3, SSTATUS) >> 1) & 1 == 1 {
                spec_load_csr(c3, SSTATUS) | (1u64 << 5)
            } else {
                spec_load_csr(c3, SSTATUS) & !(1u64 << 5)
            },
        );
        let c5 = spec_store_csr(c4, SSTATUS, spec_load_csr(c4, SSTATUS) & !(1u64 << 1));
        let c6 = if previous_mode == Mode::User {
            spec_store_csr(c5, SSTATUS, spec_load_csr(c5, SSTATUS) & !(1u64 << 8))
        } else {
            spec_store_csr(c5, SSTATUS, spec_load_csr(c5, SSTATUS) | (1u64 << 8))
        };
        CpuState { mode: Mode::Supervisor, pc, csrs: c6, ..s }
    } else {
        // Handle the trap in M-mode.
        let mtvec = spec_load_csr(s.csrs, MTVEC);
        let pc = if is_interrupt {
            (mtvec & !1).wrapping_add(
                if mtvec & 1 == 1 {
                    (4 as u64).wrapping_mul(cause)
                } else {
                    0
                },
            )
        } else {
            mtvec & !1
        };
        let c1 = spec_store_csr(s.csrs, MEPC, exception_pc & !1);
        let c2 = spec_store_csr(c1, MCAUSE, cause);
        let c3 = spec_store_csr(c2, MTVAL, 0);
        let c4 = spec_store_csr(
            c3,
            MSTATUS,
            if (spec_load_csr(c3, MSTATUS) >> 3) & 1 == 1 {
                spec_load_csr(c3, MSTATUS) | (1u64 << 7)
            } else {
                spec_load_csr(c3, MSTATUS) & !(1u64 << 7)
            },
        );
        let c5 = spec_store_csr(c4, MSTATUS, spec_load_csr(c4, MSTATUS) & !(1u64 << 3));
        let c6 = spec_store_csr(c5, MSTATUS, spec_load_csr(c5, MSTATUS) & !(0b11u64 << 11));
        CpuState { mode: Mode::Machine, pc, csrs: c6, ..s }
    }
}

/// The transfer of control to a trap handler, caused by either an exception
/// or an interrupt.
pub trait Trap {
    /// The architectural cause code.
    spec fn spec_code(&self) -> u64;

    /// Whether the trap is an interrupt (the MSB of its cause word is set).
    spec fn spec_is_interrupt(&self) -> bool;

    /// Return the cause code that identifies the trap.
    fn exception_code(&self) -> (c: u64)
        ensures
            c == self.spec_code(),
    ;

    /// Deliver the trap into the machine, as [`spec_take_trap`] describes.
    fn take_trap(&self, cpu: &mut Cpu)
        ensures
            final(cpu)@ == spec_take_trap(old(cpu)@, self.spec_code(), self.spec_is_interrupt()),
    ;
}

/// Deliver a trap with the given cause code into the machine, as
/// [`spec_take_trap`] describes.
pub fn take_trap_helper(cpu: &mut Cpu, code: u64, is_interrupt: bool)
    ensures
        final(cpu)@ == spec_take_trap(old(cpu)@, code, is_interrupt),
{
    let exception_pc = cpu.pc.wrapping_sub(4);
    let previous_mode = cpu.mode;

    let mut cause = code;
    // Set the interrupt bit if the trap is an interrupt.
    if is_interrupt {
        cause = INTERRUPT_BIT | cause;
    }
    let deleg_to_s = match previous_mode {
        Mode::User | Mode::Supervisor => (cpu.load_csr(MEDELEG).wrapping_shr(
            #[verifier::truncate] (cause as u32),
        )) & 1 != 0,
        Mode::Machine => false,
    };
    if deleg_to_s {
        // Handle the trap in S-mode.
        cpu.mode = Mode::Supervisor;

        // Set the program counter to the supervisor trap-handler base
        // address (stvec), with the vectored offset for an interrupt.
        if is_interrupt {
            let stvec = cpu.load_csr(STVEC);
            let vector = if stvec & 1 == 1 {
                (4 as u64).wrapping_mul(cause)
            } else {
                0
            };
            cpu.pc = (stvec & !1).wrapping_add(vector);
        } else {
            cpu.pc = cpu.load_csr(STVEC) & !1;
        }
        // sepc holds the address of the instruction that trapped; its low
        // bit is always zero.
        cpu.store_csr(SEPC, exception_pc & !1);
        // scause holds the cause of the trap.
        cpu.store_csr(SCAUSE, cause);
        // stval carries exception-specific information; zero here.
        cpu.store_csr(STVAL, 0);
        // Copy the SIE bit into SPIE, then clear SIE.
        let sstatus = cpu.load_csr(SSTATUS);
        cpu.store_csr(
            SSTATUS,
            if (sstatus >> 1) & 1 == 1 {
                sstatus | (1u64 << 5)
            } else {
                sstatus & !(1u64 << 5)
            },
        );
        cpu.store_csr(SSTATUS, cpu.load_csr(SSTATUS) & !(1u64 << 1));
        // SPP is set to zero when the trap came from user mode, one
        // otherwise.
        match previous_mode {
            Mode::User => {
                let v = cpu.load_csr(SSTATUS) & !(1u64 << 8);
                cpu.store_csr(SSTATUS, v);
            },
            _ => {
                let v = cpu.load_csr(SSTATUS) | (1u64 << 8);
                cpu.store_csr(SSTATUS, v);
            },
        }
    } else {
        // Handle the trap in M-mode.
        cpu.mode = Mode::Machine;

        // Set the program counter to the machine trap-handler base address
        // (mtvec), with the vectored offset for an interrupt.
        if is_interrupt {
            let mtvec = cpu.load_csr(MTVEC);
            let vector = if mtvec & 1 == 1 {
                (4 as u64).wrapping_mul(cause)
            } else {
                0
            };
            cpu.pc = (mtvec & !1).wrapping_add(vector);
        } else {
            cpu.pc = cpu.load_csr(MTVEC) & !1;
        }
        // mepc holds the address of the instruction that trapped; its low
        // bit is always zero.
        cpu.store_csr(MEPC, exception_pc & !1);
        // mcause holds the cause of the trap.
        cpu.store_csr(MCAUSE, cause);
        // mtval carries exception-specific information; zero here.
        cpu.store_csr(MTVAL, 0);
        // Copy the MIE bit into MPIE, then clear MIE.
        let mstatus = cpu.load_csr(MSTATUS);
        cpu.store_csr(
            MSTATUS,
            if (mstatus >> 3) & 1 == 1 {
                mstatus | (1u64 << 7)
            } else {
                mstatus & !(1u64 << 7)
            },
        );
        cpu.store_csr(MSTATUS, cpu.load_csr(MSTATUS) & !(1u64 << 3));
        // Clear MPP.
        cpu.store_csr(MSTATUS, cpu.load_csr(MSTATUS) & !(0b11u64 << 11));
    }
    proof {
        assert(cpu@ =~= spec_take_trap(old(cpu)@, code, is_interrupt));
    }
}

impl Trap for Exception {
    open spec fn spec_code(&self) -> u64 {
        spec_exception_code(*self)
    }

    open spec fn spec_is_interrupt(&self) -> bool {
        false
    }

    fn exception_code(&self) -> (c: u64) {
        match self {
            Exception::InstructionAddressMisaligned => 0,
            Exception::InstructionAccessFault => 1,
            Exception::IllegalInstruction => 2,
            Exception::Breakpoint => 3,
            Exception::LoadAddressMisaligned => 4,
            Exception::LoadAccessFault => 5,
            Exception::StoreAMOAddressMisaligned => 6,
            Exception::StoreAMOAccessFault => 7,
            Exception::EnvironmentCallFromUMode => 8,
            Exception::EnvironmentCallFromSMode => 9,
            Exception::EnvironmentCallFromMMode => 11,
            Exception::InstructionPageFault => 12,
            Exception::LoadPageFault => 13,
            Exception::StoreAMOPageFault => 15,
        }
    }

    fn take_trap(&self, cpu: &mut Cpu) {
        let code = self.exception_code();
        take_trap_helper(cpu, code, false);
    }
}

impl Trap for Interrupt {
    open spec fn spec_code(&self) -> u64 {
        spec_interrupt_code(*self)
    }

    open spec fn spec_is_interrupt(&self) -> bool {
        true
    }

    fn exception_code(&self) -> (c: u64) {
        match self {
            Interrupt::UserSoftwareInterrupt => 0,
            Interrupt::SupervisorSoftwareInterrupt => 1,
            Interrupt::MachineSoftwareInterrupt => 3,
            Interrupt::UserTimerInterrupt => 4,
            Interrupt::SupervisorTimerInterrupt => 5,
            Interrupt::MachineTimerInterrupt => 7,
            Interrupt::UserExternalInterrupt => 8,
            Interrupt::SupervisorExternalInterrupt => 9,
            Interrupt::MachineExternalInterrupt => 11,
        }
    }

    fn take_trap(&self, cpu: &mut Cpu) {
        let code = self.exception_code();
        take_trap_helper(cpu, code, true);
    }
}

/// An exception taken in supervisor mode without delegation lands in machine
/// mode: the mode becomes Machine, the program counter moves to `mtvec` with
/// its low bit cleared, `mepc` holds the faulting instruction's address and
/// `mcause` holds the cause code.
pub proof fn lemma_undelegated_supervisor_exception(s: CpuState, code: u64)
    requires
        s.csrs.len() == 4096,
        s.mode == Mode::Supervisor,
        spec_load_csr(s.csrs, MEDELEG).wrapping_shr(code as u32) & 1 == 0,
    ensures
        spec_take_trap(s, code, false).mode == Mode::Machine,
        spec_take_trap(s, code, false).pc == spec_load_csr(s.csrs, MTVEC) & !1,
        spec_load_csr(spec_take_trap(s, code, false).csrs, MEPC) == (s.pc.wrapping_sub(4) & !1),
        spec_load_csr(spec_take_trap(s, code, false).csrs, MCAUSE) == code,
{
}

impl Exception {
    /// Whether this exception terminates the run loop after being delivered.
    pub fn is_fatal(&self) -> (r: bool)
        ensures
            r == spec_is_fatal(*self),
    {
        match self {
            Exception::InstructionAddressMisaligned
            | Exception::InstructionAccessFault
            | Exception::LoadAccessFault
            | Exception::StoreAMOAddressMisaligned
            | Exception::StoreAMOAccessFault => true,
            _ => false,
        }
    }
}

} // verus!
