//! Instruction execution for the RV64IMA subset (plus Zicsr and the system
//! instructions).  Every opcode group has a spec-level twin that gives the
//! exact machine-state transition of each instruction; `Cpu::execute`
//! composes them into the transition of one decoded instruction word.

use vstd::prelude::*;

use crate::cpu::{
    cpu_wf, spec_cpu_load, spec_cpu_store, spec_load_csr, spec_store_csr, spec_update_paging, Cpu,
    CpuState, Mode, MEPC, MSTATUS, SEPC, SSTATUS,
};
use crate::trap::Exception;

verus! {

/// The destination register field of an instruction word.
pub open spec fn spec_rd(inst: u64) -> int {
    ((inst & 0x0000_0f80) >> 7) as int
}

/// The first source register field of an instruction word.
pub open spec fn spec_rs1(inst: u64) -> int {
    ((inst & 0x000f_8000) >> 15) as int
}

/// The second source register field of an instruction word.
pub open spec fn spec_rs2(inst: u64) -> int {
    ((inst & 0x01f0_0000) >> 20) as int
}

/// The register fields of an instruction are below 32 and the CSR field is
/// below 4096.
proof fn lemma_decode_bounds(inst: u64)
    by (bit_vector)
    ensures
        ((inst & 0x0000_0f80u64) >> 7) < 32,
        ((inst & 0x000f_8000u64) >> 15) < 32,
        ((inst & 0x01f0_0000u64) >> 20) < 32,
        ((inst & 0xfff0_0000u64) >> 20) < 4096,
{
}

/// Masking with 0x3f or 0x1f bounds a value below 64 or 32.
proof fn lemma_shamt_bounds(v: u64)
    by (bit_vector)
    ensures
        v & 0x3f < 64,
        v & 0x1f < 32,
{
}

/// One load instruction (opcode 0x03): compute the effective address from
/// `rs1` and the sign-extended I-immediate, load through translation, and
/// sign- or zero-extend the value into `rd`.
pub open spec fn spec_exec_load(s: CpuState, inst: u64) -> (CpuState, Result<(), Exception>) {
    let rd = spec_rd(inst);
    let rs1 = spec_rs1(inst);
    let funct3 = (inst & 0x7000) >> 12;
    let imm = ((inst as i32 as i64) >> 20) as u64;
    let addr = s.regs[rs1].wrapping_add(imm);
    if funct3 == 0x0 {
        // lb
        let (s1, r) = spec_cpu_load(s, addr, 8);
        match r {
            Ok(val) => (
                CpuState { regs: s1.regs.update(rd, val as i8 as i64 as u64), ..s1 },
                Ok(()),
            ),
            Err(e) => (s1, Err(e)),
        }
    } else if funct3 == 0x1 {
        // lh
        let (s1, r) = spec_cpu_load(s, addr, 16);
        match r {
            Ok(val) => (
                CpuState { regs: s1.regs.update(rd, val as i16 as i64 as u64), ..s1 },
                Ok(()),
            ),
            Err(e) => (s1, Err(e)),
        }
    } else if funct3 == 0x2 {
        // lw
        let (s1, r) = spec_cpu_load(s, addr, 32);
        match r {
            Ok(val) => (
                CpuState { regs: s1.regs.update(rd, val as i32 as i64 as u64), ..s1 },
                Ok(()),
            ),
            Err(e) => (s1, Err(e)),
        }
    } else if funct3 == 0x3 {
        // ld
        let (s1, r) = spec_cpu_load(s, addr, 64);
        match r {
            Ok(val) => (CpuState { regs: s1.regs.update(rd, val), ..s1 }, Ok(())),
            Err(e) => (s1, Err(e)),
        }
    } else if funct3 == 0x4 {
        // lbu
        let (s1, r) = spec_cpu_load(s, addr, 8);
        match r {
            Ok(val) => (CpuState { regs: s1.regs.update(rd, val), ..s1 }, Ok(())),
            Err(e) => (s1, Err(e)),
        }
    } else if funct3 == 0x5 {
        // lhu
        let (s1, r) = spec_cpu_load(s, addr, 16);
        match r {
            Ok(val) => (CpuState { regs: s1.regs.update(rd, val), ..s1 }, Ok(())),
            Err(e) => (s1, Err(e)),
        }
    } else if funct3 == 0x6 {
        // lwu
        let (s1, r) = spec_cpu_load(s, addr, 32);
        match r {
            Ok(val) => (CpuState { regs: s1.regs.update(rd, val), ..s1 }, Ok(())),
            Err(e) => (s1, Err(e)),
        }
    } else {
        (s, Err(Exception::IllegalInstruction))
    }
}

/// A fence (opcode 0x0f): a no-op on a single hart.
pub open spec fn spec_exec_fence(s: CpuState, inst: u64) -> (CpuState, Result<(), Exception>) {
    let funct3 = (inst & 0x7000) >> 12;
    if funct3 == 0x0 {
        (s, Ok(()))
    } else {
        (s, Err(Exception::IllegalInstruction))
    }
}

/// One OP-IMM instruction (opcode 0x13): register-immediate arithmetic with
/// the sign-extended I-immediate (shift amounts take the low six bits).
pub open spec fn spec_exec_op_imm(s: CpuState, inst: u64) -> (CpuState, Result<(), Exception>) {
    let rd = spec_rd(inst);
    let rs1 = spec_rs1(inst);
    let funct3 = (inst & 0x7000) >> 12;
    let funct7 = (inst & 0xfe00_0000) >> 25;
    let imm = ((inst & 0xfff0_0000) as i32 as i64 >> 20) as u64;
    let shamt = (imm & 0x3f) as u32;
    if funct3 == 0x0 {
        // addi
        (CpuState { regs: s.regs.update(rd, s.regs[rs1].wrapping_add(imm)), ..s }, Ok(()))
    } else if funct3 == 0x1 {
        // slli
        (CpuState { regs: s.regs.update(rd, s.regs[rs1] << shamt), ..s }, Ok(()))
    } else if funct3 == 0x2 {
        // slti
        (
            CpuState {
                regs: s.regs.update(
                    rd,
                    if (s.regs[rs1] as i64) < (imm as i64) {
                        1u64
                    } else {
                        0u64
                    },
                ),
                ..s
            },
            Ok(()),
        )
    } else if funct3 == 0x3 {
        // sltiu
        (
            CpuState {
                regs: s.regs.update(
                    rd,
                    if s.regs[rs1] < imm {
                        1u64
                    } else {
                        0u64
                    },
                ),
                ..s
            },
            Ok(()),
        )
    } else if funct3 == 0x4 {
        // xori
        (CpuState { regs: s.regs.update(rd, s.regs[rs1] ^ imm), ..s }, Ok(()))
    } else if funct3 == 0x5 {
        if funct7 >> 1 == 0x00 {
            // srli
            (CpuState { regs: s.regs.update(rd, s.regs[rs1].wrapping_shr(shamt)), ..s }, Ok(()))
        } else if funct7 >> 1 == 0x10 {
            // srai
            (
                CpuState {
                    regs: s.regs.update(rd, (s.regs[rs1] as i64).wrapping_shr(shamt) as u64),
                    ..s
                },
                Ok(()),
            )
        } else {
            (s, Err(Exception::IllegalInstruction))
        }
    } else if funct3 == 0x6 {
        // ori
        (CpuState { regs: s.regs.update(rd, s.regs[rs1] | imm), ..s }, Ok(()))
    } else if funct3 == 0x7 {
        // andi
        (CpuState { regs: s.regs.update(rd, s.regs[rs1] & imm), ..s }, Ok(()))
    } else {
        (s, Ok(()))
    }
}

/// AUIPC (opcode 0x17): `rd` receives the program counter of the instruction
/// itself plus the U-immediate (the counter was already advanced by four).
pub open spec fn spec_exec_auipc(s: CpuState, inst: u64) -> (CpuState, Result<(), Exception>) {
    let rd = spec_rd(inst);
    let imm = (inst & 0xffff_f000) as i32 as i64 as u64;
    (CpuState { regs: s.regs.update(rd, s.pc.wrapping_add(imm).wrapping_sub(4)), ..s }, Ok(()))
}

/// One OP-IMM-32 instruction (opcode 0x1b): 32-bit register-immediate
/// arithmetic whose result is sign-extended to 64 bits.
pub open spec fn spec_exec_op_imm32(s: CpuState, inst: u64) -> (CpuState, Result<(), Exception>) {
    let rd = spec_rd(inst);
    let rs1 = spec_rs1(inst);
    let funct3 = (inst & 0x7000) >> 12;
    let funct7 = (inst & 0xfe00_0000) >> 25;
    let imm = ((inst as i32 as i64) >> 20) as u64;
    let shamt = (imm & 0x1f) as u32;
    if funct3 == 0x0 {
        // addiw
        (
            CpuState {
                regs: s.regs.update(rd, s.regs[rs1].wrapping_add(imm) as i32 as i64 as u64),
                ..s
            },
            Ok(()),
        )
    } else if funct3 == 0x1 {
        // slliw
        (
            CpuState {
                regs: s.regs.update(rd, s.regs[rs1].wrapping_shl(shamt) as i32 as i64 as u64),
                ..s
            },
            Ok(()),
        )
    } else if funct3 == 0x5 {
        if funct7 == 0x00 {
            // srliw
            (
                CpuState {
                    regs: s.regs.update(
                        rd,
                        (s.regs[rs1] as u32).wrapping_shr(shamt) as i32 as i64 as u64,
                    ),
                    ..s
                },
                Ok(()),
            )
        } else if funct7 == 0x20 {
            // sraiw
            (
                CpuState {
                    regs: s.regs.update(
                        rd,
                        (s.regs[rs1] as i32).wrapping_shr(shamt) as i64 as u64,
                    ),
                    ..s
                },
                Ok(()),
            )
        } else {
            (s, Err(Exception::IllegalInstruction))
        }
    } else {
        (s, Err(Exception::IllegalInstruction))
    }
}

/// One store instruction (opcode 0x23): store `rs2` through translation at
/// the address formed from `rs1` and the sign-extended S-immediate.
pub open spec fn spec_exec_store(s: CpuState, inst: u64) -> (CpuState, Result<(), Exception>) {
    let rs1 = spec_rs1(inst);
    let rs2 = spec_rs2(inst);
    let funct3 = (inst & 0x7000) >> 12;
    let imm = (((inst & 0xfe00_0000) as i32 as i64 >> 20) as u64) | ((inst >> 7) & 0x1f);
    let addr = s.regs[rs1].wrapping_add(imm);
    if funct3 == 0x0 {
        // sb
        let (s1, r) = spec_cpu_store(s, addr, 8, s.regs[rs2]);
        (s1, r)
    } else if funct3 == 0x1 {
        // sh
        let (s1, r) = spec_cpu_store(s, addr, 16, s.regs[rs2]);
        (s1, r)
    } else if funct3 == 0x2 {
        // sw
        let (s1, r) = spec_cpu_store(s, addr, 32, s.regs[rs2]);
        (s1, r)
    } else if funct3 == 0x3 {
        // sd
        let (s1, r) = spec_cpu_store(s, addr, 64, s.regs[rs2]);
        (s1, r)
    } else {
        (s, Err(Exception::IllegalInstruction))
    }
}

/// One atomic memory operation (opcode 0x2f): load the old value, store the
/// combined value, deliver the old value to `rd`.  Atomicity is trivial on a
/// single hart.
pub open spec fn spec_exec_amo(s: CpuState, inst: u64) -> (CpuState, Result<(), Exception>) {
    let rd = spec_rd(inst);
    let rs1 = spec_rs1(inst);
    let rs2 = spec_rs2(inst);
    let funct3 = (inst & 0x7000) >> 12;
    let funct7 = (inst & 0xfe00_0000) >> 25;
    let funct5 = (funct7 & 0b111_1100) >> 2;
    if funct3 == 0x2 && funct5 == 0x00 {
        // amoadd.w
        let (s1, r1) = spec_cpu_load(s, s.regs[rs1], 32);
        match r1 {
            Ok(t) => {
                let (s2, r2) = spec_cpu_store(s1, s.regs[rs1], 32, t.wrapping_add(s.regs[rs2]));
                match r2 {
                    Ok(u) => (CpuState { regs: s2.regs.update(rd, t), ..s2 }, Ok(())),
                    Err(e) => (s2, Err(e)),
                }
            },
            Err(e) => (s1, Err(e)),
        }
    } else if funct3 == 0x3 && funct5 == 0x00 {
        // amoadd.d
        let (s1, r1) = spec_cpu_load(s, s.regs[rs1], 64);
        match r1 {
            Ok(t) => {
                let (s2, r2) = spec_cpu_store(s1, s.regs[rs1], 64, t.wrapping_add(s.regs[rs2]));
                match r2 {
                    Ok(u) => (CpuState { regs: s2.regs.update(rd, t), ..s2 }, Ok(())),
                    Err(e) => (s2, Err(e)),
                }
            },
            Err(e) => (s1, Err(e)),
        }
    } else if funct3 == 0x2 && funct5 == 0x01 {
        // amoswap.w
        let (s1, r1) = spec_cpu_load(s, s.regs[rs1], 32);
        match r1 {
            Ok(t) => {
                let (s2, r2) = spec_cpu_store(s1, s.regs[rs1], 32, s.regs[rs2]);
                match r2 {
                    Ok(u) => (CpuState { regs: s2.regs.update(rd, t), ..s2 }, Ok(())),
                    Err(e) => (s2, Err(e)),
                }
            },
            Err(e) => (s1, Err(e)),
        }
    } else if funct3 == 0x3 && funct5 == 0x01 {
        // amoswap.d
        let (s1, r1) = spec_cpu_load(s, s.regs[rs1], 64);
        match r1 {
            Ok(t) => {
                let (s2, r2) = spec_cpu_store(s1, s.regs[rs1], 64, s.regs[rs2]);
                match r2 {
                    Ok(u) => (CpuState { regs: s2.regs.update(rd, t), ..s2 }, Ok(())),
                    Err(e) => (s2, Err(e)),
                }
            },
            Err(e) => (s1, Err(e)),
        }
    } else {
        (s, Err(Exception::IllegalInstruction))
    }
}

/// One OP instruction (opcode 0x33): register-register arithmetic; shifts
/// take the low six bits of `rs2` as the shift amount.
pub open spec fn spec_exec_op(s: CpuState, inst: u64) -> (CpuState, Result<(), Exception>) {
    let rd = spec_rd(inst);
    let rs1 = spec_rs1(inst);
    let rs2 = spec_rs2(inst);
    let funct3 = (inst & 0x7000) >> 12;
    let funct7 = (inst & 0xfe00_0000) >> 25;
    let shamt = ((s.regs[rs2] & 0x3f) as u64) as u32;
    if funct3 == 0x0 && funct7 == 0x00 {
        // add
        (CpuState { regs: s.regs.update(rd, s.regs[rs1].wrapping_add(s.regs[rs2])), ..s }, Ok(()))
    } else if funct3 == 0x0 && funct7 == 0x01 {
        // mul
        (CpuState { regs: s.regs.update(rd, s.regs[rs1].wrapping_mul(s.regs[rs2])), ..s }, Ok(()))
    } else if funct3 == 0x0 && funct7 == 0x20 {
        // sub
        (CpuState { regs: s.regs.update(rd, s.regs[rs1].wrapping_sub(s.regs[rs2])), ..s }, Ok(()))
    } else if funct3 == 0x1 && funct7 == 0x00 {
        // sll
        (CpuState { regs: s.regs.update(rd, s.regs[rs1].wrapping_shl(shamt)), ..s }, Ok(()))
    } else if funct3 == 0x2 && funct7 == 0x00 {
        // slt
        (
            CpuState {
                regs: s.regs.update(
                    rd,
                    if (s.regs[rs1] as i64) < (s.regs[rs2] as i64) {
                        1u64
                    } else {
                        0u64
                    },
                ),
                ..s
            },
            Ok(()),
        )
    } else if funct3 == 0x3 && funct7 == 0x00 {
        // sltu
        (
            CpuState {
                regs: s.regs.update(
                    rd,
                    if s.regs[rs1] < s.regs[rs2] {
                        1u64
                    } else {
                        0u64
                    },
                ),
                ..s
            },
            Ok(()),
        )
    } else if funct3 == 0x4 && funct7 == 0x00 {
        // xor
        (CpuState { regs: s.regs.update(rd, s.regs[rs1] ^ s.regs[rs2]), ..s }, Ok(()))
    } else if funct3 == 0x5 && funct7 == 0x00 {
        // srl
        (CpuState { regs: s.regs.update(rd, s.regs[rs1].wrapping_shr(shamt)), ..s }, Ok(()))
    } else if funct3 == 0x5 && funct7 == 0x20 {
        // sra
        (
            CpuState {
                regs: s.regs.update(rd, (s.regs[rs1] as i64).wrapping_shr(shamt) as u64),
                ..s
            },
            Ok(()),
        )
    } else if funct3 == 0x6 && funct7 == 0x00 {
        // or
        (CpuState { regs: s.regs.update(rd, s.regs[rs1] | s.regs[rs2]), ..s }, Ok(()))
    } else if funct3 == 0x7 && funct7 == 0x00 {
        // and
        (CpuState { regs: s.regs.update(rd, s.regs[rs1] & s.regs[rs2]), ..s }, Ok(()))
    } else {
        (s, Err(Exception::IllegalInstruction))
    }
}

/// LUI (opcode 0x37): `rd` receives the sign-extended U-immediate.
pub open spec fn spec_exec_lui(s: CpuState, inst: u64) -> (CpuState, Result<(), Exception>) {
    let rd = spec_rd(inst);
    (
        CpuState { regs: s.regs.update(rd, (inst & 0xffff_f000) as i32 as i64 as u64), ..s },
        Ok(()),
    )
}

/// One OP-32 instruction (opcode 0x3b): 32-bit register-register arithmetic
/// with sign-extended results, plus the unsigned divide and remainder forms.
/// Division by zero yields all ones; a zero remainder divisor yields the
/// dividend (the sign-extended low word of it when only the truncated
/// 32-bit divisor is zero), per the RISC-V division rules.
pub open spec fn spec_exec_op32(s: CpuState, inst: u64) -> (CpuState, Result<(), Exception>) {
    let rd = spec_rd(inst);
    let rs1 = spec_rs1(inst);
    let rs2 = spec_rs2(inst);
    let funct3 = (inst & 0x7000) >> 12;
    let funct7 = (inst & 0xfe00_0000) >> 25;
    let shamt = (s.regs[rs2] & 0x1f) as u32;
    if funct3 == 0x0 && funct7 == 0x00 {
        // addw
        (
            CpuState {
                regs: s.regs.update(
                    rd,
                    s.regs[rs1].wrapping_add(s.regs[rs2]) as i32 as i64 as u64,
                ),
                ..s
            },
            Ok(()),
        )
    } else if funct3 == 0x0 && funct7 == 0x20 {
        // subw
        (
            CpuState {
                regs: s.regs.update(rd, (s.regs[rs1].wrapping_sub(s.regs[rs2]) as i32) as u64),
                ..s
            },
            Ok(()),
        )
    } else if funct3 == 0x1 && funct7 == 0x00 {
        // sllw
        (
            CpuState {
                regs: s.regs.update(rd, (s.regs[rs1] as u32).wrapping_shl(shamt) as i32 as u64),
                ..s
            },
            Ok(()),
        )
    } else if funct3 == 0x5 && funct7 == 0x00 {
        // srlw
        (
            CpuState {
                regs: s.regs.update(rd, (s.regs[rs1] as u32).wrapping_shr(shamt) as i32 as u64),
                ..s
            },
            Ok(()),
        )
    } else if funct3 == 0x5 && funct7 == 0x01 {
        // divu
        (
            CpuState {
                regs: s.regs.update(
                    rd,
                    if s.regs[rs2] == 0 {
                        0xffff_ffff_ffff_ffffu64
                    } else {
                        (s.regs[rs1] / s.regs[rs2]) as u64
                    },
                ),
                ..s
            },
            Ok(()),
        )
    } else if funct3 == 0x5 && funct7 == 0x20 {
        // sraw
        (
            CpuState {
                regs: s.regs.update(rd, ((s.regs[rs1] as i32) >> (shamt as i32)) as u64),
                ..s
            },
            Ok(()),
        )
    } else if funct3 == 0x7 && funct7 == 0x01 {
        // remuw
        (
            CpuState {
                regs: s.regs.update(
                    rd,
                    if s.regs[rs2] == 0 {
                        s.regs[rs1]
                    } else if s.regs[rs2] as u32 == 0 {
                        (s.regs[rs1] as u32) as i32 as u64
                    } else {
                        (((s.regs[rs1] as u32) % (s.regs[rs2] as u32)) as i32) as u64
                    },
                ),
                ..s
            },
            Ok(()),
        )
    } else {
        (s, Err(Exception::IllegalInstruction))
    }
}

/// One conditional branch (opcode 0x63): when the condition over `rs1` and
/// `rs2` holds, the program counter moves to the branch target (expressed
/// relative to the already-advanced counter).
pub open spec fn spec_exec_branch(s: CpuState, inst: u64) -> (CpuState, Result<(), Exception>) {
    let rs1 = spec_rs1(inst);
    let rs2 = spec_rs2(inst);
    let funct3 = (inst & 0x7000) >> 12;
    let imm = (((inst & 0x8000_0000) as i32 as i64 >> 19) as u64) | ((inst & 0x80) << 4) | ((inst
        >> 20) & 0x7e0) | ((inst >> 7) & 0x1e);
    let target = s.pc.wrapping_add(imm).wrapping_sub(4);
    if funct3 == 0x0 {
        // beq
        (
            CpuState {
                pc: if s.regs[rs1] == s.regs[rs2] {
                    target
                } else {
                    s.pc
                },
                ..s
            },
            Ok(()),
        )
    } else if funct3 == 0x1 {
        // bne
        (
            CpuState {
                pc: if s.regs[rs1] != s.regs[rs2] {
                    target
                } else {
                    s.pc
                },
                ..s
            },
            Ok(()),
        )
    } else if funct3 == 0x4 {
        // blt
        (
            CpuState {
                pc: if (s.regs[rs1] as i64) < (s.regs[rs2] as i64) {
                    target
                } else {
                    s.pc
                },
                ..s
            },
            Ok(()),
        )
    } else if funct3 == 0x5 {
        // bge
        (
            CpuState {
                pc: if (s.regs[rs1] as i64) >= (s.regs[rs2] as i64) {
                    target
                } else {
                    s.pc
                },
                ..s
            },
            Ok(()),
        )
    } else if funct3 == 0x6 {
        // bltu
        (
            CpuState {
                pc: if s.regs[rs1] < s.regs[rs2] {
                    target
                } else {
                    s.pc
                },
                ..s
            },
            Ok(()),
        )
    } else if funct3 == 0x7 {
        // bgeu
        (
            CpuState {
                pc: if s.regs[rs1] >= s.regs[rs2] {
                    target
                } else {
                    s.pc
                },
                ..s
            },
            Ok(()),
        )
    } else {
        (s, Err(Exception::IllegalInstruction))
    }
}

/// JALR (opcode 0x67): `rd` receives the already-advanced program counter
/// (the return address); the counter moves to `rs1` plus the I-immediate,
/// with the low bit cleared.
pub open spec fn spec_exec_jalr(s: CpuState, inst: u64) -> (CpuState, Result<(), Exception>) {
    let rd = spec_rd(inst);
    let rs1 = spec_rs1(inst);
    let imm = ((((inst & 0xfff0_0000) as i32) as i64) >> 20) as u64;
    (
        CpuState {
            pc: s.regs[rs1].wrapping_add(imm) & !1,
            regs: s.regs.update(rd, s.pc),
            ..s
        },
        Ok(()),
    )
}

/// JAL (opcode 0x6f): `rd` receives the already-advanced program counter
/// (the return address); the counter moves by the sign-extended J-immediate
/// relative to the instruction's own address.
pub open spec fn spec_exec_jal(s: CpuState, inst: u64) -> (CpuState, Result<(), Exception>) {
    let rd = spec_rd(inst);
    let imm = (((inst & 0x8000_0000) as i32 as i64 >> 11) as u64) | (inst & 0xff000) | ((inst >> 9)
        & 0x800) | ((inst >> 20) & 0x7fe);
    (
        CpuState {
            pc: s.pc.wrapping_add(imm).wrapping_sub(4),
            regs: s.regs.update(rd, s.pc),
            ..s
        },
        Ok(()),
    )
}

/// One SYSTEM instruction (opcode 0x73): environment calls, breakpoint,
/// trap returns, `sfence.vma` and the Zicsr read-modify-write forms (which
/// refresh the paging state after touching `satp`).
pub open spec fn spec_exec_system(s: CpuState, inst: u64) -> (CpuState, Result<(), Exception>) {
    let rd = spec_rd(inst);
    let rs1 = spec_rs1(inst);
    let rs2 = spec_rs2(inst);
    let funct3 = (inst & 0x7000) >> 12;
    let funct7 = (inst & 0xfe00_0000) >> 25;
    let csr_addr = ((inst & 0xfff0_0000) >> 20) as usize;
    if funct3 == 0x0 {
        if rs2 == 0x0 && funct7 == 0x0 {
            // ecall
            (
                s,
                Err(
                    match s.mode {
                        Mode::User => Exception::EnvironmentCallFromUMode,
                        Mode::Supervisor => Exception::EnvironmentCallFromSMode,
                        Mode::Machine => Exception::EnvironmentCallFromMMode,
                    },
                ),
            )
        } else if rs2 == 0x1 && funct7 == 0x0 {
            // ebreak
            (s, Err(Exception::Breakpoint))
        } else if rs2 == 0x2 && funct7 == 0x8 {
            // sret: return from a supervisor trap handler.
            let pc = spec_load_csr(s.csrs, SEPC);
            let mode = if (spec_load_csr(s.csrs, SSTATUS) >> 8) & 1 == 1 {
                Mode::Supervisor
            } else {
                Mode::User
            };
            let c1 = spec_store_csr(
                s.csrs,
                SSTATUS,
                if (spec_load_csr(s.csrs, SSTATUS) >> 5) & 1 == 1 {
                    spec_load_csr(s.csrs, SSTATUS) | (1u64 << 1)
                } else {
                    spec_load_csr(s.csrs, SSTATUS) & !(1u64 << 1)
                },
            );
            let c2 = spec_store_csr(c1, SSTATUS, spec_load_csr(c1, SSTATUS) | (1u64 << 5));
            let c3 = spec_store_csr(c2, SSTATUS, spec_load_csr(c2, SSTATUS) & !(1u64 << 8));
            (CpuState { pc, mode, csrs: c3, ..s }, Ok(()))
        } else if rs2 == 0x2 && funct7 == 0x18 {
            // mret: return from a machine trap handler.
            let pc = spec_load_csr(s.csrs, MEPC);
            let mpp = (spec_load_csr(s.csrs, MSTATUS) >> 11) & 0b11;
            let mode = if mpp == 2 {
                Mode::Machine
            } else if mpp == 1 {
                Mode::Supervisor
            } else {
                Mode::User
            };
            let c1 = spec_store_csr(
                s.csrs,
                MSTATUS,
                if (spec_load_csr(s.csrs, MSTATUS) >> 7) & 1 == 1 {
                    spec_load_csr(s.csrs, MSTATUS) | (1u64 << 3)
                } else {
                    spec_load_csr(s.csrs, MSTATUS) & !(1u64 << 3)
                },
            );
            let c2 = spec_store_csr(c1, MSTATUS, spec_load_csr(c1, MSTATUS) | (1u64 << 7));
            let c3 = spec_store_csr(c2, MSTATUS, spec_load_csr(c2, MSTATUS) & !(0b11u64 << 11));
            (CpuState { pc, mode, csrs: c3, ..s }, Ok(()))
        } else if funct7 == 0x9 {
            // sfence.vma: nothing to do.
            (s, Ok(()))
        } else {
            (s, Err(Exception::IllegalInstruction))
        }
    } else if funct3 == 0x1 {
        // csrrw
        let t = spec_load_csr(s.csrs, csr_addr);
        let s1 = CpuState { csrs: spec_store_csr(s.csrs, csr_addr, s.regs[rs1]), ..s };
        let s2 = CpuState { regs: s1.regs.update(rd, t), ..s1 };
        (spec_update_paging(s2, csr_addr), Ok(()))
    } else if funct3 == 0x2 {
        // csrrs
        let t = spec_load_csr(s.csrs, csr_addr);
        let s1 = CpuState { csrs: spec_store_csr(s.csrs, csr_addr, t | s.regs[rs1]), ..s };
        let s2 = CpuState { regs: s1.regs.update(rd, t), ..s1 };
        (spec_update_paging(s2, csr_addr), Ok(()))
    } else if funct3 == 0x3 {
        // csrrc
        let t = spec_load_csr(s.csrs, csr_addr);
        let s1 = CpuState { csrs: spec_store_csr(s.csrs, csr_addr, t & !s.regs[rs1]), ..s };
        let s2 = CpuState { regs: s1.regs.update(rd, t), ..s1 };
        (spec_update_paging(s2, csr_addr), Ok(()))
    } else if funct3 == 0x5 {
        // csrrwi
        let zimm = rs1 as u64;
        let s1 = CpuState { regs: s.regs.update(rd, spec_load_csr(s.csrs, csr_addr)), ..s };
        let s2 = CpuState { csrs: spec_store_csr(s1.csrs, csr_addr, zimm), ..s1 };
        (spec_update_paging(s2, csr_addr), Ok(()))
    } else if funct3 == 0x6 {
        // csrrsi
        let zimm = rs1 as u64;
        let t = spec_load_csr(s.csrs, csr_addr);
        let s1 = CpuState { csrs: spec_store_csr(s.csrs, csr_addr, t | zimm), ..s };
        let s2 = CpuState { regs: s1.regs.update(rd, t), ..s1 };
        (spec_update_paging(s2, csr_addr), Ok(()))
    } else if funct3 == 0x7 {
        // csrrci
        let zimm = rs1 as u64;
        let t = spec_load_csr(s.csrs, csr_addr);
        let s1 = CpuState { csrs: spec_store_csr(s.csrs, csr_addr, t & !zimm), ..s };
        let s2 = CpuState { regs: s1.regs.update(rd, t), ..s1 };
        (spec_update_paging(s2, csr_addr), Ok(()))
    } else {
        (s, Err(Exception::IllegalInstruction))
    }
}

/// The transition of one decoded instruction word: register x0 is pinned to
/// zero, then the opcode selects the instruction group.  An unknown opcode
/// is an illegal instruction.
pub open spec fn spec_execute(s: CpuState, inst: u64) -> (CpuState, Result<(), Exception>) {
    let s0 = CpuState { regs: s.regs.update(0, 0u64), ..s };
    let opcode = inst & 0x7f;
    if opcode == 0x03 {
        spec_exec_load(s0, inst)
    } else if opcode == 0x0f {
        spec_exec_fence(s0, inst)
    } else if opcode == 0x13 {
        spec_exec_op_imm(s0, inst)
    } else if opcode == 0x17 {
        spec_exec_auipc(s0, inst)
    } else if opcode == 0x1b {
        spec_exec_op_imm32(s0, inst)
    } else if opcode == 0x23 {
        spec_exec_store(s0, inst)
    } else if opcode == 0x2f {
        spec_exec_amo(s0, inst)
    } else if opcode == 0x33 {
        spec_exec_op(s0, inst)
    } else if opcode == 0x37 {
        spec_exec_lui(s0, inst)
    } else if opcode == 0x3b {
        spec_exec_op32(s0, inst)
    } else if opcode == 0x63 {
        spec_exec_branch(s0, inst)
    } else if opcode == 0x67 {
        spec_exec_jalr(s0, inst)
    } else if opcode == 0x6f {
        spec_exec_jal(s0, inst)
    } else if opcode == 0x73 {
        spec_exec_system(s0, inst)
    } else {
        (s0, Err(Exception::IllegalInstruction))
    }
}

/// A write to register x0 is invisible: executing any instruction from a
/// state whose x0 was overwritten behaves exactly as if x0 still read zero,
/// because x0 is pinned to zero before every execute.
pub proof fn lemma_x0_write_invisible(s: CpuState, v: u64, inst: u64)
    requires
        s.regs.len() == 32,
    ensures
        spec_execute(CpuState { regs: s.regs.update(0, v), ..s }, inst) == spec_execute(s, inst),
{
    let sw = CpuState { regs: s.regs.update(0, v), ..s };
    assert(sw.regs.update(0, 0u64) =~= s.regs.update(0, 0u64));
    assert(CpuState { regs: sw.regs.update(0, 0u64), ..sw } == CpuState {
        regs: s.regs.update(0, 0u64),
        ..s
    });
}

/// After `mret`, the program counter is `mepc` and the mode is the one the
/// MPP field of `mstatus` held before the instruction (2 meaning machine
/// mode, 1 supervisor, anything else user).
pub proof fn lemma_mret(s: CpuState)
    requires
        s.regs.len() == 32,
        s.csrs.len() == 4096,
    ensures
        spec_execute(s, 0x30200073).1 is Ok,
        spec_execute(s, 0x30200073).0.pc == spec_load_csr(s.csrs, MEPC),
        spec_execute(s, 0x30200073).0.mode == ({
            let mpp = (spec_load_csr(s.csrs, MSTATUS) >> 11) & 0b11;
            if mpp == 2 {
                Mode::Machine
            } else if mpp == 1 {
                Mode::Supervisor
            } else {
                Mode::User
            }
        }),
{
    assert(0x30200073u64 & 0x7f == 0x73 && (0x30200073u64 & 0x7000) >> 12 == 0 && (0x30200073u64
        & 0x01f0_0000) >> 20 == 2 && (0x30200073u64 & 0xfe00_0000) >> 25 == 0x18) by (bit_vector);
}

/// A JAL at address `a` (so executed with the program counter already
/// advanced to `a + 4`) leaves the return address `a + 4` in its target
/// register and moves the program counter to `a` plus the J-immediate.
pub proof fn lemma_jal(s: CpuState, inst: u64)
    requires
        s.regs.len() == 32,
        inst & 0x7f == 0x6f,
    ensures
        spec_execute(s, inst).1 is Ok,
        spec_execute(s, inst).0.regs[spec_rd(inst)] == s.pc,
        spec_execute(s, inst).0.pc == s.pc.wrapping_add(
            (((inst & 0x8000_0000) as i32 as i64 >> 11) as u64) | (inst & 0xff000) | ((inst >> 9)
                & 0x800) | ((inst >> 20) & 0x7fe),
        ).wrapping_sub(4),
{
    lemma_decode_bounds(inst);
}

impl Cpu {
    /// Execute one load instruction (opcode 0x03).
    fn exec_load(&mut self, inst: u64) -> (r: Result<(), Exception>)
        requires
            cpu_wf(old(self)@),
        ensures
            cpu_wf(final(self)@),
            (final(self)@, r) == spec_exec_load(old(self)@, inst),
    {
        proof {
            lemma_decode_bounds(inst);
        }
        let rd = ((inst & 0x0000_0f80) >> 7) as usize;
        let rs1 = ((inst & 0x000f_8000) >> 15) as usize;
        let funct3 = (inst & 0x7000) >> 12;
        // imm[11:0] = inst[31:20]
        let imm = ((#[verifier::truncate] (inst as i32) as i64) >> 20) as u64;
        let addr = self.regs[rs1].wrapping_add(imm);
        match funct3 {
            0x0 => {
                // lb
                let val = match self.load(addr, 8) {
                    Ok(v) => v,
                    Err(e) => {
                        return Err(e);
                    },
                };
                self.regs[rd] = #[verifier::truncate] (val as i8) as i64 as u64;
                Ok(())
            },
            0x1 => {
                // lh
                let val = match self.load(addr, 16) {
                    Ok(v) => v,
                    Err(e) => {
                        return Err(e);
                    },
                };
                self.regs[rd] = #[verifier::truncate] (val as i16) as i64 as u64;
                Ok(())
            },
            0x2 => {
                // lw
                let val = match self.load(addr, 32) {
                    Ok(v) => v,
                    Err(e) => {
                        return Err(e);
                    },
                };
                self.regs[rd] = #[verifier::truncate] (val as i32) as i64 as u64;
                Ok(())
            },
            0x3 => {
                // ld
                let val = match self.load(addr, 64) {
                    Ok(v) => v,
                    Err(e) => {
                        return Err(e);
                    },
                };
                self.regs[rd] = val;
                Ok(())
            },
            0x4 => {
                // lbu
                let val = match self.load(addr, 8) {
                    Ok(v) => v,
                    Err(e) => {
                        return Err(e);
                    },
                };
                self.regs[rd] = val;
                Ok(())
            },
            0x5 => {
                // lhu
                let val = match self.load(addr, 16) {
                    Ok(v) => v,
                    Err(e) => {
                        return Err(e);
                    },
                };
                self.regs[rd] = val;
                Ok(())
            },
            0x6 => {
                // lwu
                let val = match self.load(addr, 32) {
                    Ok(v) => v,
                    Err(e) => {
                        return Err(e);
                    },
                };
                self.regs[rd] = val;
                Ok(())
            },
            _ => Err(Exception::IllegalInstruction),
        }
    }

    /// Execute a fence (opcode 0x0f): nothing to do on a single hart.
    fn exec_fence(&mut self, inst: u64) -> (r: Result<(), Exception>)
        requires
            cpu_wf(old(self)@),
        ensures
            cpu_wf(final(self)@),
            (final(self)@, r) == spec_exec_fence(old(self)@, inst),
    {
        let funct3 = (inst & 0x7000) >> 12;
        match funct3 {
            0x0 => Ok(()),
            _ => Err(Exception::IllegalInstruction),
        }
    }

    /// Execute one OP-IMM instruction (opcode 0x13).
    fn exec_op_imm(&mut self, inst: u64) -> (r: Result<(), Exception>)
        requires
            cpu_wf(old(self)@),
        ensures
            cpu_wf(final(self)@),
            (final(self)@, r) == spec_exec_op_imm(old(self)@, inst),
    {
        proof {
            lemma_decode_bounds(inst);
        }
        let rd = ((inst & 0x0000_0f80) >> 7) as usize;
        let rs1 = ((inst & 0x000f_8000) >> 15) as usize;
        let funct3 = (inst & 0x7000) >> 12;
        let funct7 = (inst & 0xfe00_0000) >> 25;
        // imm[11:0] = inst[31:20]
        let imm = ((#[verifier::truncate] ((inst & 0xfff0_0000) as i32)) as i64 >> 20) as u64;
        proof {
            lemma_shamt_bounds(imm);
        }
        // The shift amount is the low six bits of the I-immediate.
        let shamt = (imm & 0x3f) as u32;
        match funct3 {
            0x0 => {
                // addi
                self.regs[rd] = self.regs[rs1].wrapping_add(imm);
            },
            0x1 => {
                // slli
                self.regs[rd] = self.regs[rs1] << shamt;
            },
            0x2 => {
                // slti
                self.regs[rd] = if (self.regs[rs1] as i64) < (imm as i64) {
                    1
                } else {
                    0
                };
            },
            0x3 => {
                // sltiu
                self.regs[rd] = if self.regs[rs1] < imm {
                    1
                } else {
                    0
                };
            },
            0x4 => {
                // xori
                self.regs[rd] = self.regs[rs1] ^ imm;
            },
            0x5 => {
                match funct7 >> 1 {
                    // srli
                    0x00 => {
                        self.regs[rd] = self.regs[rs1].wrapping_shr(shamt);
                    },
                    // srai
                    0x10 => {
                        self.regs[rd] = (self.regs[rs1] as i64).wrapping_shr(shamt) as u64;
                    },
                    _ => {
                        return Err(Exception::IllegalInstruction);
                    },
                }
            },
            0x6 => {
                // ori
                self.regs[rd] = self.regs[rs1] | imm;
            },
            0x7 => {
                // andi
                self.regs[rd] = self.regs[rs1] & imm;
            },
            _ => {},
        }
        Ok(())
    }

    /// Execute AUIPC (opcode 0x17).
    fn exec_auipc(&mut self, inst: u64) -> (r: Result<(), Exception>)
        requires
            cpu_wf(old(self)@),
        ensures
            cpu_wf(final(self)@),
            (final(self)@, r) == spec_exec_auipc(old(self)@, inst),
    {
        proof {
            lemma_decode_bounds(inst);
        }
        let rd = ((inst & 0x0000_0f80) >> 7) as usize;
        let imm = (#[verifier::truncate] ((inst & 0xffff_f000) as i32)) as i64 as u64;
        self.regs[rd] = self.pc.wrapping_add(imm).wrapping_sub(4);
        Ok(())
    }

    /// Execute one OP-IMM-32 instruction (opcode 0x1b).
    fn exec_op_imm32(&mut self, inst: u64) -> (r: Result<(), Exception>)
        requires
            cpu_wf(old(self)@),
        ensures
            cpu_wf(final(self)@),
            (final(self)@, r) == spec_exec_op_imm32(old(self)@, inst),
    {
        proof {
            lemma_decode_bounds(inst);
        }
        let rd = ((inst & 0x0000_0f80) >> 7) as usize;
        let rs1 = ((inst & 0x000f_8000) >> 15) as usize;
        let funct3 = (inst & 0x7000) >> 12;
        let funct7 = (inst & 0xfe00_0000) >> 25;
        let imm = ((#[verifier::truncate] (inst as i32)) as i64 >> 20) as u64;
        proof {
            lemma_shamt_bounds(imm);
        }
        // Encodings with imm[5] set are reserved; the shift amount is five
        // bits wide.
        let shamt = (imm & 0x1f) as u32;
        match funct3 {
            0x0 => {
                // addiw
                self.regs[rd] = (#[verifier::truncate] (self.regs[rs1].wrapping_add(
                    imm,
                ) as i32)) as i64 as u64;
                Ok(())
            },
            0x1 => {
                // slliw
                self.regs[rd] = (#[verifier::truncate] (self.regs[rs1].wrapping_shl(
                    shamt,
                ) as i32)) as i64 as u64;
                Ok(())
            },
            0x5 => {
                match funct7 {
                    0x00 => {
                        // srliw
                        self.regs[rd] = ((#[verifier::truncate] (self.regs[rs1] as u32))
                            .wrapping_shr(shamt) as i32) as i64 as u64;
                        Ok(())
                    },
                    0x20 => {
                        // sraiw
                        self.regs[rd] = (#[verifier::truncate] (self.regs[rs1] as i32))
                            .wrapping_shr(shamt) as i64 as u64;
                        Ok(())
                    },
                    _ => Err(Exception::IllegalInstruction),
                }
            },
            _ => Err(Exception::IllegalInstruction),
        }
    }

    /// Execute one store instruction (opcode 0x23).
    fn exec_store(&mut self, inst: u64) -> (r: Result<(), Exception>)
        requires
            cpu_wf(old(self)@),
        ensures
            cpu_wf(final(self)@),
            (final(self)@, r) == spec_exec_store(old(self)@, inst),
    {
        proof {
            lemma_decode_bounds(inst);
        }
        let rs1 = ((inst & 0x000f_8000) >> 15) as usize;
        let rs2 = ((inst & 0x01f0_0000) >> 20) as usize;
        let funct3 = (inst & 0x7000) >> 12;
        // imm[11:5|4:0] = inst[31:25|11:7]
        let imm = (((#[verifier::truncate] ((inst & 0xfe00_0000) as i32)) as i64 >> 20) as u64) | (
        (inst >> 7) & 0x1f);
        let addr = self.regs[rs1].wrapping_add(imm);
        match funct3 {
            0x0 => self.store(addr, 8, self.regs[rs2]),  // sb
            0x1 => self.store(addr, 16, self.regs[rs2]),  // sh
            0x2 => self.store(addr, 32, self.regs[rs2]),  // sw
            0x3 => self.store(addr, 64, self.regs[rs2]),  // sd
            _ => Err(Exception::IllegalInstruction),
        }
    }

    /// Execute one atomic memory operation (opcode 0x2f).
    fn exec_amo(&mut self, inst: u64) -> (r: Result<(), Exception>)
        requires
            cpu_wf(old(self)@),
        ensures
            cpu_wf(final(self)@),
            (final(self)@, r) == spec_exec_amo(old(self)@, inst),
    {
        proof {
            lemma_decode_bounds(inst);
        }
        let rd = ((inst & 0x0000_0f80) >> 7) as usize;
        let rs1 = ((inst & 0x000f_8000) >> 15) as usize;
        let rs2 = ((inst & 0x01f0_0000) >> 20) as usize;
        let funct3 = (inst & 0x7000) >> 12;
        let funct7 = (inst & 0xfe00_0000) >> 25;
        let funct5 = (funct7 & 0b111_1100) >> 2;
        match (funct3, funct5) {
            (0x2, 0x00) => {
                // amoadd.w
                let t = match self.load(self.regs[rs1], 32) {
                    Ok(v) => v,
                    Err(e) => {
                        return Err(e);
                    },
                };
                match self.store(self.regs[rs1], 32, t.wrapping_add(self.regs[rs2])) {
                    Ok(_) => {},
                    Err(e) => {
                        return Err(e);
                    },
                }
                self.regs[rd] = t;
                Ok(())
            },
            (0x3, 0x00) => {
                // amoadd.d
                let t = match self.load(self.regs[rs1], 64) {
                    Ok(v) => v,
                    Err(e) => {
                        return Err(e);
                    },
                };
                match self.store(self.regs[rs1], 64, t.wrapping_add(self.regs[rs2])) {
                    Ok(_) => {},
                    Err(e) => {
                        return Err(e);
                    },
                }
                self.regs[rd] = t;
                Ok(())
            },
            (0x2, 0x01) => {
                // amoswap.w
                let t = match self.load(self.regs[rs1], 32) {
                    Ok(v) => v,
                    Err(e) => {
                        return Err(e);
                    },
                };
                match self.store(self.regs[rs1], 32, self.regs[rs2]) {
                    Ok(_) => {},
                    Err(e) => {
                        return Err(e);
                    },
                }
                self.regs[rd] = t;
                Ok(())
            },
            (0x3, 0x01) => {
                // amoswap.d
                let t = match self.load(self.regs[rs1], 64) {
                    Ok(v) => v,
                    Err(e) => {
                        return Err(e);
                    },
                };
                match self.store(self.regs[rs1], 64, self.regs[rs2]) {
                    Ok(_) => {},
                    Err(e) => {
                        return Err(e);
                    },
                }
                self.regs[rd] = t;
                Ok(())
            },
            _ => Err(Exception::IllegalInstruction),
        }
    }

    /// Execute one OP instruction (opcode 0x33).
    fn exec_op(&mut self, inst: u64) -> (r: Result<(), Exception>)
        requires
            cpu_wf(old(self)@),
        ensures
            cpu_wf(final(self)@),
            (final(self)@, r) == spec_exec_op(old(self)@, inst),
    {
        proof {
            lemma_decode_bounds(inst);
        }
        let rd = ((inst & 0x0000_0f80) >> 7) as usize;
        let rs1 = ((inst & 0x000f_8000) >> 15) as usize;
        let rs2 = ((inst & 0x01f0_0000) >> 20) as usize;
        let funct3 = (inst & 0x7000) >> 12;
        let funct7 = (inst & 0xfe00_0000) >> 25;
        proof {
            lemma_shamt_bounds(self.regs[rs2 as int]);
        }
        // Only the low six bits of rs2 give the shift amount in RV64I.
        let shamt = ((self.regs[rs2] & 0x3f) as u64) as u32;
        match (funct3, funct7) {
            (0x0, 0x00) => {
                // add
                self.regs[rd] = self.regs[rs1].wrapping_add(self.regs[rs2]);
                Ok(())
            },
            (0x0, 0x01) => {
                // mul
                self.regs[rd] = self.regs[rs1].wrapping_mul(self.regs[rs2]);
                Ok(())
            },
            (0x0, 0x20) => {
                // sub
                self.regs[rd] = self.regs[rs1].wrapping_sub(self.regs[rs2]);
                Ok(())
            },
            (0x1, 0x00) => {
                // sll
                self.regs[rd] = self.regs[rs1].wrapping_shl(shamt);
                Ok(())
            },
            (0x2, 0x00) => {
                // slt
                self.regs[rd] = if (self.regs[rs1] as i64) < (self.regs[rs2] as i64) {
                    1
                } else {
                    0
                };
                Ok(())
            },
            (0x3, 0x00) => {
                // sltu
                self.regs[rd] = if self.regs[rs1] < self.regs[rs2] {
                    1
                } else {
                    0
                };
                Ok(())
            },
            (0x4, 0x00) => {
                // xor
                self.regs[rd] = self.regs[rs1] ^ self.regs[rs2];
                Ok(())
            },
            (0x5, 0x00) => {
                // srl
                self.regs[rd] = self.regs[rs1].wrapping_shr(shamt);
                Ok(())
            },
            (0x5, 0x20) => {
                // sra
                self.regs[rd] = (self.regs[rs1] as i64).wrapping_shr(shamt) as u64;
                Ok(())
            },
            (0x6, 0x00) => {
                // or
                self.regs[rd] = self.regs[rs1] | self.regs[rs2];
                Ok(())
            },
            (0x7, 0x00) => {
                // and
                self.regs[rd] = self.regs[rs1] & self.regs[rs2];
                Ok(())
            },
            _ => Err(Exception::IllegalInstruction),
        }
    }

    /// Execute LUI (opcode 0x37).
    fn exec_lui(&mut self, inst: u64) -> (r: Result<(), Exception>)
        requires
            cpu_wf(old(self)@),
        ensures
            cpu_wf(final(self)@),
            (final(self)@, r) == spec_exec_lui(old(self)@, inst),
    {
        proof {
            lemma_decode_bounds(inst);
        }
        let rd = ((inst & 0x0000_0f80) >> 7) as usize;
        self.regs[rd] = (#[verifier::truncate] ((inst & 0xffff_f000) as i32)) as i64 as u64;
        Ok(())
    }

    /// Execute one OP-32 instruction (opcode 0x3b).
    fn exec_op32(&mut self, inst: u64) -> (r: Result<(), Exception>)
        requires
            cpu_wf(old(self)@),
        ensures
            cpu_wf(final(self)@),
            (final(self)@, r) == spec_exec_op32(old(self)@, inst),
    {
        proof {
            lemma_decode_bounds(inst);
        }
        let rd = ((inst & 0x0000_0f80) >> 7) as usize;
        let rs1 = ((inst & 0x000f_8000) >> 15) as usize;
        let rs2 = ((inst & 0x01f0_0000) >> 20) as usize;
        let funct3 = (inst & 0x7000) >> 12;
        let funct7 = (inst & 0xfe00_0000) >> 25;
        proof {
            lemma_shamt_bounds(self.regs[rs2 as int]);
        }
        // The shift amount is given by rs2[4:0].
        let shamt = (self.regs[rs2] & 0x1f) as u32;
        match (funct3, funct7) {
            (0x0, 0x00) => {
                // addw
                self.regs[rd] = (#[verifier::truncate] (self.regs[rs1].wrapping_add(
                    self.regs[rs2],
                ) as i32)) as i64 as u64;
                Ok(())
            },
            (0x0, 0x20) => {
                // subw
                self.regs[rd] = (#[verifier::truncate] (self.regs[rs1].wrapping_sub(
                    self.regs[rs2],
                ) as i32)) as u64;
                Ok(())
            },
            (0x1, 0x00) => {
                // sllw
                self.regs[rd] = ((#[verifier::truncate] (self.regs[rs1] as u32)).wrapping_shl(
                    shamt,
                ) as i32) as u64;
                Ok(())
            },
            (0x5, 0x00) => {
                // srlw
                self.regs[rd] = ((#[verifier::truncate] (self.regs[rs1] as u32)).wrapping_shr(
                    shamt,
                ) as i32) as u64;
                Ok(())
            },
            (0x5, 0x01) => {
                // divu, with division by zero giving all ones
                self.regs[rd] = if self.regs[rs2] == 0 {
                    0xffff_ffff_ffff_ffffu64
                } else {
                    let dividend = self.regs[rs1];
                    let divisor = self.regs[rs2];
                    dividend / divisor
                };
                Ok(())
            },
            (0x5, 0x20) => {
                // sraw
                self.regs[rd] = ((#[verifier::truncate] (self.regs[rs1] as i32)) >> (
                shamt as i32)) as u64;
                Ok(())
            },
            (0x7, 0x01) => {
                // remuw, with a zero divisor giving the dividend
                self.regs[rd] = if self.regs[rs2] == 0 {
                    self.regs[rs1]
                } else {
                    let dividend = #[verifier::truncate] (self.regs[rs1] as u32);
                    let divisor = #[verifier::truncate] (self.regs[rs2] as u32);
                    if divisor == 0 {
                        dividend as i32 as u64
                    } else {
                        ((dividend % divisor) as i32) as u64
                    }
                };
                Ok(())
            },
            _ => Err(Exception::IllegalInstruction),
        }
    }

    /// Execute one conditional branch (opcode 0x63).
    fn exec_branch(&mut self, inst: u64) -> (r: Result<(), Exception>)
        requires
            cpu_wf(old(self)@),
        ensures
            cpu_wf(final(self)@),
            (final(self)@, r) == spec_exec_branch(old(self)@, inst),
    {
        proof {
            lemma_decode_bounds(inst);
        }
        let rs1 = ((inst & 0x000f_8000) >> 15) as usize;
        let rs2 = ((inst & 0x01f0_0000) >> 20) as usize;
        let funct3 = (inst & 0x7000) >> 12;
        // imm[12|10:5|4:1|11] = inst[31|30:25|11:8|7]
        let imm = (((#[verifier::truncate] ((inst & 0x8000_0000) as i32)) as i64 >> 19) as u64) | (
        (inst & 0x80) << 4) | ((inst >> 20) & 0x7e0) | ((inst >> 7) & 0x1e);
        match funct3 {
            0x0 => {
                // beq
                if self.regs[rs1] == self.regs[rs2] {
                    self.pc = self.pc.wrapping_add(imm).wrapping_sub(4);
                }
                Ok(())
            },
            0x1 => {
                // bne
                if self.regs[rs1] != self.regs[rs2] {
                    self.pc = self.pc.wrapping_add(imm).wrapping_sub(4);
                }
                Ok(())
            },
            0x4 => {
                // blt
                if (self.regs[rs1] as i64) < (self.regs[rs2] as i64) {
                    self.pc = self.pc.wrapping_add(imm).wrapping_sub(4);
                }
                Ok(())
            },
            0x5 => {
                // bge
                if (self.regs[rs1] as i64) >= (self.regs[rs2] as i64) {
                    self.pc = self.pc.wrapping_add(imm).wrapping_sub(4);
                }
                Ok(())
            },
            0x6 => {
                // bltu
                if self.regs[rs1] < self.regs[rs2] {
                    self.pc = self.pc.wrapping_add(imm).wrapping_sub(4);
                }
                Ok(())
            },
            0x7 => {
                // bgeu
                if self.regs[rs1] >= self.regs[rs2] {
                    self.pc = self.pc.wrapping_add(imm).wrapping_sub(4);
                }
                Ok(())
            },
            _ => Err(Exception::IllegalInstruction),
        }
    }

    /// Execute JALR (opcode 0x67).
    fn exec_jalr(&mut self, inst: u64) -> (r: Result<(), Exception>)
        requires
            cpu_wf(old(self)@),
        ensures
            cpu_wf(final(self)@),
            (final(self)@, r) == spec_exec_jalr(old(self)@, inst),
    {
        proof {
            lemma_decode_bounds(inst);
        }
        let rd = ((inst & 0x0000_0f80) >> 7) as usize;
        let rs1 = ((inst & 0x000f_8000) >> 15) as usize;
        // The pc was already advanced, so it is the return address.
        let t = self.pc;
        let imm = (((#[verifier::truncate] ((inst & 0xfff0_0000) as i32)) as i64) >> 20) as u64;
        self.pc = self.regs[rs1].wrapping_add(imm) & !1;
        self.regs[rd] = t;
        Ok(())
    }

    /// Execute JAL (opcode 0x6f).
    fn exec_jal(&mut self, inst: u64) -> (r: Result<(), Exception>)
        requires
            cpu_wf(old(self)@),
        ensures
            cpu_wf(final(self)@),
            (final(self)@, r) == spec_exec_jal(old(self)@, inst),
    {
        proof {
            lemma_decode_bounds(inst);
        }
        let rd = ((inst & 0x0000_0f80) >> 7) as usize;
        self.regs[rd] = self.pc;
        // imm[20|10:1|11|19:12] = inst[31|30:21|20|19:12]
        let imm = (((#[verifier::truncate] ((inst & 0x8000_0000) as i32)) as i64 >> 11) as u64) | (
        inst & 0xff000) | ((inst >> 9) & 0x800) | ((inst >> 20) & 0x7fe);
        self.pc = self.pc.wrapping_add(imm).wrapping_sub(4);
        Ok(())
    }

    /// Execute one SYSTEM instruction (opcode 0x73).
    fn exec_system(&mut self, inst: u64) -> (r: Result<(), Exception>)
        requires
            cpu_wf(old(self)@),
        ensures
            cpu_wf(final(self)@),
            (final(self)@, r) == spec_exec_system(old(self)@, inst),
    {
        proof {
            lemma_decode_bounds(inst);
        }
        let rd = ((inst & 0x0000_0f80) >> 7) as usize;
        let rs1 = ((inst & 0x000f_8000) >> 15) as usize;
        let rs2 = ((inst & 0x01f0_0000) >> 20) as usize;
        let funct3 = (inst & 0x7000) >> 12;
        let funct7 = (inst & 0xfe00_0000) >> 25;
        let csr_addr = ((inst & 0xfff0_0000) >> 20) as usize;
        match funct3 {
            0x0 => {
                if rs2 == 0x0 && funct7 == 0x0 {
                    // ecall: raise an environment call from the current mode.
                    match self.mode {
                        Mode::User => Err(Exception::EnvironmentCallFromUMode),
                        Mode::Supervisor => Err(Exception::EnvironmentCallFromSMode),
                        Mode::Machine => Err(Exception::EnvironmentCallFromMMode),
                    }
                } else if rs2 == 0x1 && funct7 == 0x0 {
                    // ebreak
                    Err(Exception::Breakpoint)
                } else if rs2 == 0x2 && funct7 == 0x8 {
                    // sret: pc from sepc, mode from SPP, SIE from SPIE,
                    // SPIE set, SPP cleared.
                    self.pc = self.load_csr(SEPC);
                    self.mode = if (self.load_csr(SSTATUS) >> 8) & 1 == 1 {
                        Mode::Supervisor
                    } else {
                        Mode::User
                    };
                    let sstatus = self.load_csr(SSTATUS);
                    self.store_csr(
                        SSTATUS,
                        if (sstatus >> 5) & 1 == 1 {
                            sstatus | (1u64 << 1)
                        } else {
                            sstatus & !(1u64 << 1)
                        },
                    );
                    let v5 = self.load_csr(SSTATUS) | (1u64 << 5);
                    self.store_csr(SSTATUS, v5);
                    let v8 = self.load_csr(SSTATUS) & !(1u64 << 8);
                    self.store_csr(SSTATUS, v8);
                    Ok(())
                } else if rs2 == 0x2 && funct7 == 0x18 {
                    // mret: pc from mepc, mode from MPP, MIE from MPIE,
                    // MPIE set, MPP cleared.
                    self.pc = self.load_csr(MEPC);
                    self.mode = match (self.load_csr(MSTATUS) >> 11) & 0b11 {
                        2 => Mode::Machine,
                        1 => Mode::Supervisor,
                        _ => Mode::User,
                    };
                    let mstatus = self.load_csr(MSTATUS);
                    self.store_csr(
                        MSTATUS,
                        if (mstatus >> 7) & 1 == 1 {
                            mstatus | (1u64 << 3)
                        } else {
                            mstatus & !(1u64 << 3)
                        },
                    );
                    let v7 = self.load_csr(MSTATUS) | (1u64 << 7);
                    self.store_csr(MSTATUS, v7);
                    let vpp = self.load_csr(MSTATUS) & !(0b11u64 << 11);
                    self.store_csr(MSTATUS, vpp);
                    Ok(())
                } else if funct7 == 0x9 {
                    // sfence.vma: nothing to do.
                    Ok(())
                } else {
                    Err(Exception::IllegalInstruction)
                }
            },
            0x1 => {
                // csrrw
                let t = self.load_csr(csr_addr);
                self.store_csr(csr_addr, self.regs[rs1]);
                self.regs[rd] = t;
                self.update_paging(csr_addr);
                Ok(())
            },
            0x2 => {
                // csrrs
                let t = self.load_csr(csr_addr);
                self.store_csr(csr_addr, t | self.regs[rs1]);
                self.regs[rd] = t;
                self.update_paging(csr_addr);
                Ok(())
            },
            0x3 => {
                // csrrc
                let t = self.load_csr(csr_addr);
                self.store_csr(csr_addr, t & !self.regs[rs1]);
                self.regs[rd] = t;
                self.update_paging(csr_addr);
                Ok(())
            },
            0x5 => {
                // csrrwi
                let zimm = rs1 as u64;
                self.regs[rd] = self.load_csr(csr_addr);
                self.store_csr(csr_addr, zimm);
                self.update_paging(csr_addr);
                Ok(())
            },
            0x6 => {
                // csrrsi
                let zimm = rs1 as u64;
                let t = self.load_csr(csr_addr);
                self.store_csr(csr_addr, t | zimm);
                self.regs[rd] = t;
                self.update_paging(csr_addr);
                Ok(())
            },
            0x7 => {
                // csrrci
                let zimm = rs1 as u64;
                let t = self.load_csr(csr_addr);
                self.store_csr(csr_addr, t & !zimm);
                self.regs[rd] = t;
                self.update_paging(csr_addr);
                Ok(())
            },
            _ => Err(Exception::IllegalInstruction),
        }
    }

    /// Execute one decoded instruction word, as [`spec_execute`] describes.
    pub fn execute(&mut self, inst: u64) -> (r: Result<(), Exception>)
        requires
            cpu_wf(old(self)@),
        ensures
            cpu_wf(final(self)@),
            (final(self)@, r) == spec_execute(old(self)@, inst),
    {
        let opcode = inst & 0x7f;
        // Emulate that register x0 is hardwired with all bits zero.
        self.regs[0] = 0;
        match opcode {
            0x03 => self.exec_load(inst),
            0x0f => self.exec_fence(inst),
            0x13 => self.exec_op_imm(inst),
            0x17 => self.exec_auipc(inst),
            0x1b => self.exec_op_imm32(inst),
            0x23 => self.exec_store(inst),
            0x2f => self.exec_amo(inst),
            0x33 => self.exec_op(inst),
            0x37 => self.exec_lui(inst),
            0x3b => self.exec_op32(inst),
            0x63 => self.exec_branch(inst),
            0x67 => self.exec_jalr(inst),
            0x6f => self.exec_jal(inst),
            0x73 => self.exec_system(inst),
            _ => Err(Exception::IllegalInstruction),
        }
    }
}

} // verus!
