//! Instruction-level tests: straight-line arithmetic, branches, loads and
//! stores, jumps, and the hardwired zero register.

use rvemu::bus::DRAM_BASE;
use rvemu::cpu::Cpu;
use rvemu::dram::DRAM_SIZE;
use rvemu::trap::Exception;

/// Assemble a flat binary from 32-bit little-endian instruction words.
fn binary(words: &[u32]) -> Vec<u8> {
    let mut out = Vec::new();
    for w in words {
        out.push((w & 0xff) as u8);
        out.push(((w >> 8) & 0xff) as u8);
        out.push(((w >> 16) & 0xff) as u8);
        out.push(((w >> 24) & 0xff) as u8);
    }
    out
}

/// Run the fetch/advance/execute loop until the pc leaves the loaded code.
fn run(cpu: &mut Cpu, code_len: u64) {
    while cpu.pc < DRAM_BASE + code_len {
        let inst = match cpu.fetch() {
            Ok(inst) => inst,
            Err(_) => break,
        };
        cpu.pc = cpu.pc.wrapping_add(4);
        if cpu.execute(inst).is_err() {
            break;
        }
    }
}

#[test]
fn add_sequence() {
    // addi x1,x0,5; addi x2,x0,37; add x3,x1,x2
    let code = binary(&[0x0050_0093, 0x0250_0113, 0x0020_81b3]);
    let len = code.len() as u64;
    let mut cpu = Cpu::new(code, Vec::new());
    run(&mut cpu, len);
    assert_eq!(cpu.regs[1], 5);
    assert_eq!(cpu.regs[2], 37);
    assert_eq!(cpu.regs[3], 42);
    assert_eq!(cpu.pc, DRAM_BASE + 12);
}

#[test]
fn branch_taken_skips_instruction() {
    // addi x1,x0,10; addi x2,x0,10; beq x1,x2,+8; addi x3,x0,1; addi x4,x0,2
    let code = binary(&[
        0x00a0_0093,
        0x00a0_0113,
        0x0020_8463,
        0x0010_0193,
        0x0020_0213,
    ]);
    let len = code.len() as u64;
    let mut cpu = Cpu::new(code, Vec::new());
    run(&mut cpu, len);
    assert_eq!(cpu.regs[3], 0);
    assert_eq!(cpu.regs[4], 2);
}

#[test]
fn store_byte_load_unsigned() {
    // addi x1,x0,0x7F; sb x1,-1(sp); lbu x2,-1(sp)
    let code = binary(&[0x07f0_0093, 0xfe11_0fa3, 0xfff1_4103]);
    let len = code.len() as u64;
    let mut cpu = Cpu::new(code, Vec::new());
    assert_eq!(cpu.regs[2], DRAM_BASE + DRAM_SIZE);
    run(&mut cpu, len);
    assert_eq!(cpu.regs[2], 0x7f);
}

#[test]
fn store_byte_load_signed_sign_extends() {
    // A signed byte load sign-extends: store a byte with the sign bit set
    // (0xFF) and read it back with lb.
    // addi x1,x0,0xFF; sb x1,-1(sp); lb x2,-1(sp)
    let code = binary(&[0x0ff0_0093, 0xfe11_0fa3, 0xfff1_0103]);
    let len = code.len() as u64;
    let mut cpu = Cpu::new(code, Vec::new());
    run(&mut cpu, len);
    assert_eq!(cpu.regs[2], 0xffff_ffff_ffff_ffff);
}

#[test]
fn store_byte_load_signed_positive() {
    // A signed byte load of a byte with a clear sign bit stays positive.
    // addi x1,x0,0x7F; sb x1,-1(sp); lb x2,-1(sp)
    let code = binary(&[0x07f0_0093, 0xfe11_0fa3, 0xfff1_0103]);
    let len = code.len() as u64;
    let mut cpu = Cpu::new(code, Vec::new());
    run(&mut cpu, len);
    assert_eq!(cpu.regs[2], 0x7f);
}

#[test]
fn write_to_x0_reads_back_zero() {
    // addi x0,x0,5; then addi x1,x0,0 must see x0 as zero.
    let code = binary(&[0x0050_0013, 0x0000_0093]);
    let len = code.len() as u64;
    let mut cpu = Cpu::new(code, Vec::new());
    run(&mut cpu, len);
    assert_eq!(cpu.regs[0], 0);
    assert_eq!(cpu.regs[1], 0);
}

#[test]
fn jal_links_and_jumps() {
    // jal x1,+16 at DRAM_BASE: the return address is DRAM_BASE+4 and the
    // pc lands at DRAM_BASE+16.
    let code = binary(&[0x0100_00ef]);
    let mut cpu = Cpu::new(code, Vec::new());
    let inst = cpu.fetch().unwrap();
    cpu.pc = cpu.pc.wrapping_add(4);
    cpu.execute(inst).unwrap();
    assert_eq!(cpu.regs[1], DRAM_BASE + 4);
    assert_eq!(cpu.pc, DRAM_BASE + 16);
}

#[test]
fn jalr_clears_low_bit() {
    // addi x1,x0,0x103; jalr x2,1(x1): target (0x103 + 1) & !1 = 0x104.
    let code = binary(&[0x1030_0093, 0x0010_8167]);
    let mut cpu = Cpu::new(code, Vec::new());
    let inst = cpu.fetch().unwrap();
    cpu.pc = cpu.pc.wrapping_add(4);
    cpu.execute(inst).unwrap();
    let inst = cpu.fetch().unwrap();
    cpu.pc = cpu.pc.wrapping_add(4);
    cpu.execute(inst).unwrap();
    assert_eq!(cpu.regs[1], 0x103);
    assert_eq!(cpu.pc, 0x104);
    // The return address of the jalr is the instruction after it.
    assert_eq!(cpu.regs[2], DRAM_BASE + 8);
}

#[test]
fn op_imm_forms() {
    // addi x1,x0,-1; slti x2,x1,0; sltiu x3,x1,0; xori x4,x1,0xF;
    // ori x5,x0,0x70; andi x6,x1,0x3C
    let code = binary(&[
        0xfff0_0093,
        0x0000_a113,
        0x0000_b193,
        0x00f0_c213,
        0x0700_6293,
        0x03c0_f313,
    ]);
    let len = code.len() as u64;
    let mut cpu = Cpu::new(code, Vec::new());
    run(&mut cpu, len);
    assert_eq!(cpu.regs[1], u64::MAX);
    assert_eq!(cpu.regs[2], 1); // -1 < 0 signed
    assert_eq!(cpu.regs[3], 0); // u64::MAX not < 0 unsigned
    assert_eq!(cpu.regs[4], !0xfu64); // -1 ^ 0xF
    assert_eq!(cpu.regs[5], 0x70);
    assert_eq!(cpu.regs[6], 0x3c);
}

#[test]
fn shifts_and_words() {
    // addi x1,x0,1; slli x2,x1,63; srli x3,x2,62; addiw x4,x0,-1;
    // srai x5,x2,63
    let code = binary(&[
        0x0010_0093,
        0x03f0_9113,
        0x03e1_5193,
        0xfff0_021b,
        0x43f1_5293,
    ]);
    let len = code.len() as u64;
    let mut cpu = Cpu::new(code, Vec::new());
    run(&mut cpu, len);
    assert_eq!(cpu.regs[2], 1u64 << 63);
    assert_eq!(cpu.regs[3], 2);
    assert_eq!(cpu.regs[4], u64::MAX); // addiw sign-extends
    assert_eq!(cpu.regs[5], u64::MAX); // arithmetic shift drags the sign
}

#[test]
fn mul_divu_remuw() {
    // addi x1,x0,7; addi x2,x0,6; mul x3,x1,x2; divu x4,x3,x1;
    // remuw x5,x3,x2
    let code = binary(&[
        0x0070_0093,
        0x0060_0113,
        0x0220_81b3,
        0x0211_d23b,
        0x0221_f2bb,
    ]);
    let len = code.len() as u64;
    let mut cpu = Cpu::new(code, Vec::new());
    run(&mut cpu, len);
    assert_eq!(cpu.regs[3], 42);
    assert_eq!(cpu.regs[4], 6);
    assert_eq!(cpu.regs[5], 0);
}

#[test]
fn divu_by_zero_gives_all_ones() {
    // addi x1,x0,7; divu x2,x1,x0
    let code = binary(&[0x0070_0093, 0x0200_d13b]);
    let len = code.len() as u64;
    let mut cpu = Cpu::new(code, Vec::new());
    run(&mut cpu, len);
    assert_eq!(cpu.regs[2], u64::MAX);
}

#[test]
fn remuw_by_zero_gives_dividend() {
    // addi x1,x0,7; remuw x2,x1,x0
    let code = binary(&[0x0070_0093, 0x0200_f13b]);
    let len = code.len() as u64;
    let mut cpu = Cpu::new(code, Vec::new());
    run(&mut cpu, len);
    assert_eq!(cpu.regs[2], 7);
}

#[test]
fn amoadd_and_amoswap() {
    // Seed a word in DRAM, then run amoadd.w and amoswap.w against it.
    let mut cpu = Cpu::new(Vec::new(), Vec::new());
    cpu.bus.store(DRAM_BASE + 0x100, 32, 5).unwrap();
    cpu.regs[1] = 7;
    cpu.regs[2] = DRAM_BASE + 0x100;
    cpu.regs[4] = 100;
    // amoadd.w x3,x1,(x2): old value 5 to x3, memory becomes 12.
    cpu.execute(0x0011_21af).unwrap();
    assert_eq!(cpu.regs[3], 5);
    assert_eq!(cpu.bus.load(DRAM_BASE + 0x100, 32).unwrap(), 12);
    // amoswap.w x5,x4,(x2): old value 12 to x5, memory becomes 100.
    cpu.execute(0x0841_22af).unwrap();
    assert_eq!(cpu.regs[5], 12);
    assert_eq!(cpu.bus.load(DRAM_BASE + 0x100, 32).unwrap(), 100);
}

#[test]
fn lui_and_auipc() {
    // lui x1,0x12345; auipc x2,0x1000
    let code = binary(&[0x1234_50b7, 0x0100_0117]);
    let len = code.len() as u64;
    let mut cpu = Cpu::new(code, Vec::new());
    run(&mut cpu, len);
    assert_eq!(cpu.regs[1], 0x1234_5000);
    // auipc adds the shifted immediate to its own address.
    assert_eq!(cpu.regs[2], DRAM_BASE + 4 + 0x0100_0000);
}

#[test]
fn remuw_with_truncated_zero_divisor() {
    // The divisor register is nonzero but its low 32 bits are zero: remuw
    // yields the sign-extended low word of the dividend.
    let mut cpu = Cpu::new(Vec::new(), Vec::new());
    cpu.regs[1] = 0xffff_ffff;
    cpu.regs[3] = 1u64 << 32;
    cpu.execute(0x0230_f13b).unwrap(); // remuw x2,x1,x3
    assert_eq!(cpu.regs[2], u64::MAX);
}

#[test]
fn reserved_shift_encoding_is_illegal() {
    // An OP-IMM shift whose upper immediate bits name no srli/srai form.
    let mut cpu = Cpu::new(Vec::new(), Vec::new());
    assert_eq!(cpu.execute(0x8000_d113), Err(Exception::IllegalInstruction));
}

#[test]
fn unknown_opcode_is_illegal_instruction() {
    let mut cpu = Cpu::new(Vec::new(), Vec::new());
    assert_eq!(cpu.execute(0xffff_ffff), Err(Exception::IllegalInstruction));
}

#[test]
fn fence_is_a_no_op() {
    let mut cpu = Cpu::new(Vec::new(), Vec::new());
    let pc = cpu.pc;
    cpu.execute(0x0000_000f).unwrap();
    assert_eq!(cpu.pc, pc);
}

#[test]
fn initial_state_after_load() {
    let cpu = Cpu::new(vec![1, 2, 3, 4], Vec::new());
    assert_eq!(cpu.pc, DRAM_BASE);
    assert_eq!(cpu.regs[2], DRAM_BASE + DRAM_SIZE);
    for i in 0..32 {
        if i != 2 {
            assert_eq!(cpu.regs[i], 0);
        }
    }
    assert!(!cpu.enable_paging);
    assert_eq!(cpu.page_table, 0);
}
