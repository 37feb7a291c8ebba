//! Instruction-level tests: each runs a short program from the DRAM base and
//! checks registers, the pc, or CSRs through the `reg` accessor.

use rvemu::cpu::{Cpu, Mode};
use rvemu::csr::{SEPC, SSTATUS};
use rvemu::param::DRAM_BASE;

// Register numbers by ABI name.
const ZERO: u32 = 0;
const RA: u32 = 1;
const SP: u32 = 2;
const T0: u32 = 5;
const T1: u32 = 6;
const T2: u32 = 7;
const T3: u32 = 28;
const T4: u32 = 29;
const S0: u32 = 8;
const A0: u32 = 10;
const A1: u32 = 11;
const A2: u32 = 12;
const A3: u32 = 13;
const A4: u32 = 14;
const A5: u32 = 15;
const X1: u32 = 1;
const X2: u32 = 2;

fn r_type(op: u32, rd: u32, f3: u32, rs1: u32, rs2: u32, f7: u32) -> u32 {
    (f7 << 25) | (rs2 << 20) | (rs1 << 15) | (f3 << 12) | (rd << 7) | op
}

fn i_type(op: u32, rd: u32, f3: u32, rs1: u32, imm: i32) -> u32 {
    (((imm as u32) & 0xfff) << 20) | (rs1 << 15) | (f3 << 12) | (rd << 7) | op
}

fn s_type(op: u32, f3: u32, rs1: u32, rs2: u32, imm: i32) -> u32 {
    let imm = imm as u32;
    ((imm >> 5) & 0x7f) << 25 | (rs2 << 20) | (rs1 << 15) | (f3 << 12) | ((imm & 0x1f) << 7) | op
}

fn b_type(f3: u32, rs1: u32, rs2: u32, imm: i32) -> u32 {
    let imm = imm as u32;
    ((imm >> 12) & 1) << 31
        | ((imm >> 5) & 0x3f) << 25
        | (rs2 << 20)
        | (rs1 << 15)
        | (f3 << 12)
        | ((imm >> 1) & 0xf) << 8
        | ((imm >> 11) & 1) << 7
        | 0x63
}

fn u_type(op: u32, rd: u32, imm20: u32) -> u32 {
    (imm20 << 12) | (rd << 7) | op
}

fn jal(rd: u32, imm: i32) -> u32 {
    let imm = imm as u32;
    ((imm >> 20) & 1) << 31
        | ((imm >> 1) & 0x3ff) << 21
        | ((imm >> 11) & 1) << 20
        | ((imm >> 12) & 0xff) << 12
        | (rd << 7)
        | 0x6f
}

fn addi(rd: u32, rs1: u32, imm: i32) -> u32 {
    i_type(0x13, rd, 0, rs1, imm)
}

fn csr_op(f3: u32, rd: u32, rs1: u32, csr: u32) -> u32 {
    (csr << 20) | (rs1 << 15) | (f3 << 12) | (rd << 7) | 0x73
}

/// Assemble the words into a flat binary, run `n_clock` fetch/execute steps
/// as the run loop would (a fetch fault stops, an execute fault keeps the
/// pc), and hand the hart back for inspection.
fn run(words: &[u32], n_clock: usize) -> Cpu {
    let mut code: Vec<u8> = Vec::new();
    for w in words {
        code.extend_from_slice(&w.to_le_bytes());
    }
    let mut cpu = Cpu::new(code, Vec::new());
    for _ in 0..n_clock {
        let inst = match cpu.fetch() {
            Ok(inst) => inst,
            Err(_) => break,
        };
        match cpu.execute(inst) {
            Ok(new_pc) => cpu.set_pc(new_pc),
            Err(_) => {}
        }
    }
    cpu
}

#[test]
fn test_addi() {
    let cpu = run(&[addi(31, 0, 42)], 1);
    assert_eq!(cpu.reg("x31"), 42);
}

#[test]
fn test_simple() {
    // addi sp,sp,-16; sd s0,8(sp); addi s0,sp,16; li a5,42; mv a0,a5;
    // ld s0,8(sp); addi sp,sp,16; jr ra
    let code = [
        addi(SP, SP, -16),
        s_type(0x23, 3, SP, S0, 8),
        addi(S0, SP, 16),
        addi(A5, ZERO, 42),
        addi(A0, A5, 0),
        i_type(0x03, S0, 3, SP, 8),
        addi(SP, SP, 16),
        i_type(0x67, ZERO, 0, RA, 0),
    ];
    let cpu = run(&code, 20);
    assert_eq!(cpu.reg("a0"), 42);
}

#[test]
fn test_lui() {
    let cpu = run(&[u_type(0x37, A0, 42)], 1);
    assert_eq!(cpu.reg("a0"), 42 << 12);
}

#[test]
fn test_auipc() {
    let cpu = run(&[u_type(0x17, A0, 42)], 1);
    assert_eq!(cpu.reg("a0"), DRAM_BASE + (42 << 12));
}

#[test]
fn test_jal() {
    let cpu = run(&[jal(A0, 42)], 1);
    assert_eq!(cpu.reg("a0"), DRAM_BASE + 4);
    assert_eq!(cpu.reg("pc"), DRAM_BASE + 42);
}

#[test]
fn test_jalr() {
    let code = [addi(A1, ZERO, 42), i_type(0x67, A0, 0, A1, -8)];
    let cpu = run(&code, 2);
    assert_eq!(cpu.reg("a0"), DRAM_BASE + 8);
    assert_eq!(cpu.reg("pc"), 34);
}

#[test]
fn test_beq() {
    let cpu = run(&[b_type(0, 0, 0, 42)], 3);
    assert_eq!(cpu.reg("pc"), DRAM_BASE + 42);
}

#[test]
fn test_bne() {
    let code = [addi(X1, ZERO, 10), b_type(1, 0, X1, 42)];
    let cpu = run(&code, 5);
    assert_eq!(cpu.reg("pc"), DRAM_BASE + 42 + 4);
}

#[test]
fn test_blt() {
    let code = [addi(X1, ZERO, 10), addi(X2, ZERO, 20), b_type(4, X1, X2, 42)];
    let cpu = run(&code, 10);
    assert_eq!(cpu.reg("pc"), DRAM_BASE + 42 + 8);
}

#[test]
fn test_bge() {
    let code = [addi(X1, ZERO, 10), addi(X2, ZERO, 20), b_type(5, X2, X1, 42)];
    let cpu = run(&code, 10);
    assert_eq!(cpu.reg("pc"), DRAM_BASE + 42 + 8);
}

#[test]
fn test_bltu() {
    let code = [addi(X1, ZERO, 10), addi(X2, ZERO, 20), b_type(6, X1, X2, 42)];
    let cpu = run(&code, 10);
    assert_eq!(cpu.reg("pc"), DRAM_BASE + 42 + 8);
}

#[test]
fn test_bgeu() {
    let code = [addi(X1, ZERO, 10), addi(X2, ZERO, 20), b_type(7, X2, X1, 42)];
    let cpu = run(&code, 10);
    assert_eq!(cpu.reg("pc"), DRAM_BASE + 42 + 8);
}

#[test]
fn test_store_load1() {
    // addi s0, zero, 256; addi sp, sp, -16; sd s0, 8(sp); lb t1, 8(sp);
    // lh t2, 8(sp)
    let code = [
        addi(S0, ZERO, 256),
        addi(SP, SP, -16),
        s_type(0x23, 3, SP, S0, 8),
        i_type(0x03, T1, 0, SP, 8),
        i_type(0x03, T2, 1, SP, 8),
    ];
    let cpu = run(&code, 10);
    assert_eq!(cpu.reg("t1"), 0);
    assert_eq!(cpu.reg("t2"), 256);
}

#[test]
fn test_slt() {
    let code = [
        addi(T0, ZERO, 14),
        addi(T1, ZERO, 24),
        r_type(0x33, T2, 2, T0, T1, 0),
        i_type(0x13, T3, 2, T0, 42),
        i_type(0x13, T4, 3, T0, 84),
    ];
    let cpu = run(&code, 7);
    assert_eq!(cpu.reg("t2"), 1);
    assert_eq!(cpu.reg("t3"), 1);
    assert_eq!(cpu.reg("t4"), 1);
}

#[test]
fn test_xor() {
    let code = [
        addi(A0, ZERO, 0b10),
        i_type(0x13, A1, 4, A0, 0b01),
        r_type(0x33, A2, 4, A1, A1, 0),
    ];
    let cpu = run(&code, 5);
    assert_eq!(cpu.reg("a1"), 3);
    assert_eq!(cpu.reg("a2"), 0);
}

#[test]
fn test_or() {
    let code = [
        addi(A0, ZERO, 0b10),
        i_type(0x13, A1, 6, A0, 0b01),
        r_type(0x33, A2, 6, A0, A0, 0),
    ];
    let cpu = run(&code, 3);
    assert_eq!(cpu.reg("a1"), 0b11);
    assert_eq!(cpu.reg("a2"), 0b10);
}

#[test]
fn test_and() {
    let code = [
        addi(A0, ZERO, 0b10),
        i_type(0x13, A1, 7, A0, 0b11),
        r_type(0x33, A2, 7, A0, A1, 0),
    ];
    let cpu = run(&code, 3);
    assert_eq!(cpu.reg("a1"), 0b10);
    assert_eq!(cpu.reg("a2"), 0b10);
}

#[test]
fn test_sll() {
    let code = [
        addi(A0, ZERO, 1),
        addi(A1, ZERO, 5),
        r_type(0x33, A2, 1, A0, A1, 0),
        i_type(0x13, A3, 1, A0, 5),
        addi(S0, ZERO, 64),
        r_type(0x33, A4, 1, A0, S0, 0),
    ];
    let cpu = run(&code, 10);
    assert_eq!(cpu.reg("a2"), 1 << 5);
    assert_eq!(cpu.reg("a3"), 1 << 5);
    assert_eq!(cpu.reg("a4"), 1);
}

#[test]
fn test_sra_srl() {
    let code = [
        addi(A0, ZERO, -8),
        addi(A1, ZERO, 1),
        r_type(0x33, A2, 5, A0, A1, 0x20),
        i_type(0x13, A3, 5, A0, 2 | (0x20 << 5)),
        i_type(0x13, A4, 5, A0, 2),
        r_type(0x33, A5, 5, A0, A1, 0),
    ];
    let cpu = run(&code, 10);
    assert_eq!(cpu.reg("a2"), -4_i64 as u64);
    assert_eq!(cpu.reg("a3"), -2_i64 as u64);
    assert_eq!(cpu.reg("a4"), (-8_i64 as u64) >> 2);
    assert_eq!(cpu.reg("a5"), (-8_i64 as u64) >> 1);
}

#[test]
fn test_word_op() {
    let code = [
        addi(A0, ZERO, 42),
        u_type(0x37, A1, 0x7f000),
        r_type(0x3b, A2, 0, A0, A1, 0),
    ];
    let cpu = run(&code, 29);
    assert_eq!(cpu.reg("a2"), 0x7f00002a);
}

#[test]
fn test_csrs1() {
    let code = [
        addi(T0, ZERO, 1),
        addi(T1, ZERO, 2),
        addi(T2, ZERO, 3),
        csr_op(1, ZERO, T0, 0x300), // csrrw zero, mstatus, t0
        csr_op(2, ZERO, T1, 0x305), // csrrs zero, mtvec, t1
        csr_op(1, ZERO, T2, 0x341), // csrrw zero, mepc, t2
        csr_op(3, T2, ZERO, 0x341), // csrrc t2, mepc, zero
        csr_op(5, ZERO, 4, 0x100),  // csrrwi zero, sstatus, 4
        csr_op(6, ZERO, 5, 0x105),  // csrrsi zero, stvec, 5
        csr_op(5, ZERO, 6, 0x141),  // csrrwi zero, sepc, 6
        csr_op(7, ZERO, 0, 0x141),  // csrrci zero, sepc, 0
    ];
    let cpu = run(&code, 20);
    assert_eq!(cpu.reg("mstatus"), 1);
    assert_eq!(cpu.reg("mtvec"), 2);
    assert_eq!(cpu.reg("mepc"), 3);
    assert_eq!(cpu.reg("sstatus"), 0);
    assert_eq!(cpu.reg("stvec"), 5);
    assert_eq!(cpu.reg("sepc"), 6);
}

#[test]
fn test_lui_addi() {
    // lui a0, 0x42; addi a0, a0, 1
    let code = [u_type(0x37, A0, 0x42), addi(A0, A0, 1)];
    let cpu = run(&code, 2);
    assert_eq!(cpu.reg("a0"), 0x42001);
}

#[test]
fn test_x0_stays_zero() {
    // addi x0, x0, 42: the write to x0 is discarded
    let cpu = run(&[addi(0, 0, 42)], 1);
    assert_eq!(cpu.reg("zero"), 0);
    assert_eq!(cpu.reg("x0"), 0);
}

#[test]
fn test_wop_sign_extension() {
    // lui a0, 0x80000 makes a negative 32-bit value; addw a1, a0, zero keeps
    // it sign-extended
    let code = [u_type(0x37, A0, 0x80000), r_type(0x3b, A1, 0, A0, ZERO, 0)];
    let cpu = run(&code, 2);
    assert_eq!(cpu.reg("a0"), 0xffff_ffff_8000_0000);
    assert_eq!(cpu.reg("a1"), 0xffff_ffff_8000_0000);
}

#[test]
fn test_sllw_shift_masking() {
    // a shift amount of 32 in rs2 counts as zero for the 32-bit shift
    let code = [
        addi(A0, ZERO, 1),
        addi(A1, ZERO, 32),
        r_type(0x3b, A2, 1, A0, A1, 0),
    ];
    let cpu = run(&code, 3);
    assert_eq!(cpu.reg("a2"), 1);
}

#[test]
fn test_jalr_lsb_cleared() {
    // jumping to an odd address lands on the even address below it
    let code = [addi(A1, ZERO, 43), i_type(0x67, A0, 0, A1, 0)];
    let cpu = run(&code, 2);
    assert_eq!(cpu.reg("pc"), 42);
}

#[test]
fn test_mul() {
    let code = [
        addi(A0, ZERO, 7),
        addi(A1, ZERO, 6),
        r_type(0x33, A2, 0, A0, A1, 1),
    ];
    let cpu = run(&code, 3);
    assert_eq!(cpu.reg("a2"), 42);
}

#[test]
fn test_illegal_instruction_is_trapped() {
    // an all-zero word is an illegal instruction: with mtvec zero the hart
    // would spin, so the run loop here just leaves the pc in place
    let cpu = run(&[0], 1);
    assert_eq!(cpu.reg("pc"), DRAM_BASE);
}

#[test]
fn test_addiw_sign_extends() {
    // addi a0, zero, -1 makes all ones; addiw a1, a0, 0 keeps the low word's
    // sign; addiw a2, zero, 1 stays small
    let code = [
        addi(A0, ZERO, -1),
        i_type(0x1b, A1, 0, A0, 0),
        i_type(0x1b, A2, 0, ZERO, 1),
    ];
    let cpu = run(&code, 3);
    assert_eq!(cpu.reg("a1"), u64::MAX);
    assert_eq!(cpu.reg("a2"), 1);
}

#[test]
fn test_slliw_sraiw_srliw() {
    // slliw a1, a0, 31 puts the sign bit up; sraiw and srliw bring it down
    // arithmetically and logically
    let code = [
        addi(A0, ZERO, 1),
        i_type(0x1b, A1, 1, A0, 31),
        i_type(0x1b, A2, 5, A1, 31),
        i_type(0x1b, A3, 5, A1, 31 | (0x20 << 5)),
    ];
    let cpu = run(&code, 4);
    assert_eq!(cpu.reg("a1"), 0xffff_ffff_8000_0000);
    assert_eq!(cpu.reg("a2"), 1);
    assert_eq!(cpu.reg("a3"), u64::MAX);
}

#[test]
fn test_subw_sraw() {
    // subw a2, zero, a0 gives a negative word; sraw shifts it arithmetically
    let code = [
        addi(A0, ZERO, 8),
        r_type(0x3b, A2, 0, ZERO, A0, 0x20),
        addi(A1, ZERO, 2),
        r_type(0x3b, A3, 5, A2, A1, 0x20),
    ];
    let cpu = run(&code, 4);
    assert_eq!(cpu.reg("a2"), -8_i64 as u64);
    assert_eq!(cpu.reg("a3"), -2_i64 as u64);
}

#[test]
fn test_load_widths_and_sign() {
    // store a doubleword, read it back at every width, signed and unsigned
    let code = [
        addi(A0, ZERO, -1),
        s_type(0x23, 3, SP, A0, -8), // sd a0, -8(sp)
        i_type(0x03, A1, 0, SP, -8), // lb
        i_type(0x03, A2, 4, SP, -8), // lbu
        i_type(0x03, A3, 1, SP, -8), // lh
        i_type(0x03, A4, 5, SP, -8), // lhu
        i_type(0x03, A5, 2, SP, -8), // lw
        i_type(0x03, T0, 6, SP, -8), // lwu
        i_type(0x03, T1, 3, SP, -8), // ld
    ];
    let cpu = run(&code, 9);
    assert_eq!(cpu.reg("a1"), u64::MAX);
    assert_eq!(cpu.reg("a2"), 0xff);
    assert_eq!(cpu.reg("a3"), u64::MAX);
    assert_eq!(cpu.reg("a4"), 0xffff);
    assert_eq!(cpu.reg("a5"), u64::MAX);
    assert_eq!(cpu.reg("t0"), 0xffff_ffff);
    assert_eq!(cpu.reg("t1"), u64::MAX);
}

#[test]
fn test_store_widths() {
    // narrow stores leave the bytes above them alone
    let code = [
        addi(A0, ZERO, -1),
        s_type(0x23, 3, SP, ZERO, -8), // sd zero, -8(sp)
        s_type(0x23, 0, SP, A0, -8),   // sb a0, -8(sp)
        i_type(0x03, A1, 3, SP, -8),   // ld
        s_type(0x23, 1, SP, A0, -4),   // sh a0, -4(sp)
        i_type(0x03, A2, 2, SP, -4),   // lw
    ];
    let cpu = run(&code, 6);
    assert_eq!(cpu.reg("a1"), 0xff);
    assert_eq!(cpu.reg("a2"), 0xffff);
}

#[test]
fn test_sfence_vma_is_noop() {
    // sfence.vma x0, x0 falls through
    let sfence: u32 = r_type(0x73, 0, 0, 0, 0, 0x09);
    let code = [sfence, addi(A0, ZERO, 7)];
    let cpu = run(&code, 2);
    assert_eq!(cpu.reg("a0"), 7);
    assert_eq!(cpu.reg("pc"), DRAM_BASE + 8);
}

#[test]
fn test_ebreak_raises_breakpoint() {
    let ebreak: u32 = 0x0010_0073;
    let mut cpu = Cpu::new(ebreak.to_le_bytes().to_vec(), Vec::new());
    let inst = cpu.fetch().unwrap();
    assert_eq!(cpu.execute(inst), Err(rvemu::exception::Exception::Breakpoint));
}

#[test]
fn test_sret_restores_supervisor_state() {
    let sret: u32 = 0x1020_0073;
    let mut cpu = Cpu::new(Vec::new(), Vec::new());
    cpu.mode = Mode::Supervisor;
    // SPP = 0 (user), SPIE = 1
    cpu.store_csr(SSTATUS, 1 << 5);
    cpu.store_csr(SEPC, DRAM_BASE + 0x80);
    let new_pc = cpu.execute(sret as u64).unwrap();
    assert_eq!(new_pc, DRAM_BASE + 0x80);
    assert_eq!(cpu.mode, Mode::User);
    // SIE took SPIE's value, SPIE is set, SPP is cleared
    assert_eq!(cpu.load_csr(SSTATUS) & (1 << 1), 1 << 1);
    assert_eq!(cpu.load_csr(SSTATUS) & (1 << 5), 1 << 5);
    assert_eq!(cpu.load_csr(SSTATUS) & (1 << 8), 0);
}

#[test]
fn test_reg_name_forms() {
    // the same register under its ABI name, its x number, and with leading
    // zeros; fp is another name for s0
    let code = [addi(T2, ZERO, 42), addi(S0, ZERO, 9)];
    let cpu = run(&code, 2);
    assert_eq!(cpu.reg("t2"), 42);
    assert_eq!(cpu.reg("x7"), 42);
    assert_eq!(cpu.reg("x007"), 42);
    assert_eq!(cpu.reg("s0"), 9);
    assert_eq!(cpu.reg("fp"), 9);
}
