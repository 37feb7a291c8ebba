//! Instruction-word decoding for the RV64 base formats: opcode and register
//! fields, and the sign-extended I/S/B/U/J-type immediates.

use vstd::prelude::*;
use crate::alu::sext32;
use crate::exception::Exception;

verus! {

/// The low-7-bit opcode.
pub open spec fn opcode_of(inst: u64) -> u64 {
    inst & 0x7f
}

/// The destination register field.
pub open spec fn rd_of(inst: u64) -> u64 {
    (inst >> 7) & 0x1f
}

/// The first source register field.
pub open spec fn rs1_of(inst: u64) -> u64 {
    (inst >> 15) & 0x1f
}

/// The second source register field.
pub open spec fn rs2_of(inst: u64) -> u64 {
    (inst >> 20) & 0x1f
}

/// The funct3 field.
pub open spec fn funct3_of(inst: u64) -> u64 {
    (inst >> 12) & 0x7
}

/// The funct7 field.
pub open spec fn funct7_of(inst: u64) -> u64 {
    (inst >> 25) & 0x7f
}

/// The CSR address field (the I-type immediate, zero-extended).
pub open spec fn csr_of(inst: u64) -> u64 {
    (inst >> 20) & 0xfff
}

/// Sign-extend a 12-bit immediate to 64 bits.
pub open spec fn sext_imm12(v: u64) -> u64 {
    if v & 0x800 != 0 {
        v | !0xfffu64
    } else {
        v
    }
}

/// The I-type immediate: bits 31:20, sign-extended.
pub open spec fn imm_i(inst: u64) -> u64 {
    sext_imm12((inst >> 20) & 0xfff)
}

/// The S-type immediate: bits 31:25 and 11:7, sign-extended.
pub open spec fn imm_s(inst: u64) -> u64 {
    sext_imm12((((inst >> 25) & 0x7f) << 5) | ((inst >> 7) & 0x1f))
}

/// The B-type immediate: bits 31, 7, 30:25, 11:8 scaled by two,
/// sign-extended.
pub open spec fn imm_b(inst: u64) -> u64 {
    let v = (((inst >> 31) & 1) << 12) | (((inst >> 7) & 1) << 11) | (((inst >> 25) & 0x3f) << 5)
        | (((inst >> 8) & 0xf) << 1);
    if v & 0x1000 != 0 {
        v | !0x1fffu64
    } else {
        v
    }
}

/// The U-type immediate: bits 31:12 shifted into place, sign-extended from
/// bit 31.
pub open spec fn imm_u(inst: u64) -> u64 {
    sext32(inst & 0xffff_f000)
}

/// The J-type immediate: bits 31, 19:12, 20, 30:21 scaled by two,
/// sign-extended.
pub open spec fn imm_j(inst: u64) -> u64 {
    let v = (((inst >> 31) & 1) << 20) | (inst & 0xff000) | (((inst >> 20) & 1) << 11) | (((inst
        >> 21) & 0x3ff) << 1);
    if v & 0x100000 != 0 {
        v | !0x1f_ffffu64
    } else {
        v
    }
}

/// The exception an unrecognised encoding raises, carrying the instruction
/// word as trap value.
pub open spec fn illegal(inst: u64) -> Exception {
    Exception::IllegalInstruction((inst & 0xffff_ffff) as u32)
}

/// A register write: the register file with `rd` set to `v`, except that
/// writes to `x0` are discarded.
pub open spec fn upd_reg(regs: Seq<u64>, rd: u64, v: u64) -> Seq<u64> {
    if rd == 0 {
        regs
    } else {
        regs.update(rd as int, v)
    }
}

/// Decode the I-type immediate.
pub fn decode_imm_i(inst: u64) -> (r: u64)
    ensures
        r == imm_i(inst),
{
    let v = (inst >> 20) & 0xfff;
    if v & 0x800 != 0 {
        v | !0xfffu64
    } else {
        v
    }
}

/// Decode the S-type immediate.
pub fn decode_imm_s(inst: u64) -> (r: u64)
    ensures
        r == imm_s(inst),
{
    let v = (((inst >> 25) & 0x7f) << 5) | ((inst >> 7) & 0x1f);
    if v & 0x800 != 0 {
        v | !0xfffu64
    } else {
        v
    }
}

/// Decode the B-type immediate.
pub fn decode_imm_b(inst: u64) -> (r: u64)
    ensures
        r == imm_b(inst),
{
    let v = (((inst >> 31) & 1) << 12) | (((inst >> 7) & 1) << 11) | (((inst >> 25) & 0x3f) << 5)
        | (((inst >> 8) & 0xf) << 1);
    if v & 0x1000 != 0 {
        v | !0x1fffu64
    } else {
        v
    }
}

/// Decode the U-type immediate.
pub fn decode_imm_u(inst: u64) -> (r: u64)
    ensures
        r == imm_u(inst),
{
    crate::alu::sign_extend_32(inst & 0xffff_f000)
}

/// Decode the J-type immediate.
pub fn decode_imm_j(inst: u64) -> (r: u64)
    ensures
        r == imm_j(inst),
{
    let v = (((inst >> 31) & 1) << 20) | (inst & 0xff000) | (((inst >> 20) & 1) << 11) | (((inst
        >> 21) & 0x3ff) << 1);
    if v & 0x100000 != 0 {
        v | !0x1f_ffffu64
    } else {
        v
    }
}

/// The exception for an unrecognised encoding.
pub fn make_illegal(inst: u64) -> (e: Exception)
    ensures
        e == illegal(inst),
{
    proof {
        crate::alu::lemma_low_word_cast(inst);
    }
    Exception::IllegalInstruction((inst & 0xffff_ffff) as u32)
}

} // verus!
