//! Decode and execute for RV64I with the M-extension multiply, Zicsr, and
//! the privileged instructions. The spec function `step` is the instruction
//! semantics: `execute` is proved to return exactly `step`'s result and to
//! leave the hart in exactly `step`'s post state.

use vstd::prelude::*;
use crate::alu::{lemma_mask_bound, sext16, sext32, sext8, shift_left_32, shift_left_64, shift_right_32, shift_right_64, shift_right_arith_32, shift_right_arith_64, sign_extend_16, sign_extend_32, sign_extend_8, signed_lt, sll64, sllw, spec_signed_lt, sra64, sraw, srl64, srlw};
use crate::bus::{bus_load_post, bus_load_val, bus_store_post, bus_store_res};
use crate::cpu::{mode_bits, mode_of_bits, trap_post, Cpu, CpuView, Mode};
use crate::csr::{csr_read, csr_write, MASK_MIE, MASK_MPIE, MASK_MPP, MASK_MPRV, MASK_SIE, MASK_SPIE, MASK_SPP, MEDELEG, MEPC, MSTATUS, SEPC, SSTATUS};
use crate::exception::Exception;
use crate::isa::{csr_of, decode_imm_b, decode_imm_i, decode_imm_j, decode_imm_s, decode_imm_u, funct3_of, funct7_of, illegal, imm_b, imm_i, imm_j, imm_s, imm_u, make_illegal, opcode_of, rd_of, rs1_of, rs2_of, upd_reg};

verus! {

/// The LOAD group: read from `rs1 + imm`, extend by width and signedness,
/// write `rd`, fall through. A bus fault is returned and `rd` is untouched.
pub open spec fn step_load(s: CpuView, inst: u64) -> (CpuView, Result<u64, Exception>) {
    let f3 = funct3_of(inst);
    if f3 == 7 {
        (s, Err(illegal(inst)))
    } else {
        let addr = s.regs[rs1_of(inst) as int].wrapping_add(imm_i(inst));
        let size = if f3 == 0 || f3 == 4 {
            8u64
        } else if f3 == 1 || f3 == 5 {
            16u64
        } else if f3 == 2 || f3 == 6 {
            32u64
        } else {
            64u64
        };
        let s2 = CpuView { bus: bus_load_post(s.bus, addr, size), ..s };
        match bus_load_val(s.bus, addr, size) {
            Ok(v) => {
                let value = if f3 == 0 {
                    sext8(v)
                } else if f3 == 1 {
                    sext16(v)
                } else if f3 == 2 {
                    sext32(v)
                } else {
                    v
                };
                (
                    CpuView { regs: upd_reg(s2.regs, rd_of(inst), value), ..s2 },
                    Ok(s.pc.wrapping_add(4)),
                )
            },
            Err(e) => (s2, Err(e)),
        }
    }
}

/// The OP-IMM group: register-immediate ALU operations; the shift encodings
/// sub-dispatch on funct7.
pub open spec fn step_op_imm(s: CpuView, inst: u64) -> (CpuView, Result<u64, Exception>) {
    let f3 = funct3_of(inst);
    let f7 = funct7_of(inst);
    let x = s.regs[rs1_of(inst) as int];
    let imm = imm_i(inst);
    let value: Result<u64, Exception> = if f3 == 0 {
        Ok(x.wrapping_add(imm))
    } else if f3 == 1 {
        Ok(sll64(x, imm))
    } else if f3 == 2 {
        Ok(if spec_signed_lt(x, imm) { 1 } else { 0 })
    } else if f3 == 3 {
        Ok(if x < imm { 1 } else { 0 })
    } else if f3 == 4 {
        Ok(x ^ imm)
    } else if f3 == 5 {
        if f7 >> 1 == 0x00 {
            Ok(srl64(x, imm))
        } else if f7 >> 1 == 0x10 {
            Ok(sra64(x, imm))
        } else {
            Err(illegal(inst))
        }
    } else if f3 == 6 {
        Ok(x | imm)
    } else {
        Ok(x & imm)
    };
    match value {
        Ok(v) => (
            CpuView { regs: upd_reg(s.regs, rd_of(inst), v), ..s },
            Ok(s.pc.wrapping_add(4)),
        ),
        Err(e) => (s, Err(e)),
    }
}

/// The OP-IMM-32 group: 32-bit register-immediate operations, results
/// sign-extended; shift encodings with a nonzero funct7 outside the two
/// defined ones are reserved and raise an illegal-instruction exception.
pub open spec fn step_op_imm32(s: CpuView, inst: u64) -> (CpuView, Result<u64, Exception>) {
    let f3 = funct3_of(inst);
    let f7 = funct7_of(inst);
    let x = s.regs[rs1_of(inst) as int];
    let imm = imm_i(inst);
    let value: Result<u64, Exception> = if f3 == 0 {
        Ok(sext32(x.wrapping_add(imm)))
    } else if f3 == 1 {
        if f7 == 0x00 {
            Ok(sllw(x, imm))
        } else {
            Err(illegal(inst))
        }
    } else if f3 == 5 {
        if f7 == 0x00 {
            Ok(srlw(x, imm))
        } else if f7 == 0x20 {
            Ok(sraw(x, imm))
        } else {
            Err(illegal(inst))
        }
    } else {
        Err(illegal(inst))
    };
    match value {
        Ok(v) => (
            CpuView { regs: upd_reg(s.regs, rd_of(inst), v), ..s },
            Ok(s.pc.wrapping_add(4)),
        ),
        Err(e) => (s, Err(e)),
    }
}

/// The STORE group: write the low bits of `rs2` to `rs1 + imm` at the width
/// funct3 selects; undefined widths raise an illegal-instruction exception.
pub open spec fn step_store(s: CpuView, inst: u64) -> (CpuView, Result<u64, Exception>) {
    let f3 = funct3_of(inst);
    if f3 >= 4 {
        (s, Err(illegal(inst)))
    } else {
        let addr = s.regs[rs1_of(inst) as int].wrapping_add(imm_s(inst));
        let size = if f3 == 0 {
            8u64
        } else if f3 == 1 {
            16u64
        } else if f3 == 2 {
            32u64
        } else {
            64u64
        };
        let value = s.regs[rs2_of(inst) as int];
        let s2 = CpuView { bus: bus_store_post(s.bus, addr, size, value), ..s };
        match bus_store_res(s.bus, addr, size) {
            Ok(_) => (s2, Ok(s.pc.wrapping_add(4))),
            Err(e) => (s2, Err(e)),
        }
    }
}

/// The OP group: register-register ALU operations, with the M-extension
/// multiply on funct7 = 1.
pub open spec fn step_op(s: CpuView, inst: u64) -> (CpuView, Result<u64, Exception>) {
    let f3 = funct3_of(inst);
    let f7 = funct7_of(inst);
    let x = s.regs[rs1_of(inst) as int];
    let y = s.regs[rs2_of(inst) as int];
    let value: Result<u64, Exception> = if f3 == 0 && f7 == 0x00 {
        Ok(x.wrapping_add(y))
    } else if f3 == 0 && f7 == 0x01 {
        Ok(x.wrapping_mul(y))
    } else if f3 == 0 && f7 == 0x20 {
        Ok(x.wrapping_sub(y))
    } else if f3 == 1 && f7 == 0x00 {
        Ok(sll64(x, y))
    } else if f3 == 2 && f7 == 0x00 {
        Ok(if spec_signed_lt(x, y) { 1 } else { 0 })
    } else if f3 == 3 && f7 == 0x00 {
        Ok(if x < y { 1 } else { 0 })
    } else if f3 == 4 && f7 == 0x00 {
        Ok(x ^ y)
    } else if f3 == 5 && f7 == 0x00 {
        Ok(srl64(x, y))
    } else if f3 == 5 && f7 == 0x20 {
        Ok(sra64(x, y))
    } else if f3 == 6 && f7 == 0x00 {
        Ok(x | y)
    } else if f3 == 7 && f7 == 0x00 {
        Ok(x & y)
    } else {
        Err(illegal(inst))
    };
    match value {
        Ok(v) => (
            CpuView { regs: upd_reg(s.regs, rd_of(inst), v), ..s },
            Ok(s.pc.wrapping_add(4)),
        ),
        Err(e) => (s, Err(e)),
    }
}

/// The OP-32 group: 32-bit register-register operations, results
/// sign-extended, shift amounts from the low five bits of `rs2`.
pub open spec fn step_op32(s: CpuView, inst: u64) -> (CpuView, Result<u64, Exception>) {
    let f3 = funct3_of(inst);
    let f7 = funct7_of(inst);
    let x = s.regs[rs1_of(inst) as int];
    let y = s.regs[rs2_of(inst) as int];
    let value: Result<u64, Exception> = if f3 == 0 && f7 == 0x00 {
        Ok(sext32(x.wrapping_add(y)))
    } else if f3 == 0 && f7 == 0x20 {
        Ok(sext32(x.wrapping_sub(y)))
    } else if f3 == 1 && f7 == 0x00 {
        Ok(sllw(x, y))
    } else if f3 == 5 && f7 == 0x00 {
        Ok(srlw(x, y))
    } else if f3 == 5 && f7 == 0x20 {
        Ok(sraw(x, y))
    } else {
        Err(illegal(inst))
    };
    match value {
        Ok(v) => (
            CpuView { regs: upd_reg(s.regs, rd_of(inst), v), ..s },
            Ok(s.pc.wrapping_add(4)),
        ),
        Err(e) => (s, Err(e)),
    }
}

/// Whether the branch comparison funct3 selects holds for `x` and `y`.
pub open spec fn branch_taken(f3: u64, x: u64, y: u64) -> bool {
    if f3 == 0 {
        x == y
    } else if f3 == 1 {
        x != y
    } else if f3 == 4 {
        spec_signed_lt(x, y)
    } else if f3 == 5 {
        !spec_signed_lt(x, y)
    } else if f3 == 6 {
        x < y
    } else {
        x >= y
    }
}

/// The BRANCH group: a taken branch jumps to `pc + imm`, an untaken branch
/// falls through to `pc + 4`; funct3 values 2 and 3 are undefined.
pub open spec fn step_branch(s: CpuView, inst: u64) -> (CpuView, Result<u64, Exception>) {
    let f3 = funct3_of(inst);
    if f3 == 2 || f3 == 3 {
        (s, Err(illegal(inst)))
    } else {
        let x = s.regs[rs1_of(inst) as int];
        let y = s.regs[rs2_of(inst) as int];
        if branch_taken(f3, x, y) {
            (s, Ok(s.pc.wrapping_add(imm_b(inst))))
        } else {
            (s, Ok(s.pc.wrapping_add(4)))
        }
    }
}

/// JALR: link `pc + 4` into `rd` and jump to `rs1 + imm` with the low bit
/// cleared.
pub open spec fn step_jalr(s: CpuView, inst: u64) -> (CpuView, Result<u64, Exception>) {
    let t = s.pc.wrapping_add(4);
    let target = s.regs[rs1_of(inst) as int].wrapping_add(imm_i(inst)) & !1u64;
    (CpuView { regs: upd_reg(s.regs, rd_of(inst), t), ..s }, Ok(target))
}

/// JAL: link `pc + 4` into `rd` and jump to `pc + imm`.
pub open spec fn step_jal(s: CpuView, inst: u64) -> (CpuView, Result<u64, Exception>) {
    (
        CpuView { regs: upd_reg(s.regs, rd_of(inst), s.pc.wrapping_add(4)), ..s },
        Ok(s.pc.wrapping_add(imm_j(inst))),
    )
}

/// SRET: restore the mode from `SPP`, the supervisor interrupt enable from
/// `SPIE`, set `SPIE`, clear `SPP`, and return to `sepc` with the low two
/// bits cleared.
pub open spec fn step_sret(s: CpuView) -> (CpuView, Result<u64, Exception>) {
    let sstatus = csr_read(s.csrs, SSTATUS as int);
    let new_mode = mode_of_bits((sstatus & MASK_SPP) >> 8);
    let spie = (sstatus & MASK_SPIE) >> 5;
    let st1 = (sstatus & !MASK_SIE) | (spie << 1);
    let st2 = st1 | MASK_SPIE;
    let st3 = st2 & !MASK_SPP;
    let c2 = csr_write(s.csrs, SSTATUS as int, st3);
    let new_pc = csr_read(c2, SEPC as int) & !0b11u64;
    (CpuView { mode: new_mode, csrs: c2, ..s }, Ok(new_pc))
}

/// MRET: restore the mode from `MPP`, the machine interrupt enable from
/// `MPIE`, set `MPIE`, clear `MPP`, clear `MPRV` unless returning to
/// machine mode, and return to `mepc` with the low two bits cleared.
pub open spec fn step_mret(s: CpuView) -> (CpuView, Result<u64, Exception>) {
    let mstatus = csr_read(s.csrs, MSTATUS as int);
    let new_mode = mode_of_bits((mstatus & MASK_MPP) >> 11);
    let mpie = (mstatus & MASK_MPIE) >> 7;
    let st1 = (mstatus & !MASK_MIE) | (mpie << 3);
    let st2 = st1 | MASK_MPIE;
    let st3 = st2 & !MASK_MPP;
    let st4 = if new_mode != Mode::Machine {
        st3 & !MASK_MPRV
    } else {
        st3
    };
    let c2 = csr_write(s.csrs, MSTATUS as int, st4);
    let new_pc = csr_read(c2, MEPC as int) & !0b11u64;
    (CpuView { mode: new_mode, csrs: c2, ..s }, Ok(new_pc))
}

/// The environment call the current mode raises.
pub open spec fn ecall_exception(m: Mode) -> Exception {
    match m {
        Mode::User => Exception::EnvironmentCallFromUMode,
        Mode::Supervisor => Exception::EnvironmentCallFromSMode,
        Mode::Machine => Exception::EnvironmentCallFromMMode,
    }
}

/// The SYSTEM group: ECALL, EBREAK, SRET, MRET, SFENCE.VMA (a no-op), and the
/// six Zicsr register operations. For `csrrs`/`csrrc` (and their immediate
/// forms) a zero source suppresses the write, leaving write-any-read-legal
/// bits untouched.
pub open spec fn step_system(s: CpuView, inst: u64) -> (CpuView, Result<u64, Exception>) {
    let f3 = funct3_of(inst);
    let f7 = funct7_of(inst);
    let rs2 = rs2_of(inst);
    let rs1 = rs1_of(inst);
    let addr = csr_of(inst) as int;
    let x = s.regs[rs1 as int];
    let t = csr_read(s.csrs, addr);
    if f3 == 0 {
        if rs2 == 0 && f7 == 0 {
            (s, Err(ecall_exception(s.mode)))
        } else if rs2 == 1 && f7 == 0 {
            (s, Err(Exception::Breakpoint))
        } else if rs2 == 2 && f7 == 0x08 {
            step_sret(s)
        } else if rs2 == 2 && f7 == 0x18 {
            step_mret(s)
        } else if f7 == 0x09 {
            // sfence.vma: a no-op while no translation caching exists.
            (s, Ok(s.pc.wrapping_add(4)))
        } else {
            (s, Err(illegal(inst)))
        }
    } else if f3 == 1 {
        // csrrw
        let s2 = CpuView { csrs: csr_write(s.csrs, addr, x), ..s };
        (CpuView { regs: upd_reg(s2.regs, rd_of(inst), t), ..s2 }, Ok(s.pc.wrapping_add(4)))
    } else if f3 == 2 {
        // csrrs
        let s2 = if rs1 == 0 {
            s
        } else {
            CpuView { csrs: csr_write(s.csrs, addr, t | x), ..s }
        };
        (CpuView { regs: upd_reg(s2.regs, rd_of(inst), t), ..s2 }, Ok(s.pc.wrapping_add(4)))
    } else if f3 == 3 {
        // csrrc
        let s2 = if rs1 == 0 {
            s
        } else {
            CpuView { csrs: csr_write(s.csrs, addr, t & !x), ..s }
        };
        (CpuView { regs: upd_reg(s2.regs, rd_of(inst), t), ..s2 }, Ok(s.pc.wrapping_add(4)))
    } else if f3 == 5 {
        // csrrwi
        let s2 = CpuView { csrs: csr_write(s.csrs, addr, rs1), ..s };
        (CpuView { regs: upd_reg(s2.regs, rd_of(inst), t), ..s2 }, Ok(s.pc.wrapping_add(4)))
    } else if f3 == 6 {
        // csrrsi
        let s2 = if rs1 == 0 {
            s
        } else {
            CpuView { csrs: csr_write(s.csrs, addr, t | rs1), ..s }
        };
        (CpuView { regs: upd_reg(s2.regs, rd_of(inst), t), ..s2 }, Ok(s.pc.wrapping_add(4)))
    } else if f3 == 7 {
        // csrrci
        let s2 = if rs1 == 0 {
            s
        } else {
            CpuView { csrs: csr_write(s.csrs, addr, t & !rs1), ..s }
        };
        (CpuView { regs: upd_reg(s2.regs, rd_of(inst), t), ..s2 }, Ok(s.pc.wrapping_add(4)))
    } else {
        (s, Err(illegal(inst)))
    }
}

/// One instruction of the ISA: `x0` is cleared, then the opcode group's rule
/// applies. The returned value is the next pc on success, or the exception
/// the instruction raised; the state is the hart after the instruction's
/// register, CSR, and bus effects (the pc itself is the run loop's to set).
pub open spec fn step(pre: CpuView, inst: u64) -> (CpuView, Result<u64, Exception>) {
    let s = CpuView { regs: pre.regs.update(0, 0), ..pre };
    let op = opcode_of(inst);
    if op == 0x03 {
        step_load(s, inst)
    } else if op == 0x13 {
        step_op_imm(s, inst)
    } else if op == 0x17 {
        (
            CpuView { regs: upd_reg(s.regs, rd_of(inst), s.pc.wrapping_add(imm_u(inst))), ..s },
            Ok(s.pc.wrapping_add(4)),
        )
    } else if op == 0x1b {
        step_op_imm32(s, inst)
    } else if op == 0x23 {
        step_store(s, inst)
    } else if op == 0x33 {
        step_op(s, inst)
    } else if op == 0x37 {
        (
            CpuView { regs: upd_reg(s.regs, rd_of(inst), imm_u(inst)), ..s },
            Ok(s.pc.wrapping_add(4)),
        )
    } else if op == 0x3b {
        step_op32(s, inst)
    } else if op == 0x63 {
        step_branch(s, inst)
    } else if op == 0x67 {
        step_jalr(s, inst)
    } else if op == 0x6f {
        step_jal(s, inst)
    } else if op == 0x73 {
        step_system(s, inst)
    } else {
        (s, Err(illegal(inst)))
    }
}

impl Cpu {
    /// Execute one decoded instruction word: exactly the transition `step`
    /// describes. Returns the next pc, or the exception raised; `x0` reads
    /// as zero afterwards whatever the instruction wrote.
    pub fn execute(&mut self, inst: u64) -> (r: Result<u64, Exception>)
        requires
            old(self).wf(),
        ensures
            final(self).wf(),
            final(self)@ == step(old(self)@, inst).0,
            r == step(old(self)@, inst).1,
            final(self)@.regs[0] == 0,
            final(self)@.regs.len() == 32,
    {
        let opcode = inst & 0x7f;
        // x0 is hardwired to zero.
        self.clear_x0();
        proof {
            lemma_step_x0(old(self)@, inst);
        }
        if opcode == 0x03 {
            self.exec_load(inst)
        } else if opcode == 0x13 {
            self.exec_op_imm(inst)
        } else if opcode == 0x17 {
            self.exec_auipc(inst)
        } else if opcode == 0x1b {
            self.exec_op_imm32(inst)
        } else if opcode == 0x23 {
            self.exec_store(inst)
        } else if opcode == 0x33 {
            self.exec_op(inst)
        } else if opcode == 0x37 {
            self.exec_lui(inst)
        } else if opcode == 0x3b {
            self.exec_op32(inst)
        } else if opcode == 0x63 {
            self.exec_branch(inst)
        } else if opcode == 0x67 {
            self.exec_jalr(inst)
        } else if opcode == 0x6f {
            self.exec_jal(inst)
        } else if opcode == 0x73 {
            self.exec_system(inst)
        } else {
            Err(make_illegal(inst))
        }
    }

    /// The LOAD group.
    fn exec_load(&mut self, inst: u64) -> (r: Result<u64, Exception>)
        requires
            old(self).wf(),
            opcode_of(inst) == 0x03,
        ensures
            final(self).wf(),
            final(self)@ == step_load(old(self)@, inst).0,
            r == step_load(old(self)@, inst).1,
    {
        proof {
            lemma_mask_bound(inst >> 7, 0x1f);
            lemma_mask_bound(inst >> 15, 0x1f);
        }
        let rd = (inst >> 7) & 0x1f;
        let rs1 = (inst >> 15) & 0x1f;
        let f3 = (inst >> 12) & 0x7;
        if f3 == 7 {
            return Err(make_illegal(inst));
        }
        let x = self.read_reg(rs1 as usize);
        let addr = x.wrapping_add(decode_imm_i(inst));
        let size: u64 = if f3 == 0 || f3 == 4 {
            8
        } else if f3 == 1 || f3 == 5 {
            16
        } else if f3 == 2 || f3 == 6 {
            32
        } else {
            64
        };
        let v = match self.load(addr, size) {
            Ok(v) => v,
            Err(e) => {
                return Err(e);
            },
        };
        let value = if f3 == 0 {
            sign_extend_8(v)
        } else if f3 == 1 {
            sign_extend_16(v)
        } else if f3 == 2 {
            sign_extend_32(v)
        } else {
            v
        };
        self.write_reg(rd, value);
        Ok(self.get_pc().wrapping_add(4))
    }

    /// AUIPC: `rd` takes `pc` plus the U-type immediate.
    fn exec_auipc(&mut self, inst: u64) -> (r: Result<u64, Exception>)
        requires
            old(self).wf(),
            opcode_of(inst) == 0x17,
        ensures
            final(self).wf(),
            final(self)@ == (CpuView {
                regs: upd_reg(
                    old(self)@.regs,
                    rd_of(inst),
                    old(self)@.pc.wrapping_add(imm_u(inst)),
                ),
                ..old(self)@
            }),
            r == Ok::<u64, Exception>(old(self)@.pc.wrapping_add(4)),
    {
        proof {
            lemma_mask_bound(inst >> 7, 0x1f);
        }
        let rd = (inst >> 7) & 0x1f;
        let pc = self.get_pc();
        self.write_reg(rd, pc.wrapping_add(decode_imm_u(inst)));
        Ok(pc.wrapping_add(4))
    }

    /// LUI: `rd` takes the U-type immediate.
    fn exec_lui(&mut self, inst: u64) -> (r: Result<u64, Exception>)
        requires
            old(self).wf(),
            opcode_of(inst) == 0x37,
        ensures
            final(self).wf(),
            final(self)@ == (CpuView {
                regs: upd_reg(old(self)@.regs, rd_of(inst), imm_u(inst)),
                ..old(self)@
            }),
            r == Ok::<u64, Exception>(old(self)@.pc.wrapping_add(4)),
    {
        proof {
            lemma_mask_bound(inst >> 7, 0x1f);
        }
        let rd = (inst >> 7) & 0x1f;
        self.write_reg(rd, decode_imm_u(inst));
        Ok(self.get_pc().wrapping_add(4))
    }

    /// The OP-IMM group.
    fn exec_op_imm(&mut self, inst: u64) -> (r: Result<u64, Exception>)
        requires
            old(self).wf(),
            opcode_of(inst) == 0x13,
        ensures
            final(self).wf(),
            final(self)@ == step_op_imm(old(self)@, inst).0,
            r == step_op_imm(old(self)@, inst).1,
    {
        proof {
            lemma_mask_bound(inst >> 7, 0x1f);
            lemma_mask_bound(inst >> 15, 0x1f);
        }
        let rd = (inst >> 7) & 0x1f;
        let rs1 = (inst >> 15) & 0x1f;
        let f3 = (inst >> 12) & 0x7;
        let f7 = (inst >> 25) & 0x7f;
        let x = self.read_reg(rs1 as usize);
        let imm = decode_imm_i(inst);
        let v: u64 = if f3 == 0 {
            x.wrapping_add(imm)
        } else if f3 == 1 {
            shift_left_64(x, imm)
        } else if f3 == 2 {
            if signed_lt(x, imm) {
                1
            } else {
                0
            }
        } else if f3 == 3 {
            if x < imm {
                1
            } else {
                0
            }
        } else if f3 == 4 {
            x ^ imm
        } else if f3 == 5 {
            if f7 >> 1 == 0x00 {
                shift_right_64(x, imm)
            } else if f7 >> 1 == 0x10 {
                shift_right_arith_64(x, imm)
            } else {
                return Err(make_illegal(inst));
            }
        } else if f3 == 6 {
            x | imm
        } else {
            x & imm
        };
        self.write_reg(rd, v);
        Ok(self.get_pc().wrapping_add(4))
    }

    /// The OP-IMM-32 group.
    fn exec_op_imm32(&mut self, inst: u64) -> (r: Result<u64, Exception>)
        requires
            old(self).wf(),
            opcode_of(inst) == 0x1b,
        ensures
            final(self).wf(),
            final(self)@ == step_op_imm32(old(self)@, inst).0,
            r == step_op_imm32(old(self)@, inst).1,
    {
        proof {
            lemma_mask_bound(inst >> 7, 0x1f);
            lemma_mask_bound(inst >> 15, 0x1f);
        }
        let rd = (inst >> 7) & 0x1f;
        let rs1 = (inst >> 15) & 0x1f;
        let f3 = (inst >> 12) & 0x7;
        let f7 = (inst >> 25) & 0x7f;
        let x = self.read_reg(rs1 as usize);
        let imm = decode_imm_i(inst);
        let v: u64 = if f3 == 0 {
            sign_extend_32(x.wrapping_add(imm))
        } else if f3 == 1 && f7 == 0x00 {
            shift_left_32(x, imm)
        } else if f3 == 5 && f7 == 0x00 {
            shift_right_32(x, imm)
        } else if f3 == 5 && f7 == 0x20 {
            shift_right_arith_32(x, imm)
        } else {
            return Err(make_illegal(inst));
        };
        self.write_reg(rd, v);
        Ok(self.get_pc().wrapping_add(4))
    }

    /// The STORE group.
    fn exec_store(&mut self, inst: u64) -> (r: Result<u64, Exception>)
        requires
            old(self).wf(),
            opcode_of(inst) == 0x23,
        ensures
            final(self).wf(),
            final(self)@ == step_store(old(self)@, inst).0,
            r == step_store(old(self)@, inst).1,
    {
        proof {
            lemma_mask_bound(inst >> 15, 0x1f);
            lemma_mask_bound(inst >> 20, 0x1f);
        }
        let rs1 = (inst >> 15) & 0x1f;
        let rs2 = (inst >> 20) & 0x1f;
        let f3 = (inst >> 12) & 0x7;
        if f3 >= 4 {
            return Err(make_illegal(inst));
        }
        let x = self.read_reg(rs1 as usize);
        let addr = x.wrapping_add(decode_imm_s(inst));
        let size: u64 = if f3 == 0 {
            8
        } else if f3 == 1 {
            16
        } else if f3 == 2 {
            32
        } else {
            64
        };
        let value = self.read_reg(rs2 as usize);
        match self.store(addr, size, value) {
            Ok(_) => Ok(self.get_pc().wrapping_add(4)),
            Err(e) => Err(e),
        }
    }

    /// The OP group.
    fn exec_op(&mut self, inst: u64) -> (r: Result<u64, Exception>)
        requires
            old(self).wf(),
            opcode_of(inst) == 0x33,
        ensures
            final(self).wf(),
            final(self)@ == step_op(old(self)@, inst).0,
            r == step_op(old(self)@, inst).1,
    {
        proof {
            lemma_mask_bound(inst >> 7, 0x1f);
            lemma_mask_bound(inst >> 15, 0x1f);
            lemma_mask_bound(inst >> 20, 0x1f);
        }
        let rd = (inst >> 7) & 0x1f;
        let rs1 = (inst >> 15) & 0x1f;
        let rs2 = (inst >> 20) & 0x1f;
        let f3 = (inst >> 12) & 0x7;
        let f7 = (inst >> 25) & 0x7f;
        let x = self.read_reg(rs1 as usize);
        let y = self.read_reg(rs2 as usize);
        let v: u64 = if f3 == 0 && f7 == 0x00 {
            x.wrapping_add(y)
        } else if f3 == 0 && f7 == 0x01 {
            x.wrapping_mul(y)
        } else if f3 == 0 && f7 == 0x20 {
            x.wrapping_sub(y)
        } else if f3 == 1 && f7 == 0x00 {
            shift_left_64(x, y)
        } else if f3 == 2 && f7 == 0x00 {
            if signed_lt(x, y) {
                1
            } else {
                0
            }
        } else if f3 == 3 && f7 == 0x00 {
            if x < y {
                1
            } else {
                0
            }
        } else if f3 == 4 && f7 == 0x00 {
            x ^ y
        } else if f3 == 5 && f7 == 0x00 {
            shift_right_64(x, y)
        } else if f3 == 5 && f7 == 0x20 {
            shift_right_arith_64(x, y)
        } else if f3 == 6 && f7 == 0x00 {
            x | y
        } else if f3 == 7 && f7 == 0x00 {
            x & y
        } else {
            return Err(make_illegal(inst));
        };
        self.write_reg(rd, v);
        Ok(self.get_pc().wrapping_add(4))
    }

    /// The OP-32 group.
    fn exec_op32(&mut self, inst: u64) -> (r: Result<u64, Exception>)
        requires
            old(self).wf(),
            opcode_of(inst) == 0x3b,
        ensures
            final(self).wf(),
            final(self)@ == step_op32(old(self)@, inst).0,
            r == step_op32(old(self)@, inst).1,
    {
        proof {
            lemma_mask_bound(inst >> 7, 0x1f);
            lemma_mask_bound(inst >> 15, 0x1f);
            lemma_mask_bound(inst >> 20, 0x1f);
        }
        let rd = (inst >> 7) & 0x1f;
        let rs1 = (inst >> 15) & 0x1f;
        let rs2 = (inst >> 20) & 0x1f;
        let f3 = (inst >> 12) & 0x7;
        let f7 = (inst >> 25) & 0x7f;
        let x = self.read_reg(rs1 as usize);
        let y = self.read_reg(rs2 as usize);
        let v: u64 = if f3 == 0 && f7 == 0x00 {
            sign_extend_32(x.wrapping_add(y))
        } else if f3 == 0 && f7 == 0x20 {
            sign_extend_32(x.wrapping_sub(y))
        } else if f3 == 1 && f7 == 0x00 {
            shift_left_32(x, y)
        } else if f3 == 5 && f7 == 0x00 {
            shift_right_32(x, y)
        } else if f3 == 5 && f7 == 0x20 {
            shift_right_arith_32(x, y)
        } else {
            return Err(make_illegal(inst));
        };
        self.write_reg(rd, v);
        Ok(self.get_pc().wrapping_add(4))
    }

    /// The BRANCH group.
    fn exec_branch(&mut self, inst: u64) -> (r: Result<u64, Exception>)
        requires
            old(self).wf(),
            opcode_of(inst) == 0x63,
        ensures
            final(self).wf(),
            final(self)@ == step_branch(old(self)@, inst).0,
            r == step_branch(old(self)@, inst).1,
    {
        proof {
            lemma_mask_bound(inst >> 15, 0x1f);
            lemma_mask_bound(inst >> 20, 0x1f);
        }
        let rs1 = (inst >> 15) & 0x1f;
        let rs2 = (inst >> 20) & 0x1f;
        let f3 = (inst >> 12) & 0x7;
        if f3 == 2 || f3 == 3 {
            return Err(make_illegal(inst));
        }
        let x = self.read_reg(rs1 as usize);
        let y = self.read_reg(rs2 as usize);
        let taken = if f3 == 0 {
            x == y
        } else if f3 == 1 {
            x != y
        } else if f3 == 4 {
            signed_lt(x, y)
        } else if f3 == 5 {
            !signed_lt(x, y)
        } else if f3 == 6 {
            x < y
        } else {
            x >= y
        };
        if taken {
            Ok(self.get_pc().wrapping_add(decode_imm_b(inst)))
        } else {
            Ok(self.get_pc().wrapping_add(4))
        }
    }

    /// JALR.
    fn exec_jalr(&mut self, inst: u64) -> (r: Result<u64, Exception>)
        requires
            old(self).wf(),
            opcode_of(inst) == 0x67,
        ensures
            final(self).wf(),
            final(self)@ == step_jalr(old(self)@, inst).0,
            r == step_jalr(old(self)@, inst).1,
    {
        proof {
            lemma_mask_bound(inst >> 7, 0x1f);
            lemma_mask_bound(inst >> 15, 0x1f);
        }
        let rd = (inst >> 7) & 0x1f;
        let rs1 = (inst >> 15) & 0x1f;
        let t = self.get_pc().wrapping_add(4);
        let x = self.read_reg(rs1 as usize);
        let target = x.wrapping_add(decode_imm_i(inst)) & !1u64;
        self.write_reg(rd, t);
        Ok(target)
    }

    /// JAL.
    fn exec_jal(&mut self, inst: u64) -> (r: Result<u64, Exception>)
        requires
            old(self).wf(),
            opcode_of(inst) == 0x6f,
        ensures
            final(self).wf(),
            final(self)@ == step_jal(old(self)@, inst).0,
            r == step_jal(old(self)@, inst).1,
    {
        proof {
            lemma_mask_bound(inst >> 7, 0x1f);
        }
        let rd = (inst >> 7) & 0x1f;
        let pc = self.get_pc();
        self.write_reg(rd, pc.wrapping_add(4));
        Ok(pc.wrapping_add(decode_imm_j(inst)))
    }

    /// The SYSTEM group.
    fn exec_system(&mut self, inst: u64) -> (r: Result<u64, Exception>)
        requires
            old(self).wf(),
            opcode_of(inst) == 0x73,
        ensures
            final(self).wf(),
            final(self)@ == step_system(old(self)@, inst).0,
            r == step_system(old(self)@, inst).1,
    {
        proof {
            lemma_mask_bound(inst >> 7, 0x1f);
            lemma_mask_bound(inst >> 15, 0x1f);
            lemma_mask_bound(inst >> 20, 0x1f);
            lemma_mask_bound(inst >> 20, 0xfff);
            lemma_mask_bound(inst >> 12, 0x7);
        }
        let rd = (inst >> 7) & 0x1f;
        let rs1 = (inst >> 15) & 0x1f;
        let rs2 = (inst >> 20) & 0x1f;
        let f3 = (inst >> 12) & 0x7;
        let f7 = (inst >> 25) & 0x7f;
        let csr_addr = ((inst >> 20) & 0xfff) as usize;
        if f3 == 0 {
            if rs2 == 0 && f7 == 0 {
                // ecall
                return Err(
                    match self.get_mode() {
                        Mode::User => Exception::EnvironmentCallFromUMode,
                        Mode::Supervisor => Exception::EnvironmentCallFromSMode,
                        Mode::Machine => Exception::EnvironmentCallFromMMode,
                    },
                );
            } else if rs2 == 1 && f7 == 0 {
                // ebreak
                return Err(Exception::Breakpoint);
            } else if rs2 == 2 && f7 == 0x08 {
                // sret
                let sstatus = self.load_csr(SSTATUS);
                let spp = (sstatus & MASK_SPP) >> 8;
                let new_mode = if spp == 3 {
                    Mode::Machine
                } else if spp == 1 {
                    Mode::Supervisor
                } else {
                    Mode::User
                };
                self.set_mode(new_mode);
                let spie = (sstatus & MASK_SPIE) >> 5;
                let mut st = (sstatus & !MASK_SIE) | (spie << 1);
                st = st | MASK_SPIE;
                st = st & !MASK_SPP;
                self.store_csr(SSTATUS, st);
                let new_pc = self.load_csr(SEPC) & !0b11u64;
                return Ok(new_pc);
            } else if rs2 == 2 && f7 == 0x18 {
                // mret
                let mstatus = self.load_csr(MSTATUS);
                let mpp = (mstatus & MASK_MPP) >> 11;
                let new_mode = if mpp == 3 {
                    Mode::Machine
                } else if mpp == 1 {
                    Mode::Supervisor
                } else {
                    Mode::User
                };
                self.set_mode(new_mode);
                let mpie = (mstatus & MASK_MPIE) >> 7;
                let mut st = (mstatus & !MASK_MIE) | (mpie << 3);
                st = st | MASK_MPIE;
                st = st & !MASK_MPP;
                if new_mode != Mode::Machine {
                    st = st & !MASK_MPRV;
                }
                self.store_csr(MSTATUS, st);
                let new_pc = self.load_csr(MEPC) & !0b11u64;
                return Ok(new_pc);
            } else if f7 == 0x09 {
                // sfence.vma: a no-op while no translation caching exists.
                return Ok(self.get_pc().wrapping_add(4));
            } else {
                return Err(make_illegal(inst));
            }
        }
        if f3 == 4 {
            return Err(make_illegal(inst));
        }
        let x = self.read_reg(rs1 as usize);
        let t = self.load_csr(csr_addr);
        if f3 == 1 {
            // csrrw
            self.store_csr(csr_addr, x);
        } else if f3 == 2 {
            // csrrs: a zero source suppresses the write
            if rs1 != 0 {
                self.store_csr(csr_addr, t | x);
            }
        } else if f3 == 3 {
            // csrrc
            if rs1 != 0 {
                self.store_csr(csr_addr, t & !x);
            }
        } else if f3 == 5 {
            // csrrwi
            self.store_csr(csr_addr, rs1);
        } else if f3 == 6 {
            // csrrsi
            if rs1 != 0 {
                self.store_csr(csr_addr, t | rs1);
            }
        } else {
            // csrrci
            if rs1 != 0 {
                self.store_csr(csr_addr, t & !rs1);
            }
        }
        self.write_reg(rd, t);
        proof {
            assert(self@ =~= step_system(old(self)@, inst).0);
        }
        Ok(self.get_pc().wrapping_add(4))
    }
}

/// The x0 invariance law: whatever the instruction and operands, `x0` is
/// zero after the step, and the register file keeps its 32 entries.
pub proof fn lemma_step_x0(pre: CpuView, inst: u64)
    requires
        pre.regs.len() == 32,
    ensures
        step(pre, inst).0.regs[0] == 0,
        step(pre, inst).0.regs.len() == 32,
{
    lemma_mask_bound(inst >> 7, 0x1f);
    lemma_mask_bound(inst >> 12, 0x7);
    let s = CpuView { regs: pre.regs.update(0, 0), ..pre };
    assert(s.regs[0] == 0 && s.regs.len() == 32);
    let (post, r) = step(pre, inst);
    let op = opcode_of(inst);
    if op == 0x03 {
        assert(post.regs[0] == 0 && post.regs.len() == 32);
    } else if op == 0x13 {
        assert(post.regs[0] == 0 && post.regs.len() == 32);
    } else if op == 0x17 {
        assert(post.regs[0] == 0 && post.regs.len() == 32);
    } else if op == 0x1b {
        assert(post.regs[0] == 0 && post.regs.len() == 32);
    } else if op == 0x23 {
        assert(post.regs[0] == 0 && post.regs.len() == 32);
    } else if op == 0x33 {
        assert(post.regs[0] == 0 && post.regs.len() == 32);
    } else if op == 0x37 {
        assert(post.regs[0] == 0 && post.regs.len() == 32);
    } else if op == 0x3b {
        assert(post.regs[0] == 0 && post.regs.len() == 32);
    } else if op == 0x63 {
        assert(post.regs[0] == 0 && post.regs.len() == 32);
    } else if op == 0x67 {
        assert(post.regs[0] == 0 && post.regs.len() == 32);
    } else if op == 0x6f {
        assert(post.regs[0] == 0 && post.regs.len() == 32);
    } else if op == 0x73 {
        assert(post.regs[0] == 0 && post.regs.len() == 32);
    } else {
        assert(post.regs[0] == 0 && post.regs.len() == 32);
    }
}


/// Sign-extension law for the W-group: every 32-bit register-register
/// operation (addw, subw, sllw, srlw, sraw) writes the 32-bit result
/// sign-extended to 64 bits, so the destination register equals its own low
/// 32 bits sign-extended.
pub proof fn lemma_wop_sign_extended(pre: CpuView, inst: u64)
    requires
        pre.regs.len() == 32,
        opcode_of(inst) == 0x3b,
        step(pre, inst).1 is Ok,
    ensures
        ({
            let regs = step(pre, inst).0.regs;
            regs[rd_of(inst) as int] == sext32(regs[rd_of(inst) as int])
        }),
{
    lemma_mask_bound(inst >> 7, 0x1f);
    assert(forall|z: u64| #[trigger] sext32(sext32(z)) == sext32(z)) by (bit_vector);
    assert(sext32(0) == 0) by (bit_vector);
}

/// Branch semantics: a taken branch jumps to `pc + imm` and an untaken one
/// falls through to `pc + 4`; no register changes; the comparison is the one
/// funct3 names — equality for beq/bne, signed order for blt/bge, unsigned
/// order for bltu/bgeu.
pub proof fn lemma_branch_semantics(pre: CpuView, inst: u64)
    requires
        pre.regs.len() == 32,
        opcode_of(inst) == 0x63,
        funct3_of(inst) != 2 && funct3_of(inst) != 3,
    ensures
        ({
            let s = CpuView { regs: pre.regs.update(0, 0), ..pre };
            let x = s.regs[rs1_of(inst) as int];
            let y = s.regs[rs2_of(inst) as int];
            let f3 = funct3_of(inst);
            step(pre, inst).0 == s && (branch_taken(f3, x, y) ==> step(pre, inst).1
                == Ok::<u64, Exception>(pre.pc.wrapping_add(imm_b(inst)))) && (!branch_taken(
                f3,
                x,
                y,
            ) ==> step(pre, inst).1 == Ok::<u64, Exception>(pre.pc.wrapping_add(4))) && (f3 == 0
                ==> branch_taken(f3, x, y) == (x == y)) && (f3 == 1 ==> branch_taken(f3, x, y) == (x
                != y)) && (f3 == 4 ==> branch_taken(f3, x, y) == spec_signed_lt(x, y)) && (f3 == 5
                ==> branch_taken(f3, x, y) == !spec_signed_lt(x, y)) && (f3 == 6 ==> branch_taken(
                f3,
                x,
                y,
            ) == (x < y)) && (f3 == 7 ==> branch_taken(f3, x, y) == (x >= y))
        }),
{
    lemma_mask_bound(inst >> 12, 0x7);
}

/// Shift-amount masking at the instruction level: two executions of the
/// same register-register shift (sll/srl/sra, or sllw/srlw/sraw) that agree
/// on the first source register and whose second source registers agree on
/// the low six (64-bit) resp. five (32-bit) bits write the same value to the
/// destination. Stated for distinct source registers: with rs1 equal to rs2
/// the shift amount is also the value being shifted, so agreement on the low
/// bits alone fixes nothing.
pub proof fn lemma_shift_rs2_masked(pre_a: CpuView, pre_b: CpuView, inst: u64)
    requires
        pre_a.regs.len() == 32,
        pre_b.regs.len() == 32,
        rs1_of(inst) != rs2_of(inst),
        pre_a.regs[rs1_of(inst) as int] == pre_b.regs[rs1_of(inst) as int],
        opcode_of(inst) == 0x33 || opcode_of(inst) == 0x3b,
        (funct3_of(inst) == 1 && funct7_of(inst) == 0x00) || (funct3_of(inst) == 5 && (funct7_of(
            inst,
        ) == 0x00 || funct7_of(inst) == 0x20)),
        opcode_of(inst) == 0x33 ==> pre_a.regs[rs2_of(inst) as int] % 64 == pre_b.regs[rs2_of(
            inst,
        ) as int] % 64,
        opcode_of(inst) == 0x3b ==> pre_a.regs[rs2_of(inst) as int] % 32 == pre_b.regs[rs2_of(
            inst,
        ) as int] % 32,
    ensures
        step(pre_a, inst).0.regs[rd_of(inst) as int] == step(pre_b, inst).0.regs[rd_of(
            inst,
        ) as int],
{
    lemma_mask_bound(inst >> 7, 0x1f);
    lemma_mask_bound(inst >> 15, 0x1f);
    lemma_mask_bound(inst >> 20, 0x1f);
    let sa = CpuView { regs: pre_a.regs.update(0, 0), ..pre_a };
    let sb = CpuView { regs: pre_b.regs.update(0, 0), ..pre_b };
    let x = sa.regs[rs1_of(inst) as int];
    let amt_a = sa.regs[rs2_of(inst) as int];
    let amt_b = sb.regs[rs2_of(inst) as int];
    if rs2_of(inst) == 0 {
        // both shift amounts read as zero after the x0 clear
        assert(amt_a == 0 && amt_b == 0);
    } else if opcode_of(inst) == 0x33 {
        crate::alu::lemma_shift_amount_masked_64(x, amt_a, amt_b);
    } else {
        crate::alu::lemma_shift_amount_masked_32(x, amt_a, amt_b);
    }
}

/// JALR lands on an even address: the low bit of the pc it returns is always
/// zero.
pub proof fn lemma_jalr_lsb_clear(pre: CpuView, inst: u64)
    requires
        pre.regs.len() == 32,
        opcode_of(inst) == 0x67,
    ensures
        step(pre, inst).1 is Ok,
        step(pre, inst).1 matches Ok(p) ==> p & 1 == 0,
{
    let s = CpuView { regs: pre.regs.update(0, 0), ..pre };
    let a = s.regs[rs1_of(inst) as int].wrapping_add(imm_i(inst));
    assert((a & !1u64) & 1 == 0) by (bit_vector);
}

/// Trap round trip: from U-mode with the `medeleg` bit for an environment
/// call from U-mode clear, `ecall` raises that call; delivering it traps to
/// M-mode with `mepc` holding the `ecall`'s pc and `MPP` holding U-mode;
/// after the handler advances `mepc` past the `ecall`, `mret` returns control
/// to the instruction after the `ecall` with the previous mode restored.
pub proof fn lemma_ecall_mret_round_trip(pre: CpuView, inst: u64)
    requires
        pre.regs.len() == 32,
        pre.csrs.len() == 4096,
        pre.mode == Mode::User,
        (pre.csrs[MEDELEG as int] >> 8u64) & 1 != 1,
        opcode_of(inst) == 0x73,
        funct3_of(inst) == 0,
        rs2_of(inst) == 0,
        funct7_of(inst) == 0,
        pre.pc % 4 == 0,
        pre.pc + 4 < 0x1_0000_0000_0000_0000,
    ensures
        ({
            let (s1, r1) = step(pre, inst);
            let s2 = trap_post(s1, 8, 0);
            let s3 = CpuView { csrs: csr_write(s2.csrs, MEPC as int, (pre.pc + 4) as u64), ..s2 };
            let (s4, r4) = step_mret(s3);
            r1 == Err::<u64, Exception>(Exception::EnvironmentCallFromUMode) && s2.mode
                == Mode::Machine && csr_read(s2.csrs, MEPC as int) == pre.pc && r4 == Ok::<
                u64,
                Exception,
            >((pre.pc + 4) as u64) && s4.mode == Mode::User
        }),
{
    assert(8u64 & (1u64 << 63) == 0 && 8u64 & !(1u64 << 63) == 8) by (bit_vector);
    let (s1, r1) = step(pre, inst);
    let s2 = trap_post(s1, 8, 0);
    // MPP was set to U-mode (zero) by the trap, and survives the handler's
    // write to mepc.
    let status = csr_read(
        csr_write(
            csr_write(csr_write(s1.csrs, MEPC as int, s1.pc), 0x342, 8),
            0x343,
            0,
        ),
        MSTATUS as int,
    );
    let ie = (status & MASK_MIE) >> 3;
    let st1 = (status & !MASK_MPIE) | (ie << 7);
    let st2 = st1 & !MASK_MIE;
    let st3 = (st2 & !MASK_MPP) | (mode_bits(Mode::User) << 11);
    assert((st3 & MASK_MPP) >> 11 == 0) by (bit_vector)
        requires
            st3 == (st2 & !(3u64 << 11)) | (0u64 << 11),
    ;
    let npc = (pre.pc + 4) as u64;
    assert(npc & !0b11u64 == npc) by (bit_vector)
        requires
            npc % 4 == 0,
    ;
}

} // verus!
