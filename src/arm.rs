use vstd::prelude::*;
use crate::alu::{
    add_with_carry, add_with_carry_spec, barrel_shift_imm, barrel_shift_reg, rotr, shift_imm_spec,
    shift_reg_spec,
};
use crate::cpu::{ArmCpu, ExceptionKind, add32, cond_passed, pc_align};
use crate::registers::{
    FLAG_C, FLAG_N, FLAG_V, FLAG_Z, lemma_psr_with_flag, normalized_psr, phys_index, psr_with_flag,
    spsr_slot,
};
use crate::memory::{
    hw_status_kept, lemma_store16_keeps_status, lemma_store32_keeps_status, lemma_store8_keeps_status,
};
use crate::thumb::{
    ldm_wb_done, load_block, mem_stored, stm_wb_done, store_block, write_reg, written,
};
use crate::transfer::{
    lemma_stm_keeps_status, bits_below, count_list, in_list, in_list_exec, ldm_done, load_multiple, stm_mem, stm_values,
    store_multiple,
};

verus! {

/// Forms of ARM instruction, as decoded from bits 27..20 and 7..4.
#[derive(Clone, Copy, PartialEq, Eq, Structural, Debug)]
pub enum ArmClass {
    DataProcessing,
    PsrRead,
    PsrWrite,
    Multiply,
    MultiplyLong,
    SingleTransfer,
    HalfwordTransfer,
    BlockTransfer,
    Branch,
    BranchExchange,
    SoftwareInterrupt,
    Undefined,
}

/// The 12-bit decode index: bits 27..20 followed by bits 7..4.
pub open spec fn decode_index_spec(instr: u32) -> u32 {
    (((instr / 0x10_0000) % 256) * 16 + (instr / 16) % 16) as u32
}

pub fn arm_decode_index(instr: u32) -> (idx: u32)
    ensures
        idx == decode_index_spec(instr),
        idx < 4096,
{
    ((instr / 0x10_0000) % 256) * 16 + (instr / 16) % 16
}

/// The form of an instruction by its decode index.
pub open spec fn arm_class_spec(idx: u32) -> ArmClass {
    let hi = idx / 16;
    let lo = idx % 16;
    if hi < 0x20 {
        if lo == 9 {
            if hi < 4 {
                ArmClass::Multiply
            } else if 8 <= hi < 16 {
                ArmClass::MultiplyLong
            } else {
                ArmClass::Undefined
            }
        } else if lo == 0xb || lo == 0xd || lo == 0xf {
            ArmClass::HalfwordTransfer
        } else if hi == 0x12 && lo == 1 {
            ArmClass::BranchExchange
        } else if (hi == 0x10 || hi == 0x14) && lo == 0 {
            ArmClass::PsrRead
        } else if (hi == 0x12 || hi == 0x16) && lo == 0 {
            ArmClass::PsrWrite
        } else if hi == 0x10 || hi == 0x12 || hi == 0x14 || hi == 0x16 {
            ArmClass::Undefined
        } else if lo % 2 == 1 && lo >= 8 {
            ArmClass::Undefined
        } else {
            ArmClass::DataProcessing
        }
    } else if hi < 0x40 {
        if hi == 0x32 || hi == 0x36 {
            ArmClass::PsrWrite
        } else if hi == 0x30 || hi == 0x34 {
            ArmClass::Undefined
        } else {
            ArmClass::DataProcessing
        }
    } else if hi < 0x60 {
        ArmClass::SingleTransfer
    } else if hi < 0x80 {
        if lo % 2 == 1 { ArmClass::Undefined } else { ArmClass::SingleTransfer }
    } else if hi < 0xa0 {
        ArmClass::BlockTransfer
    } else if hi < 0xc0 {
        ArmClass::Branch
    } else if hi < 0xf0 {
        ArmClass::Undefined
    } else {
        ArmClass::SoftwareInterrupt
    }
}

pub fn arm_class_of(idx: u32) -> (c: ArmClass)
    ensures
        c == arm_class_spec(idx),
{
    let hi = idx / 16;
    let lo = idx % 16;
    if hi < 0x20 {
        if lo == 9 {
            if hi < 4 {
                ArmClass::Multiply
            } else if 8 <= hi && hi < 16 {
                ArmClass::MultiplyLong
            } else {
                ArmClass::Undefined
            }
        } else if lo == 0xb || lo == 0xd || lo == 0xf {
            ArmClass::HalfwordTransfer
        } else if hi == 0x12 && lo == 1 {
            ArmClass::BranchExchange
        } else if (hi == 0x10 || hi == 0x14) && lo == 0 {
            ArmClass::PsrRead
        } else if (hi == 0x12 || hi == 0x16) && lo == 0 {
            ArmClass::PsrWrite
        } else if hi == 0x10 || hi == 0x12 || hi == 0x14 || hi == 0x16 {
            ArmClass::Undefined
        } else if lo % 2 == 1 && lo >= 8 {
            ArmClass::Undefined
        } else {
            ArmClass::DataProcessing
        }
    } else if hi < 0x40 {
        if hi == 0x32 || hi == 0x36 {
            ArmClass::PsrWrite
        } else if hi == 0x30 || hi == 0x34 {
            ArmClass::Undefined
        } else {
            ArmClass::DataProcessing
        }
    } else if hi < 0x60 {
        ArmClass::SingleTransfer
    } else if hi < 0x80 {
        if lo % 2 == 1 { ArmClass::Undefined } else { ArmClass::SingleTransfer }
    } else if hi < 0xa0 {
        ArmClass::BlockTransfer
    } else if hi < 0xc0 {
        ArmClass::Branch
    } else if hi < 0xf0 {
        ArmClass::Undefined
    } else {
        ArmClass::SoftwareInterrupt
    }
}

/// Register field whose lowest bit is bit `lo` (one of 0, 8, 12, 16).
pub open spec fn reg_at(i: u32, lo: int) -> int {
    if lo == 0 {
        (i % 16) as int
    } else if lo == 8 {
        ((i / 0x100) % 16) as int
    } else if lo == 12 {
        ((i / 0x1000) % 16) as int
    } else {
        ((i / 0x1_0000) % 16) as int
    }
}

/// Bit `n` (one of those that instructions use as flags) of an instruction.
pub open spec fn ibit(i: u32, n: int) -> bool {
    (if n == 4 {
        i / 0x10
    } else if n == 5 {
        i / 0x20
    } else if n == 6 {
        i / 0x40
    } else if n == 16 {
        i / 0x1_0000
    } else if n == 19 {
        i / 0x8_0000
    } else if n == 20 {
        i / 0x10_0000
    } else if n == 21 {
        i / 0x20_0000
    } else if n == 22 {
        i / 0x40_0000
    } else if n == 23 {
        i / 0x80_0000
    } else if n == 24 {
        i / 0x100_0000
    } else {
        i / 0x200_0000
    }) % 2 == 1
}

/// Register `r` read by an instruction whose shift amount comes from a
/// register: r15 is then twelve bytes ahead.
pub open spec fn operand_late(s: ArmCpu, r: int) -> u32 {
    if r == 15 { add32(s.pc(), 12) } else { s.operand(r) }
}

/// Shifter operand and carry of a data-processing instruction.
pub open spec fn operand2_spec(s: ArmCpu, instr: u32) -> (u32, bool) {
    let c = s.flag(FLAG_C);
    if ibit(instr, 25) {
        let imm = instr % 256;
        let rot = (((instr / 256) % 16) * 2) as u32;
        if rot == 0 {
            (imm, c)
        } else {
            let v = rotr(imm, rot);
            (v, v >= 0x8000_0000)
        }
    } else if !ibit(instr, 4) {
        shift_imm_spec((instr / 32) % 4, s.operand(reg_at(instr, 0)), (instr / 128) % 32, c)
    } else {
        shift_reg_spec(
            (instr / 32) % 4,
            operand_late(s, reg_at(instr, 0)),
            s.operand(reg_at(instr, 8)) & 0xff,
            c,
        )
    }
}

fn operand2(cpu: &ArmCpu, instr: u32) -> (r: (u32, bool))
    requires
        cpu.wf(),
    ensures
        r == operand2_spec(*cpu, instr),
{
    let c = cpu.get_flag(FLAG_C);
    if (instr / 0x200_0000) % 2 == 1 {
        let imm = instr % 256;
        let rot = ((instr / 256) % 16) * 2;
        if rot == 0 {
            (imm, c)
        } else {
            let v = (imm >> rot) | (imm << (32 - rot));
            (v, v >= 0x8000_0000)
        }
    } else if (instr / 0x10) % 2 == 0 {
        let x = cpu.rget(instr % 16);
        barrel_shift_imm((instr / 32) % 4, x, (instr / 128) % 32, c)
    } else {
        let rm = instr % 16;
        let x = if rm == 15 { cpu.get_pc().wrapping_add(12) } else { cpu.rget(rm) };
        let amount = cpu.rget((instr / 256) % 16);
        barrel_shift_reg((instr / 32) % 4, x, amount, c)
    }
}

/// Value, carry and overflow of data-processing opcode `op` on `a` and the
/// shifter operand `b` with shifter carry `sc`.
pub open spec fn dp_result(op: u32, a: u32, b: u32, sc: bool, c: bool, v: bool) -> (u32, bool, bool) {
    if op == 0 || op == 8 {
        (a & b, sc, v)
    } else if op == 1 || op == 9 {
        (a ^ b, sc, v)
    } else if op == 2 || op == 10 {
        add_with_carry_spec(a, !b, true)
    } else if op == 3 {
        add_with_carry_spec(b, !a, true)
    } else if op == 4 || op == 11 {
        add_with_carry_spec(a, b, false)
    } else if op == 5 {
        add_with_carry_spec(a, b, c)
    } else if op == 6 {
        add_with_carry_spec(a, !b, c)
    } else if op == 7 {
        add_with_carry_spec(b, !a, c)
    } else if op == 12 {
        (a | b, sc, v)
    } else if op == 13 {
        (b, sc, v)
    } else if op == 14 {
        (a & !b, sc, v)
    } else {
        (!b, sc, v)
    }
}

fn dp_compute(op: u32, a: u32, b: u32, sc: bool, c: bool, v: bool) -> (r: (u32, bool, bool))
    requires
        op < 16,
    ensures
        r == dp_result(op, a, b, sc, c, v),
{
    if op == 0 || op == 8 {
        (a & b, sc, v)
    } else if op == 1 || op == 9 {
        (a ^ b, sc, v)
    } else if op == 12 {
        (a | b, sc, v)
    } else if op == 13 {
        (b, sc, v)
    } else if op == 14 {
        (a & !b, sc, v)
    } else if op == 15 {
        (!b, sc, v)
    } else {
        let r = if op == 2 || op == 10 {
            add_with_carry(a, !b, true)
        } else if op == 3 {
            add_with_carry(b, !a, true)
        } else if op == 4 || op == 11 {
            add_with_carry(a, b, false)
        } else if op == 5 {
            add_with_carry(a, b, c)
        } else if op == 6 {
            add_with_carry(a, !b, c)
        } else {
            add_with_carry(b, !a, c)
        };
        (r.value, r.carry, r.overflow)
    }
}

/// Data processing: opcode in bits 24..21, S in bit 20, Rn and Rd in bits
/// 19..16 and 15..12. The four tests only set flags; a write of r15 with S
/// set returns from an exception.
pub open spec fn post_data_processing(s: ArmCpu, t: ArmCpu, instr: u32) -> bool {
    let op = (instr / 0x20_0000) % 16;
    let set = ibit(instr, 20);
    let rn = reg_at(instr, 16);
    let rd = reg_at(instr, 12);
    let a = if !ibit(instr, 25) && ibit(instr, 4) { operand_late(s, rn) } else { s.operand(rn) };
    let (b, sc) = operand2_spec(s, instr);
    let (v, c, o) = dp_result(op, a, b, sc, s.flag(FLAG_C), s.flag(FLAG_V));
    if 8 <= op < 12 {
        ArmCpu::flags_done(s, t, v >= 0x8000_0000, v == 0, c, o)
    } else if rd == 15 && set {
        ArmCpu::exception_returned(s, t, v)
    } else if rd == 15 {
        ArmCpu::reg_written(s, t, 15, v)
    } else {
        ArmCpu::alu_done(s, t, rd, v, set, c, o)
    }
}

fn arm_data_processing(cpu: &mut ArmCpu, instr: u32)
    requires
        old(cpu).wf(),
    ensures
        final(cpu).cycles >= old(cpu).cycles,
        final(cpu).wf(),
        post_data_processing(*old(cpu), *final(cpu), instr),
{
    let op = (instr / 0x20_0000) % 16;
    let set = (instr / 0x10_0000) % 2 == 1;
    let rn = (instr / 0x1_0000) % 16;
    let rd = (instr / 0x1000) % 16;
    let late = (instr / 0x200_0000) % 2 == 0 && (instr / 0x10) % 2 == 1;
    let a = if late && rn == 15 { cpu.get_pc().wrapping_add(12) } else { cpu.rget(rn) };
    let (b, sc) = operand2(cpu, instr);
    let c = cpu.get_flag(FLAG_C);
    let v0 = cpu.get_flag(FLAG_V);
    let (v, co, o) = dp_compute(op, a, b, sc, c, v0);
    if 8 <= op && op < 12 {
        cpu.write_flags(v >= 0x8000_0000, v == 0, co, o);
    } else if rd == 15 && set {
        cpu.exception_return(v);
    } else if rd == 15 {
        cpu.rset(15, v);
    } else {
        cpu.write_alu(rd, v, set, co, o);
    }
}

/// Loads a byte into `dest`.
pub fn arm_fn_ldrb(cpu: &mut ArmCpu, address: u32, dest: u32)
    requires
        old(cpu).wf(),
        dest < 16,
    ensures
        final(cpu).cycles >= old(cpu).cycles,
        final(cpu).wf(),
        written(*old(cpu), *final(cpu), dest as int, old(cpu).mem().load8(address) as u32),
{
    let data = cpu.mread8(address) as u32;
    write_reg(cpu, dest, data);
}

/// Loads a word into `dest`.
pub fn arm_fn_ldr(cpu: &mut ArmCpu, address: u32, dest: u32)
    requires
        old(cpu).wf(),
        dest < 16,
    ensures
        final(cpu).cycles >= old(cpu).cycles,
        final(cpu).wf(),
        written(*old(cpu), *final(cpu), dest as int, old(cpu).mem().load32(address)),
{
    let data = cpu.mread32(address);
    write_reg(cpu, dest, data);
}

/// Stores the low byte of `src`; r15 stores the instruction's address plus 12.
pub fn arm_fn_strb(cpu: &mut ArmCpu, address: u32, src: u32)
    requires
        old(cpu).wf(),
        src < 16,
    ensures
        final(cpu).cycles >= old(cpu).cycles,
        final(cpu).wf(),
        mem_stored(*old(cpu), *final(cpu), old(cpu).mem().store8(address, (operand_late(*old(cpu), src as int) % 256) as u8)),
{
    let v = if src == 15 { cpu.get_pc().wrapping_add(12) } else { cpu.rget(src) };
    cpu.mwrite8(address, (v % 256) as u8);
}

/// Stores the word of `src`; r15 stores the instruction's address plus 12.
pub fn arm_fn_str(cpu: &mut ArmCpu, address: u32, src: u32)
    requires
        old(cpu).wf(),
        src < 16,
    ensures
        final(cpu).cycles >= old(cpu).cycles,
        final(cpu).wf(),
        mem_stored(*old(cpu), *final(cpu), old(cpu).mem().store32(address, operand_late(*old(cpu), src as int))),
{
    let v = if src == 15 { cpu.get_pc().wrapping_add(12) } else { cpu.rget(src) };
    cpu.mwrite32(address, v);
}

/// Offset of a single data transfer: the 12-bit immediate, or Rm shifted by
/// an immediate amount.
pub open spec fn sdt_offset_spec(s: ArmCpu, instr: u32) -> u32 {
    if ibit(instr, 25) {
        shift_imm_spec((instr / 32) % 4, s.operand(reg_at(instr, 0)), (instr / 128) % 32, s.flag(FLAG_C)).0
    } else {
        instr % 4096
    }
}

/// The 12-bit immediate offset.
pub fn arm_fn_sdt_imm(cpu: &ArmCpu, instr: u32) -> (r: u32)
    ensures
        r == instr % 4096,
{
    instr % 4096
}

pub fn arm_fn_sdt_neg_imm(cpu: &ArmCpu, instr: u32) -> (r: u32)
    ensures
        r == instr % 4096,
{
    arm_fn_sdt_imm(cpu, instr)
}

pub fn arm_fn_sdt_pos_imm(cpu: &ArmCpu, instr: u32) -> (r: u32)
    ensures
        r == instr % 4096,
{
    arm_fn_sdt_imm(cpu, instr)
}

/// Rm shifted by the immediate amount in bits 11..7 with shift `kind`.
fn sdt_shifted(cpu: &ArmCpu, instr: u32, kind: u32) -> (r: u32)
    requires
        cpu.wf(),
        kind < 4,
    ensures
        r == shift_imm_spec(kind, cpu.operand(reg_at(instr, 0)), (instr / 128) % 32, cpu.flag(FLAG_C)).0,
{
    let x = cpu.rget(instr % 16);
    let c = cpu.get_flag(FLAG_C);
    barrel_shift_imm(kind, x, (instr / 128) % 32, c).0
}

pub fn arm_fn_sdt_lsl(cpu: &ArmCpu, instr: u32) -> (r: u32)
    requires
        cpu.wf(),
    ensures
        r == shift_imm_spec(0, cpu.operand(reg_at(instr, 0)), (instr / 128) % 32, cpu.flag(FLAG_C)).0,
{
    sdt_shifted(cpu, instr, 0)
}

pub fn arm_fn_sdt_lsr(cpu: &ArmCpu, instr: u32) -> (r: u32)
    requires
        cpu.wf(),
    ensures
        r == shift_imm_spec(1, cpu.operand(reg_at(instr, 0)), (instr / 128) % 32, cpu.flag(FLAG_C)).0,
{
    sdt_shifted(cpu, instr, 1)
}

pub fn arm_fn_sdt_asr(cpu: &ArmCpu, instr: u32) -> (r: u32)
    requires
        cpu.wf(),
    ensures
        r == shift_imm_spec(2, cpu.operand(reg_at(instr, 0)), (instr / 128) % 32, cpu.flag(FLAG_C)).0,
{
    sdt_shifted(cpu, instr, 2)
}

pub fn arm_fn_sdt_ror(cpu: &ArmCpu, instr: u32) -> (r: u32)
    requires
        cpu.wf(),
    ensures
        r == shift_imm_spec(3, cpu.operand(reg_at(instr, 0)), (instr / 128) % 32, cpu.flag(FLAG_C)).0,
{
    sdt_shifted(cpu, instr, 3)
}

pub fn arm_fn_sdt_pos_lsl(cpu: &ArmCpu, instr: u32) -> (r: u32)
    requires
        cpu.wf(),
    ensures
        r == shift_imm_spec(0, cpu.operand(reg_at(instr, 0)), (instr / 128) % 32, cpu.flag(FLAG_C)).0,
{
    arm_fn_sdt_lsl(cpu, instr)
}

pub fn arm_fn_sdt_pos_lsr(cpu: &ArmCpu, instr: u32) -> (r: u32)
    requires
        cpu.wf(),
    ensures
        r == shift_imm_spec(1, cpu.operand(reg_at(instr, 0)), (instr / 128) % 32, cpu.flag(FLAG_C)).0,
{
    arm_fn_sdt_lsr(cpu, instr)
}

pub fn arm_fn_sdt_pos_asr(cpu: &ArmCpu, instr: u32) -> (r: u32)
    requires
        cpu.wf(),
    ensures
        r == shift_imm_spec(2, cpu.operand(reg_at(instr, 0)), (instr / 128) % 32, cpu.flag(FLAG_C)).0,
{
    arm_fn_sdt_asr(cpu, instr)
}

pub fn arm_fn_sdt_pos_ror(cpu: &ArmCpu, instr: u32) -> (r: u32)
    requires
        cpu.wf(),
    ensures
        r == shift_imm_spec(3, cpu.operand(reg_at(instr, 0)), (instr / 128) % 32, cpu.flag(FLAG_C)).0,
{
    arm_fn_sdt_ror(cpu, instr)
}

pub fn arm_fn_sdt_neg_lsl(cpu: &ArmCpu, instr: u32) -> (r: u32)
    requires
        cpu.wf(),
    ensures
        r == shift_imm_spec(0, cpu.operand(reg_at(instr, 0)), (instr / 128) % 32, cpu.flag(FLAG_C)).0,
{
    arm_fn_sdt_lsl(cpu, instr)
}

pub fn arm_fn_sdt_neg_lsr(cpu: &ArmCpu, instr: u32) -> (r: u32)
    requires
        cpu.wf(),
    ensures
        r == shift_imm_spec(1, cpu.operand(reg_at(instr, 0)), (instr / 128) % 32, cpu.flag(FLAG_C)).0,
{
    arm_fn_sdt_lsr(cpu, instr)
}

pub fn arm_fn_sdt_neg_asr(cpu: &ArmCpu, instr: u32) -> (r: u32)
    requires
        cpu.wf(),
    ensures
        r == shift_imm_spec(2, cpu.operand(reg_at(instr, 0)), (instr / 128) % 32, cpu.flag(FLAG_C)).0,
{
    arm_fn_sdt_asr(cpu, instr)
}

pub fn arm_fn_sdt_neg_ror(cpu: &ArmCpu, instr: u32) -> (r: u32)
    requires
        cpu.wf(),
    ensures
        r == shift_imm_spec(3, cpu.operand(reg_at(instr, 0)), (instr / 128) % 32, cpu.flag(FLAG_C)).0,
{
    arm_fn_sdt_ror(cpu, instr)
}

fn sdt_offset(cpu: &ArmCpu, instr: u32) -> (r: u32)
    requires
        cpu.wf(),
    ensures
        r == sdt_offset_spec(*cpu, instr),
{
    if (instr / 0x200_0000) % 2 == 1 {
        let kind = (instr / 32) % 4;
        if kind == 0 {
            arm_fn_sdt_lsl(cpu, instr)
        } else if kind == 1 {
            arm_fn_sdt_lsr(cpu, instr)
        } else if kind == 2 {
            arm_fn_sdt_asr(cpu, instr)
        } else {
            arm_fn_sdt_ror(cpu, instr)
        }
    } else {
        arm_fn_sdt_imm(cpu, instr)
    }
}

/// Address arithmetic of a transfer: the base moved up or down by `off`
/// (bit 23), used before the access when pre-indexed (bit 24), written back
/// when post-indexed or when bit 21 asks (never to r15).
pub open spec fn indexed(s: ArmCpu, instr: u32, off: u32) -> (u32, u32, bool) {
    let rn = reg_at(instr, 16);
    let base = s.operand(rn);
    let calc = if ibit(instr, 23) { add32(base, off as int) } else { add32(base, -(off as int)) };
    let addr = if ibit(instr, 24) { calc } else { base };
    (addr, calc, (!ibit(instr, 24) || ibit(instr, 21)) && rn != 15)
}

/// Registers after the write-back of a transfer.
pub open spec fn after_writeback(s: ArmCpu, instr: u32, off: u32) -> Seq<u32> {
    let (addr, calc, wb) = indexed(s, instr, off);
    if wb {
        s.registers.phys@.update(phys_index(s.registers.mode(), reg_at(instr, 16)), calc)
    } else {
        s.registers.phys@
    }
}

/// A load of `v` into `rd` on top of the write-back; `t` otherwise as `s`.
#[verifier::opaque]
pub open spec fn loaded_after_wb(s: ArmCpu, t: ArmCpu, regs: Seq<u32>, rd: int, v: u32) -> bool {
    &&& t.registers.cpsr == s.registers.cpsr
    &&& t.registers.spsr == s.registers.spsr
    &&& t.memory@ == s.memory@
    &&& if rd == 15 {
        t.registers.phys@ == regs.update(15, pc_align(v, s.thumb())) && t.branched
    } else {
        t.registers.phys@ == regs.update(phys_index(s.registers.mode(), rd), v) && t.branched
            == s.branched
    }
}

/// A store to memory `m` with the write-back; `t` otherwise as `s`.
#[verifier::opaque]
pub open spec fn stored_after_wb(s: ArmCpu, t: ArmCpu, regs: Seq<u32>, m: crate::memory::MemView) -> bool {
    &&& t.registers.cpsr == s.registers.cpsr
    &&& t.registers.spsr == s.registers.spsr
    &&& t.registers.phys@ == regs
    &&& t.memory@ == m
    &&& t.branched == s.branched
}

/// Single data transfer: LDR, STR, LDRB, STRB (bit 22 bytes, bit 20 loads).
pub open spec fn post_single_transfer(s: ArmCpu, t: ArmCpu, instr: u32) -> bool {
    let off = sdt_offset_spec(s, instr);
    let (addr, calc, wb) = indexed(s, instr, off);
    let regs = after_writeback(s, instr, off);
    let rd = reg_at(instr, 12);
    let m = s.mem();
    if ibit(instr, 20) {
        loaded_after_wb(s, t, regs, rd, if ibit(instr, 22) { m.load8(addr) as u32 } else { m.load32(addr) })
    } else {
        let v = operand_late(s, rd);
        stored_after_wb(s, t, regs, if ibit(instr, 22) { m.store8(addr, (v % 256) as u8) } else { m.store32(addr, v) })
    }
}

fn writeback(cpu: &mut ArmCpu, instr: u32, calc: u32, wb: bool)
    requires
        old(cpu).wf(),
        wb ==> reg_at(instr, 16) < 15,
    ensures
        final(cpu).cycles >= old(cpu).cycles,
        final(cpu).wf(),
        final(cpu).registers.phys@ == (if wb {
            old(cpu).registers.phys@.update(phys_index(old(cpu).registers.mode(), reg_at(instr, 16)), calc)
        } else {
            old(cpu).registers.phys@
        }),
        final(cpu).registers.cpsr == old(cpu).registers.cpsr,
        final(cpu).registers.spsr == old(cpu).registers.spsr,
        final(cpu).memory@ == old(cpu).memory@,
        final(cpu).branched == old(cpu).branched,
{
    if wb {
        cpu.write_alu((instr / 0x1_0000) % 16, calc, false, false, false);
    }
}

fn sdt_load(cpu: &mut ArmCpu, instr: u32, addr: u32, calc: u32, wb: bool, byte: bool)
    requires
        old(cpu).wf(),
        wb ==> reg_at(instr, 16) < 15,
    ensures
        final(cpu).cycles >= old(cpu).cycles,
        final(cpu).wf(),
        loaded_after_wb(
            *old(cpu),
            *final(cpu),
            if wb {
                old(cpu).registers.phys@.update(phys_index(old(cpu).registers.mode(), reg_at(instr, 16)), calc)
            } else {
                old(cpu).registers.phys@
            },
            reg_at(instr, 12),
            if byte { old(cpu).mem().load8(addr) as u32 } else { old(cpu).mem().load32(addr) },
        ),
{
    reveal(loaded_after_wb);
    let rd = (instr / 0x1000) % 16;
    let v = if byte { cpu.mread8(addr) as u32 } else { cpu.mread32(addr) };
    writeback(cpu, instr, calc, wb);
    write_reg(cpu, rd, v);
}

fn sdt_store(cpu: &mut ArmCpu, instr: u32, addr: u32, calc: u32, wb: bool, byte: bool)
    requires
        old(cpu).wf(),
        wb ==> reg_at(instr, 16) < 15,
    ensures
        final(cpu).cycles >= old(cpu).cycles,
        final(cpu).wf(),
        stored_after_wb(
            *old(cpu),
            *final(cpu),
            if wb {
                old(cpu).registers.phys@.update(phys_index(old(cpu).registers.mode(), reg_at(instr, 16)), calc)
            } else {
                old(cpu).registers.phys@
            },
            if byte {
                old(cpu).mem().store8(addr, (operand_late(*old(cpu), reg_at(instr, 12)) % 256) as u8)
            } else {
                old(cpu).mem().store32(addr, operand_late(*old(cpu), reg_at(instr, 12)))
            },
        ),
{
    reveal(stored_after_wb);
    let rd = (instr / 0x1000) % 16;
    if byte {
        arm_fn_strb(cpu, addr, rd);
    } else {
        arm_fn_str(cpu, addr, rd);
    }
    writeback(cpu, instr, calc, wb);
}

#[verifier::rlimit(60)]
fn arm_single_transfer(cpu: &mut ArmCpu, instr: u32)
    requires
        old(cpu).wf(),
    ensures
        final(cpu).cycles >= old(cpu).cycles,
        final(cpu).wf(),
        post_single_transfer(*old(cpu), *final(cpu), instr),
{
    let ghost s = *cpu;
    let off = sdt_offset(cpu, instr);
    let rn = (instr / 0x1_0000) % 16;
    let base = cpu.rget(rn);
    let up = (instr / 0x80_0000) % 2 == 1;
    let pre = (instr / 0x100_0000) % 2 == 1;
    let calc = if up { base.wrapping_add(off) } else { base.wrapping_sub(off) };
    let addr = if pre { calc } else { base };
    let wb = (!pre || (instr / 0x20_0000) % 2 == 1) && rn != 15;
    assert((addr, calc, wb) == indexed(s, instr, off));
    let byte = (instr / 0x40_0000) % 2 == 1;
    if (instr / 0x10_0000) % 2 == 1 {
        sdt_load(cpu, instr, addr, calc, wb, byte);
    } else {
        sdt_store(cpu, instr, addr, calc, wb, byte);
    }
}

/// Offset of a halfword transfer: an 8-bit immediate split over bits 11..8
/// and 3..0 (bit 22 set), else Rm.
pub open spec fn half_offset_spec(s: ArmCpu, instr: u32) -> u32 {
    if ibit(instr, 22) {
        (((instr / 256) % 16) * 16 + instr % 16) as u32
    } else {
        s.operand(reg_at(instr, 0))
    }
}

/// Halfword and signed transfers: STRH, LDRH, LDRSB, LDRSH (bits 6..5 and
/// bit 20). Stores other than STRH are undefined on this processor.
pub open spec fn post_half_transfer(s: ArmCpu, t: ArmCpu, instr: u32) -> bool {
    let off = half_offset_spec(s, instr);
    let (addr, calc, wb) = indexed(s, instr, off);
    let regs = after_writeback(s, instr, off);
    let rd = reg_at(instr, 12);
    let sh = (instr / 32) % 4;
    let m = s.mem();
    if ibit(instr, 20) {
        let v = if sh == 1 {
            m.load16(addr) as u32
        } else if sh == 2 {
            crate::thumb::sext8(m.load8(addr))
        } else {
            crate::thumb::sext16(m.load16(addr))
        };
        loaded_after_wb(s, t, regs, rd, v)
    } else if sh == 1 {
        stored_after_wb(s, t, regs, m.store16(addr, (operand_late(s, rd) % 0x1_0000) as u16))
    } else {
        ArmCpu::exception_entered(s, t, ExceptionKind::Undefined, add32(s.pc(), 4))
    }
}

#[verifier::rlimit(80)]
fn arm_half_transfer(cpu: &mut ArmCpu, instr: u32)
    requires
        old(cpu).wf(),
    ensures
        final(cpu).cycles >= old(cpu).cycles,
        final(cpu).wf(),
        post_half_transfer(*old(cpu), *final(cpu), instr),
{
    let ghost s = *cpu;
    let off = if (instr / 0x40_0000) % 2 == 1 {
        ((instr / 256) % 16) * 16 + instr % 16
    } else {
        cpu.rget(instr % 16)
    };
    let rn = (instr / 0x1_0000) % 16;
    let rd = (instr / 0x1000) % 16;
    let base = cpu.rget(rn);
    let up = (instr / 0x80_0000) % 2 == 1;
    let pre = (instr / 0x100_0000) % 2 == 1;
    let calc = if up { base.wrapping_add(off) } else { base.wrapping_sub(off) };
    let addr = if pre { calc } else { base };
    let wb = (!pre || (instr / 0x20_0000) % 2 == 1) && rn != 15;
    assert((addr, calc, wb) == indexed(s, instr, off));
    let sh = (instr / 32) % 4;
    if (instr / 0x10_0000) % 2 == 1 {
        half_load(cpu, instr, addr, calc, wb, sh);
    } else if sh == 1 {
        half_store(cpu, instr, addr, calc, wb);
    } else {
        let ret = cpu.get_pc().wrapping_add(4);
        cpu.enter_exception(ExceptionKind::Undefined, ret);
    }
}

fn half_load(cpu: &mut ArmCpu, instr: u32, addr: u32, calc: u32, wb: bool, sh: u32)
    requires
        old(cpu).wf(),
        wb ==> reg_at(instr, 16) < 15,
    ensures
        final(cpu).cycles >= old(cpu).cycles,
        final(cpu).wf(),
        loaded_after_wb(
            *old(cpu),
            *final(cpu),
            if wb {
                old(cpu).registers.phys@.update(phys_index(old(cpu).registers.mode(), reg_at(instr, 16)), calc)
            } else {
                old(cpu).registers.phys@
            },
            reg_at(instr, 12),
            if sh == 1 {
                old(cpu).mem().load16(addr) as u32
            } else if sh == 2 {
                crate::thumb::sext8(old(cpu).mem().load8(addr))
            } else {
                crate::thumb::sext16(old(cpu).mem().load16(addr))
            },
        ),
{
    reveal(loaded_after_wb);
    let rd = (instr / 0x1000) % 16;
    let v = if sh == 1 {
        cpu.mread16(addr) as u32
    } else if sh == 2 {
        let b = cpu.mread8(addr);
        if b >= 128 { b as u32 + 0xffff_ff00 } else { b as u32 }
    } else {
        let h = cpu.mread16(addr);
        if h >= 0x8000 { h as u32 + 0xffff_0000 } else { h as u32 }
    };
    writeback(cpu, instr, calc, wb);
    write_reg(cpu, rd, v);
}

fn half_store(cpu: &mut ArmCpu, instr: u32, addr: u32, calc: u32, wb: bool)
    requires
        old(cpu).wf(),
        wb ==> reg_at(instr, 16) < 15,
    ensures
        final(cpu).cycles >= old(cpu).cycles,
        final(cpu).wf(),
        stored_after_wb(
            *old(cpu),
            *final(cpu),
            if wb {
                old(cpu).registers.phys@.update(phys_index(old(cpu).registers.mode(), reg_at(instr, 16)), calc)
            } else {
                old(cpu).registers.phys@
            },
            old(cpu).mem().store16(addr, (operand_late(*old(cpu), reg_at(instr, 12)) % 0x1_0000) as u16),
        ),
{
    reveal(stored_after_wb);
    let rd = (instr / 0x1000) % 16;
    let v = if rd == 15 { cpu.get_pc().wrapping_add(12) } else { cpu.rget(rd) };
    cpu.mwrite16(addr, (v % 0x1_0000) as u16);
    writeback(cpu, instr, calc, wb);
}

/// MUL and MLA: `Rd = Rm * Rs (+ Rn)` modulo 2^32, flags N and Z when S.
/// A destination of r15 leaves the state as it was.
pub open spec fn post_multiply(s: ArmCpu, t: ArmCpu, instr: u32) -> bool {
    let rd = reg_at(instr, 16);
    let acc = if ibit(instr, 21) { s.operand(reg_at(instr, 12)) as int } else { 0 };
    let v = ((s.operand(reg_at(instr, 0)) as int * s.operand(reg_at(instr, 8)) as int + acc)
        % 0x1_0000_0000) as u32;
    if rd == 15 {
        t == s
    } else {
        ArmCpu::alu_done(s, t, rd, v, ibit(instr, 20), s.flag(FLAG_C), s.flag(FLAG_V))
    }
}

fn arm_multiply(cpu: &mut ArmCpu, instr: u32)
    requires
        old(cpu).wf(),
    ensures
        final(cpu).cycles >= old(cpu).cycles,
        final(cpu).wf(),
        post_multiply(*old(cpu), *final(cpu), instr),
{
    let rd = (instr / 0x1_0000) % 16;
    if rd != 15 {
        let m = cpu.rget(instr % 16);
        let r = cpu.rget((instr / 256) % 16);
        let acc = if (instr / 0x20_0000) % 2 == 1 { cpu.rget((instr / 0x1000) % 16) } else { 0 };
        let v = m.wrapping_mul(r).wrapping_add(acc);
        proof {
            let p = m as int * r as int;
            assert(((p % 0x1_0000_0000) + acc as int) % 0x1_0000_0000 == (p + acc as int) % 0x1_0000_0000) by (nonlinear_arith);
        }
        let c = cpu.get_flag(FLAG_C);
        let ov = cpu.get_flag(FLAG_V);
        cpu.write_alu(rd, v, (instr / 0x10_0000) % 2 == 1, c, ov);
    }
}

/// A word sign-extended to 64 bits.
pub open spec fn sext64(x: u32) -> u64 {
    if x >= 0x8000_0000 { (x as int + 0xffff_ffff_0000_0000) as u64 } else { x as u64 }
}

/// The 64-bit result of a long multiply.
pub open spec fn long_product(s: ArmCpu, instr: u32) -> u64 {
    let m = s.operand(reg_at(instr, 0));
    let r = s.operand(reg_at(instr, 8));
    let p = if ibit(instr, 22) {
        (sext64(m) as int * sext64(r) as int) % 0x1_0000_0000_0000_0000
    } else {
        m as int * r as int
    };
    let acc = if ibit(instr, 21) {
        s.operand(reg_at(instr, 16)) as int * 0x1_0000_0000 + s.operand(reg_at(instr, 12)) as int
    } else {
        0
    };
    ((p + acc) % 0x1_0000_0000_0000_0000) as u64
}

/// UMULL, UMLAL, SMULL, SMLAL: RdHi:RdLo takes the 64-bit product (plus
/// RdHi:RdLo); flags N and Z of it when S. Equal or r15 destinations leave
/// the state as it was.
pub open spec fn post_multiply_long(s: ArmCpu, t: ArmCpu, instr: u32) -> bool {
    let hi = reg_at(instr, 16);
    let lo = reg_at(instr, 12);
    let v = long_product(s, instr);
    let mode = s.registers.mode();
    if hi == 15 || lo == 15 || hi == lo {
        t == s
    } else {
        &&& t.registers.phys@ == s.registers.phys@.update(phys_index(mode, lo), (v % 0x1_0000_0000) as u32).update(
            phys_index(mode, hi),
            (v / 0x1_0000_0000) as u32,
        )
        &&& t.registers.cpsr == (if ibit(instr, 20) {
            crate::cpu::psr_with_nzcv(s.registers.cpsr, v >= 0x8000_0000_0000_0000, v == 0, s.flag(FLAG_C), s.flag(FLAG_V))
        } else {
            s.registers.cpsr
        })
        &&& t.registers.spsr == s.registers.spsr
        &&& t.memory@ == s.memory@
        &&& t.branched == s.branched
    }
}

fn arm_multiply_long(cpu: &mut ArmCpu, instr: u32)
    requires
        old(cpu).wf(),
    ensures
        final(cpu).cycles >= old(cpu).cycles,
        final(cpu).wf(),
        post_multiply_long(*old(cpu), *final(cpu), instr),
{
    let ghost s = *cpu;
    let hi = (instr / 0x1_0000) % 16;
    let lo = (instr / 0x1000) % 16;
    if hi != 15 && lo != 15 && hi != lo {
        let m = cpu.rget(instr % 16);
        let r = cpu.rget((instr / 256) % 16);
        let p: u64 = if (instr / 0x40_0000) % 2 == 1 {
            let sm: u64 = if m >= 0x8000_0000 { m as u64 + 0xffff_ffff_0000_0000 } else { m as u64 };
            let sr: u64 = if r >= 0x8000_0000 { r as u64 + 0xffff_ffff_0000_0000 } else { r as u64 };
            sm.wrapping_mul(sr)
        } else {
            proof {
                assert(m as int * r as int <= 0xffff_ffff * 0xffff_ffff) by (nonlinear_arith)
                    requires m <= 0xffff_ffff, r <= 0xffff_ffff;
            }
            m as u64 * r as u64
        };
        let acc: u64 = if (instr / 0x20_0000) % 2 == 1 {
            cpu.rget(hi) as u64 * 0x1_0000_0000 + cpu.rget(lo) as u64
        } else {
            0
        };
        let v = p.wrapping_add(acc);
        assert(v == long_product(s, instr));
        let c = cpu.get_flag(FLAG_C);
        let ov = cpu.get_flag(FLAG_V);
        let set = (instr / 0x10_0000) % 2 == 1;
        cpu.write_alu(lo, (v % 0x1_0000_0000) as u32, false, false, false);
        cpu.write_alu(hi, (v / 0x1_0000_0000) as u32, false, false, false);
        if set {
            cpu.write_flags(v >= 0x8000_0000_0000_0000, v == 0, c, ov);
        }
    }
}

/// MRS: Rd takes the CPSR, or the SPSR when bit 22 is set.
pub open spec fn post_psr_read(s: ArmCpu, t: ArmCpu, instr: u32) -> bool {
    let rd = reg_at(instr, 12);
    let v = if ibit(instr, 22) { s.registers.spsr_value() } else { s.registers.cpsr };
    if rd == 15 { t == s } else { ArmCpu::alu_done(s, t, rd, v, false, false, false) }
}

fn arm_psr_read(cpu: &mut ArmCpu, instr: u32)
    requires
        old(cpu).wf(),
    ensures
        final(cpu).cycles >= old(cpu).cycles,
        final(cpu).wf(),
        post_psr_read(*old(cpu), *final(cpu), instr),
{
    let rd = (instr / 0x1000) % 16;
    if rd != 15 {
        let v = if (instr / 0x40_0000) % 2 == 1 { cpu.registers.get_spsr() } else { cpu.registers.cpsr };
        cpu.write_alu(rd, v, false, false, false);
    }
}

/// Bits an MSR may change: the flag byte (bit 19) and, outside user mode,
/// the control byte (bit 16).
pub open spec fn psr_mask(s: ArmCpu, instr: u32) -> u32 {
    let f: u32 = if ibit(instr, 19) { 0xff00_0000 } else { 0 };
    let c: u32 = if ibit(instr, 16) && s.registers.mode() != crate::registers::MODE_USR { 0xff } else { 0 };
    f | c
}

/// Source of an MSR: a rotated immediate (bit 25) or Rm.
pub open spec fn psr_source(s: ArmCpu, instr: u32) -> u32 {
    if ibit(instr, 25) {
        let rot = (((instr / 256) % 16) * 2) as u32;
        if rot == 0 { instr % 256 } else { rotr(instr % 256, rot) }
    } else {
        s.operand(reg_at(instr, 0))
    }
}

/// MSR: the masked bits of the CPSR (or of the SPSR when bit 22 is set) take
/// those of the source; the CPSR keeps F set and a valid mode.
pub open spec fn post_psr_write(s: ArmCpu, t: ArmCpu, instr: u32) -> bool {
    let mask = psr_mask(s, instr);
    let v = psr_source(s, instr);
    &&& t.registers.phys == s.registers.phys
    &&& t.memory@ == s.memory@
    &&& t.branched == s.branched
    &&& if ibit(instr, 22) {
        let slot = spsr_slot(s.registers.mode());
        &&& t.registers.cpsr == s.registers.cpsr
        &&& slot >= 0 ==> t.registers.spsr@ == s.registers.spsr@.update(slot, (s.registers.spsr[slot] & !mask) | (v & mask))
        &&& slot < 0 ==> t.registers.spsr == s.registers.spsr
    } else {
        &&& t.registers.cpsr == normalized_psr((s.registers.cpsr & !mask) | (v & mask), s.registers.cpsr)
        &&& t.registers.spsr == s.registers.spsr
    }
}

fn arm_psr_write(cpu: &mut ArmCpu, instr: u32)
    requires
        old(cpu).wf(),
    ensures
        final(cpu).cycles >= old(cpu).cycles,
        final(cpu).wf(),
        post_psr_write(*old(cpu), *final(cpu), instr),
{
    let f: u32 = if (instr / 0x8_0000) % 2 == 1 { 0xff00_0000 } else { 0 };
    let c: u32 = if (instr / 0x1_0000) % 2 == 1 && cpu.registers.get_mode() != crate::registers::MODE_USR { 0xff } else { 0 };
    let mask = f | c;
    let v = if (instr / 0x200_0000) % 2 == 1 {
        let imm = instr % 256;
        let rot = ((instr / 256) % 16) * 2;
        if rot == 0 { imm } else { (imm >> rot) | (imm << (32 - rot)) }
    } else {
        cpu.rget(instr % 16)
    };
    if (instr / 0x40_0000) % 2 == 1 {
        let old_spsr = cpu.registers.get_spsr();
        let m = cpu.registers.get_mode();
        if m != crate::registers::MODE_USR && m != crate::registers::MODE_SYS {
            cpu.registers.set_spsr((old_spsr & !mask) | (v & mask));
        }
    } else {
        let cur = cpu.registers.cpsr;
        cpu.registers.set_cpsr((cur & !mask) | (v & mask));
    }
}

/// Offset of a branch: the signed 24 bits times four, as a word.
pub open spec fn branch_off24(instr: u32) -> u32 {
    let o = instr % 0x100_0000;
    if o >= 0x80_0000 { (o * 4 + 0xfc00_0000) as u32 } else { (o * 4) as u32 }
}

/// B and BL: the PC takes PC + 8 plus the offset; BL first sets LR to the
/// next instruction.
pub open spec fn post_branch_arm(s: ArmCpu, t: ArmCpu, instr: u32) -> bool {
    let target = add32(s.operand(15), branch_off24(instr) as int);
    let regs = if ibit(instr, 24) {
        s.registers.phys@.update(phys_index(s.registers.mode(), 14), add32(s.pc(), 4))
    } else {
        s.registers.phys@
    };
    &&& t.registers.phys@ == regs.update(15, pc_align(target, s.thumb()))
    &&& t.registers.cpsr == s.registers.cpsr
    &&& t.registers.spsr == s.registers.spsr
    &&& t.memory@ == s.memory@
    &&& t.branched
}

fn arm_branch(cpu: &mut ArmCpu, instr: u32)
    requires
        old(cpu).wf(),
    ensures
        final(cpu).cycles >= old(cpu).cycles,
        final(cpu).wf(),
        post_branch_arm(*old(cpu), *final(cpu), instr),
{
    let o = instr % 0x100_0000;
    let off: u32 = if o >= 0x80_0000 { o * 4 + 0xfc00_0000 } else { o * 4 };
    let target = cpu.rget(15).wrapping_add(off);
    if (instr / 0x100_0000) % 2 == 1 {
        let link = cpu.get_pc().wrapping_add(4);
        cpu.write_alu(14, link, false, false, false);
    }
    cpu.rset(15, target);
}

/// BX: the PC takes Rm with bit 0 cleared, Thumb state when bit 0 is set.
pub open spec fn post_branch_exchange(s: ArmCpu, t: ArmCpu, instr: u32) -> bool {
    let b = s.operand(reg_at(instr, 0));
    &&& t.thumb() == (b % 2 == 1)
    &&& t.pc() == pc_align(b, b % 2 == 1)
    &&& forall|r: int| 0 <= r < 15 ==> t.registers.reg(r) == s.registers.reg(r)
    &&& t.registers.mode() == s.registers.mode()
    &&& t.memory@ == s.memory@
    &&& t.branched
}

fn arm_branch_exchange(cpu: &mut ArmCpu, instr: u32)
    requires
        old(cpu).wf(),
    ensures
        final(cpu).cycles >= old(cpu).cycles,
        final(cpu).wf(),
        post_branch_exchange(*old(cpu), *final(cpu), instr),
{
    let target = cpu.rget(instr % 16);
    cpu.branch_exchange(target);
}

/// SWI and undefined instructions: the exception is entered with the next
/// instruction's address as return address.
pub open spec fn post_arm_trap(s: ArmCpu, t: ArmCpu, k: ExceptionKind) -> bool {
    ArmCpu::exception_entered(s, t, k, add32(s.pc(), 4))
}

fn arm_trap(cpu: &mut ArmCpu, k: ExceptionKind)
    requires
        old(cpu).wf(),
    ensures
        final(cpu).cycles >= old(cpu).cycles,
        final(cpu).wf(),
        post_arm_trap(*old(cpu), *final(cpu), k),
{
    let ret = cpu.get_pc().wrapping_add(4);
    cpu.enter_exception(k, ret);
}


/// Lowest address of a block transfer of `n` registers from `base`: bit 23
/// counts up, bit 24 steps before each access.
pub open spec fn block_start(base: u32, instr: u32, n: int) -> u32 {
    if ibit(instr, 23) {
        if ibit(instr, 24) { add32(base, 4) } else { base }
    } else {
        if ibit(instr, 24) { add32(base, -4 * n) } else { add32(base, -4 * n + 4) }
    }
}

/// Base register after a block transfer with write-back.
pub open spec fn block_end(base: u32, instr: u32, n: int) -> u32 {
    if ibit(instr, 23) { add32(base, 4 * n) } else { add32(base, -4 * n) }
}

/// LDM and STM. The S bit selects the user bank, or with r15 loaded returns
/// from an exception (CPSR takes SPSR). A base of r15 is undefined.
pub open spec fn post_block_transfer(s: ArmCpu, t: ArmCpu, instr: u32) -> bool {
    let rn = reg_at(instr, 16);
    let list = instr % 0x1_0000;
    let n = bits_below(list, 16) as int;
    let base = s.operand(rn);
    let start = block_start(base, instr, n);
    let wbv = if ibit(instr, 21) { block_end(base, instr, n) } else { base };
    let load = ibit(instr, 20);
    let sbit = ibit(instr, 22);
    let user = sbit && !(load && in_list(list, 15));
    if rn == 15 {
        post_arm_trap(s, t, ExceptionKind::Undefined)
    } else if !load {
        block_store_post(s, t, start, list, rn, wbv, user)
    } else {
        block_load_post(s, t, start, list, rn, wbv, sbit)
    }
}

/// STM from `start`: of the user bank when `user` (no write-back), else with
/// the base register set to `wbv`.
#[verifier::opaque]
pub open spec fn block_store_post(s: ArmCpu, t: ArmCpu, start: u32, list: u32, rn: int, wbv: u32, user: bool) -> bool {
    if user {
        t.memory@ == stm_mem(s.mem(), start, stm_values(s, true), list, 16) && t.registers
            == s.registers && t.branched == s.branched
    } else {
        stm_wb_done(s, t, start, list, rn, wbv)
    }
}

/// LDM from `start`: with S and no r15 into the user bank, with S and r15 as
/// a return from an exception, else with the base register set to `wbv`
/// unless loaded.
#[verifier::opaque]
pub open spec fn block_load_post(s: ArmCpu, t: ArmCpu, start: u32, list: u32, rn: int, wbv: u32, sbit: bool) -> bool {
    if sbit && !in_list(list, 15) {
        ldm_done(s, t, start, list, true)
    } else if !sbit {
        ldm_wb_done(s, t, start, list, rn, wbv)
    } else {
        ldm_then_return(s, t, start, list, rn, wbv)
    }
}

/// A block load followed by a return from an exception to the loaded PC.
pub open spec fn ldm_then_return(s: ArmCpu, t: ArmCpu, start: u32, list: u32, rn: int, wbv: u32) -> bool {
    exists|mid: ArmCpu| #![trigger ldm_wb_done(s, mid, start, list, rn, wbv)]
        ldm_wb_done(s, mid, start, list, rn, wbv) && ArmCpu::exception_returned(mid, t, mid.pc())
}

fn block_load(cpu: &mut ArmCpu, start: u32, list: u32, rn: u32, wbv: u32, sbit: bool)
    requires
        old(cpu).wf(),
        rn < 15,
    ensures
        final(cpu).cycles >= old(cpu).cycles,
        final(cpu).wf(),
        block_load_post(*old(cpu), *final(cpu), start, list, rn as int, wbv, sbit),
{
    reveal(block_load_post);
    let ghost s = *cpu;
    if sbit && !in_list_exec(list, 15) {
        load_multiple(cpu, start, list, true);
    } else if !sbit {
        load_block(cpu, start, list, rn, wbv);
    } else {
        load_block(cpu, start, list, rn, wbv);
        let ghost mid = *cpu;
        let pc = cpu.get_pc();
        cpu.exception_return(pc);
        assert(ldm_wb_done(s, mid, start, list, rn as int, wbv) && ArmCpu::exception_returned(mid, *cpu, mid.pc()));
    }
}

fn block_store(cpu: &mut ArmCpu, start: u32, list: u32, rn: u32, wbv: u32, user: bool)
    requires
        old(cpu).wf(),
        rn < 15,
    ensures
        final(cpu).cycles >= old(cpu).cycles,
        final(cpu).wf(),
        block_store_post(*old(cpu), *final(cpu), start, list, rn as int, wbv, user),
{
    reveal(block_store_post);
    if user {
        store_multiple(cpu, start, list, true);
    } else {
        store_block(cpu, start, list, rn, wbv);
    }
}

#[verifier::rlimit(60)]
fn arm_block_transfer(cpu: &mut ArmCpu, instr: u32)
    requires
        old(cpu).wf(),
    ensures
        final(cpu).cycles >= old(cpu).cycles,
        final(cpu).wf(),
        post_block_transfer(*old(cpu), *final(cpu), instr),
{
    let ghost s = *cpu;
    let rn = (instr / 0x1_0000) % 16;
    if rn == 15 {
        arm_trap(cpu, ExceptionKind::Undefined);
    } else {
        let list = instr % 0x1_0000;
        let n = count_list(list);
        let base = cpu.rget(rn);
        let up = (instr / 0x80_0000) % 2 == 1;
        let pre = (instr / 0x100_0000) % 2 == 1;
        let start = if up {
            if pre { base.wrapping_add(4) } else { base }
        } else {
            if pre { base.wrapping_sub(4 * n) } else { base.wrapping_sub(4 * n).wrapping_add(4) }
        };
        let end = if up { base.wrapping_add(4 * n) } else { base.wrapping_sub(4 * n) };
        let wbv = if (instr / 0x20_0000) % 2 == 1 { end } else { base };
        let load = (instr / 0x10_0000) % 2 == 1;
        let sbit = (instr / 0x40_0000) % 2 == 1;
        let user = sbit && !(load && in_list_exec(list, 15));
        assert(start == block_start(base, instr, n as int));
        if load {
            block_load(cpu, start, list, rn, wbv, sbit);
        } else {
            block_store(cpu, start, list, rn, wbv, user);
        }
    }
}

/// What ARM instruction `instr` does: nothing when its condition fails,
/// else the effect of its form.
#[verifier::opaque]
pub open spec fn arm_post(s: ArmCpu, t: ArmCpu, instr: u32) -> bool {
    if !cond_passed(instr / 0x1000_0000, s.registers.cpsr) {
        t == s
    } else {
        match arm_class_spec(decode_index_spec(instr)) {
            ArmClass::DataProcessing => post_data_processing(s, t, instr),
            ArmClass::PsrRead => post_psr_read(s, t, instr),
            ArmClass::PsrWrite => post_psr_write(s, t, instr),
            ArmClass::Multiply => post_multiply(s, t, instr),
            ArmClass::MultiplyLong => post_multiply_long(s, t, instr),
            ArmClass::SingleTransfer => post_single_transfer(s, t, instr),
            ArmClass::HalfwordTransfer => post_half_transfer(s, t, instr),
            ArmClass::BlockTransfer => post_block_transfer(s, t, instr),
            ArmClass::Branch => post_branch_arm(s, t, instr),
            ArmClass::BranchExchange => post_branch_exchange(s, t, instr),
            ArmClass::SoftwareInterrupt => post_arm_trap(s, t, ExceptionKind::SoftwareInterrupt),
            ArmClass::Undefined => post_arm_trap(s, t, ExceptionKind::Undefined),
        }
    }
}

/// Executes ARM instruction `instr`, fetched from the PC.
pub fn arm_execute(cpu: &mut ArmCpu, instr: u32)
    requires
        old(cpu).wf(),
    ensures
        final(cpu).cycles >= old(cpu).cycles,
        final(cpu).wf(),
        arm_post(*old(cpu), *final(cpu), instr),
{
    reveal(arm_post);
    if cpu.check_cond(instr / 0x1000_0000) {
        let idx = arm_decode_index(instr);
        match arm_class_of(idx) {
            ArmClass::DataProcessing => arm_data_processing(cpu, instr),
            ArmClass::PsrRead => arm_psr_read(cpu, instr),
            ArmClass::PsrWrite => arm_psr_write(cpu, instr),
            ArmClass::Multiply => arm_multiply(cpu, instr),
            ArmClass::MultiplyLong => arm_multiply_long(cpu, instr),
            ArmClass::SingleTransfer => arm_single_transfer(cpu, instr),
            ArmClass::HalfwordTransfer => arm_half_transfer(cpu, instr),
            ArmClass::BlockTransfer => arm_block_transfer(cpu, instr),
            ArmClass::Branch => arm_branch(cpu, instr),
            ArmClass::BranchExchange => arm_branch_exchange(cpu, instr),
            ArmClass::SoftwareInterrupt => arm_trap(cpu, ExceptionKind::SoftwareInterrupt),
            ArmClass::Undefined => arm_trap(cpu, ExceptionKind::Undefined),
        }
    }
}

proof fn lemma_nzcv_readback(psr: u32, n: bool, z: bool, c: bool, v: bool)
    ensures
        crate::registers::psr_flag(crate::cpu::psr_with_nzcv(psr, n, z, c, v), crate::registers::FLAG_N) == n,
        crate::registers::psr_flag(crate::cpu::psr_with_nzcv(psr, n, z, c, v), crate::registers::FLAG_Z) == z,
        crate::registers::psr_flag(crate::cpu::psr_with_nzcv(psr, n, z, c, v), FLAG_C) == c,
        crate::registers::psr_flag(crate::cpu::psr_with_nzcv(psr, n, z, c, v), FLAG_V) == v,
{
    let p1 = psr_with_flag(psr, FLAG_N, n);
    let p2 = psr_with_flag(p1, FLAG_Z, z);
    let p3 = psr_with_flag(p2, FLAG_C, c);
    lemma_psr_with_flag(psr, FLAG_N, n);
    lemma_psr_with_flag(p1, FLAG_Z, z);
    lemma_psr_with_flag(p2, FLAG_C, c);
    lemma_psr_with_flag(p3, FLAG_V, v);
}

/// After a flag-setting data-processing instruction (S set, destination not
/// r15) whose condition holds, N is bit 31 of the result, Z whether it is
/// zero, and C and V those of the operation; the four tests set them the
/// same way from the result they compute.
pub proof fn lemma_data_processing_flags(s: ArmCpu, t: ArmCpu, instr: u32)
    requires
        arm_post(s, t, instr),
        cond_passed(instr / 0x1000_0000, s.registers.cpsr),
        arm_class_spec(decode_index_spec(instr)) == ArmClass::DataProcessing,
        ibit(instr, 20),
        reg_at(instr, 12) != 15 || 8 <= (instr / 0x20_0000) % 16 < 12,
    ensures
        ({
            let op = (instr / 0x20_0000) % 16;
            let rn = reg_at(instr, 16);
            let a = if !ibit(instr, 25) && ibit(instr, 4) { operand_late(s, rn) } else { s.operand(rn) };
            let (b, sc) = operand2_spec(s, instr);
            let (v, c, o) = dp_result(op, a, b, sc, s.flag(FLAG_C), s.flag(FLAG_V));
            &&& t.flag(crate::registers::FLAG_N) == (v >= 0x8000_0000)
            &&& t.flag(crate::registers::FLAG_Z) == (v == 0)
            &&& t.flag(FLAG_C) == c
            &&& t.flag(FLAG_V) == o
        }),
{
    reveal(arm_post);
    let op = (instr / 0x20_0000) % 16;
    let rn = reg_at(instr, 16);
    let a = if !ibit(instr, 25) && ibit(instr, 4) { operand_late(s, rn) } else { s.operand(rn) };
    let (b, sc) = operand2_spec(s, instr);
    let (v, c, o) = dp_result(op, a, b, sc, s.flag(FLAG_C), s.flag(FLAG_V));
    lemma_nzcv_readback(s.registers.cpsr, v >= 0x8000_0000, v == 0, c, o);
}

/// After MUL or MLA with S set (destination not r15) whose condition holds,
/// N is bit 31 of the product and Z whether it is zero; C and V keep their
/// values.
pub proof fn lemma_multiply_flags(s: ArmCpu, t: ArmCpu, instr: u32)
    requires
        arm_post(s, t, instr),
        cond_passed(instr / 0x1000_0000, s.registers.cpsr),
        arm_class_spec(decode_index_spec(instr)) == ArmClass::Multiply,
        ibit(instr, 20),
        reg_at(instr, 16) != 15,
    ensures
        ({
            let acc = if ibit(instr, 21) { s.operand(reg_at(instr, 12)) as int } else { 0 };
            let v = ((s.operand(reg_at(instr, 0)) as int * s.operand(reg_at(instr, 8)) as int + acc)
                % 0x1_0000_0000) as u32;
            &&& t.flag(crate::registers::FLAG_N) == (v >= 0x8000_0000)
            &&& t.flag(crate::registers::FLAG_Z) == (v == 0)
            &&& t.flag(FLAG_C) == s.flag(FLAG_C)
            &&& t.flag(FLAG_V) == s.flag(FLAG_V)
        }),
{
    reveal(arm_post);
    let acc = if ibit(instr, 21) { s.operand(reg_at(instr, 12)) as int } else { 0 };
    let v = ((s.operand(reg_at(instr, 0)) as int * s.operand(reg_at(instr, 8)) as int + acc)
        % 0x1_0000_0000) as u32;
    lemma_nzcv_readback(s.registers.cpsr, v >= 0x8000_0000, v == 0, s.flag(FLAG_C), s.flag(FLAG_V));
}

/// After a long multiply with S set (distinct destinations, not r15) whose
/// condition holds, N is bit 63 of the 64-bit result and Z whether it is
/// zero; C and V keep their values.
pub proof fn lemma_multiply_long_flags(s: ArmCpu, t: ArmCpu, instr: u32)
    requires
        arm_post(s, t, instr),
        cond_passed(instr / 0x1000_0000, s.registers.cpsr),
        arm_class_spec(decode_index_spec(instr)) == ArmClass::MultiplyLong,
        ibit(instr, 20),
        reg_at(instr, 16) != 15,
        reg_at(instr, 12) != 15,
        reg_at(instr, 16) != reg_at(instr, 12),
    ensures
        t.flag(FLAG_N) == (long_product(s, instr) >= 0x8000_0000_0000_0000),
        t.flag(FLAG_Z) == (long_product(s, instr) == 0),
        t.flag(FLAG_C) == s.flag(FLAG_C),
        t.flag(FLAG_V) == s.flag(FLAG_V),
{
    reveal(arm_post);
    let v = long_product(s, instr);
    lemma_nzcv_readback(s.registers.cpsr, v >= 0x8000_0000_0000_0000, v == 0, s.flag(FLAG_C), s.flag(FLAG_V));
}

/// No ARM instruction changes VCOUNT or the read-only bits of DISPSTAT:
/// CPU writes to them are masked.
pub proof fn lemma_arm_keeps_status(s: ArmCpu, t: ArmCpu, instr: u32)
    requires
        s.wf(),
        arm_post(s, t, instr),
    ensures
        hw_status_kept(s.mem(), t.mem()),
{
    reveal(arm_post);
    reveal(loaded_after_wb);
    reveal(stored_after_wb);
    reveal(block_store_post);
    reveal(block_load_post);
    let m = s.mem();
    if cond_passed(instr / 0x1000_0000, s.registers.cpsr) {
        let class = arm_class_spec(decode_index_spec(instr));
        let v = operand_late(s, reg_at(instr, 12));
        if class == ArmClass::SingleTransfer {
            let (addr, calc, wb) = indexed(s, instr, sdt_offset_spec(s, instr));
            lemma_store8_keeps_status(m, addr, (v % 256) as u8);
            lemma_store32_keeps_status(m, addr, v);
        } else if class == ArmClass::HalfwordTransfer {
            let (addr, calc, wb) = indexed(s, instr, half_offset_spec(s, instr));
            lemma_store16_keeps_status(m, addr, (v % 0x1_0000) as u16);
        } else if class == ArmClass::BlockTransfer {
            let list = instr % 0x1_0000;
            let n = bits_below(list, 16) as int;
            let start = block_start(s.operand(reg_at(instr, 16)), instr, n);
            lemma_stm_keeps_status(m, start, stm_values(s, true), list, 16);
            lemma_stm_keeps_status(m, start, stm_values(s, false), list, 16);
        }
    }
}

/// A word stored with `arm_fn_str` and loaded back from the same address
/// with `arm_fn_ldr` (into a register other than r15) comes back whole, in
/// every region that CPU writes reach.
pub proof fn lemma_str_then_ldr(s: ArmCpu, t: ArmCpu, u: ArmCpu, addr: u32, src: int, dest: int)
    requires
        s.wf(),
        0 <= src < 16,
        0 <= dest < 15,
        crate::memory::is_ram_region(s.mem().loc(addr).0),
        mem_stored(s, t, s.mem().store32(addr, operand_late(s, src))),
        written(t, u, dest, t.mem().load32(addr)),
    ensures
        u.registers.reg(dest) == operand_late(s, src),
{
    crate::memory::lemma_write_read_round_trip(s.mem(), addr, operand_late(s, src));
}

/// A byte stored with `arm_fn_strb` and loaded back with `arm_fn_ldrb` (into
/// a register other than r15) is the low byte of the source, zero-extended,
/// in the work RAMs and cartridge SRAM; palette and VRAM hold it in both
/// halves of its halfword; OAM ignores the write.
pub proof fn lemma_strb_then_ldrb(s: ArmCpu, t: ArmCpu, u: ArmCpu, addr: u32, src: int, dest: int)
    requires
        s.wf(),
        0 <= src < 16,
        0 <= dest < 15,
        crate::memory::is_ram_region(s.mem().loc(addr).0),
        mem_stored(s, t, s.mem().store8(addr, (operand_late(s, src) % 256) as u8)),
        written(t, u, dest, t.mem().load8(addr) as u32),
    ensures
        s.mem().loc(addr).0 != crate::memory::REGION_OAM ==> u.registers.reg(dest) == operand_late(s, src) % 256,
        s.mem().loc(addr).0 == crate::memory::REGION_PAL || s.mem().loc(addr).0 == crate::memory::REGION_VRAM
            ==> t.mem().load16(addr) == ((operand_late(s, src) % 256) as u16) * 0x101,
        s.mem().loc(addr).0 == crate::memory::REGION_OAM ==> t.mem() == s.mem(),
{
    let b = (operand_late(s, src) % 256) as u8;
    if s.mem().loc(addr).0 != crate::memory::REGION_OAM {
        crate::memory::lemma_write8_read_round_trip(s.mem(), addr, b);
    }
}

} // verus!
