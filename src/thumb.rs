use vstd::prelude::*;
use crate::alu::{
    add_with_carry, add_with_carry_spec, barrel_shift_imm, barrel_shift_reg, shift_imm_spec,
    shift_reg_spec,
};
use crate::cpu::{ArmCpu, ExceptionKind, add32, cond_passed, pc_align};
use crate::registers::{FLAG_C, FLAG_V, phys_index};
use crate::memory::{
    hw_status_kept, lemma_store16_keeps_status, lemma_store32_keeps_status, lemma_store8_keeps_status,
};
use crate::transfer::{
    lemma_stm_keeps_status, block_in_work_ram, count_list, bits_below, in_list, lemma_stm_then_load, load_multiple,
    pow2_16, stm_mem, stm_values, store_multiple,
};

verus! {

/// Low register field, bits 2..0.
pub open spec fn lo3(i: u32) -> int {
    (i % 8) as int
}

/// Register field at bits 5..3.
pub open spec fn mid3(i: u32) -> int {
    ((i / 8) % 8) as int
}

/// Register or 3-bit immediate field at bits 8..6.
pub open spec fn hi3(i: u32) -> int {
    ((i / 64) % 8) as int
}

/// 5-bit immediate at bits 10..6.
pub open spec fn off5(i: u32) -> u32 {
    (i / 64) % 32
}

/// Register field at bits 10..8.
pub open spec fn r8f(i: u32) -> int {
    ((i / 256) % 8) as int
}

/// Byte sign-extended to a word.
pub open spec fn sext8(b: u8) -> u32 {
    if b >= 128 { (b as int + 0xffff_ff00) as u32 } else { b as u32 }
}

/// Halfword sign-extended to a word.
pub open spec fn sext16(h: u16) -> u32 {
    if h >= 0x8000 { (h as int + 0xffff_0000) as u32 } else { h as u32 }
}

/// Index of a handler in a table of 16 columns.
pub fn to_index(row: u32, column: u32) -> (r: u32)
    requires
        row * 16 + column <= u32::MAX,
    ensures
        r == row * 16 + column,
{
    (row * 16) + column
}

/// Index of a handler in a table of 4 columns.
pub fn to_index_dp(row: u32, column: u32) -> (r: u32)
    requires
        row * 4 + column <= u32::MAX,
    ensures
        r == row * 4 + column,
{
    (row * 4) + column
}

/// Move shifted register: `Rd = Rs shifted by an immediate`, flags N, Z, C.
pub open spec fn post_shift_imm(s: ArmCpu, t: ArmCpu, instr: u32, kind: u32) -> bool {
    let (v, c) = shift_imm_spec(kind, s.operand(mid3(instr)), off5(instr), s.flag(FLAG_C));
    ArmCpu::alu_done(s, t, lo3(instr), v, true, c, s.flag(FLAG_V))
}

fn thumb_shift_imm(cpu: &mut ArmCpu, instr: u32, kind: u32)
    requires
        old(cpu).wf(),
        kind < 3,
    ensures
        final(cpu).cycles >= old(cpu).cycles,
        final(cpu).wf(),
        post_shift_imm(*old(cpu), *final(cpu), instr, kind),
{
    let x = cpu.rget((instr / 8) % 8);
    let c = cpu.get_flag(FLAG_C);
    let v = cpu.get_flag(FLAG_V);
    let (r, co) = barrel_shift_imm(kind, x, (instr / 64) % 32, c);
    cpu.write_alu(instr % 8, r, true, co, v);
}

/// Add/subtract with a register or 3-bit immediate: bit 9 subtracts, bit 10
/// takes the immediate.
pub open spec fn post_add_sub(s: ArmCpu, t: ArmCpu, instr: u32) -> bool {
    let op = (instr / 512) % 4;
    let a = s.operand(mid3(instr));
    let b = if op >= 2 { hi3(instr) as u32 } else { s.operand(hi3(instr)) };
    let (v, c, o) = if op % 2 == 1 { add_with_carry_spec(a, !b, true) } else { add_with_carry_spec(a, b, false) };
    ArmCpu::alu_done(s, t, lo3(instr), v, true, c, o)
}

fn thumb_add_sub(cpu: &mut ArmCpu, instr: u32)
    requires
        old(cpu).wf(),
    ensures
        final(cpu).cycles >= old(cpu).cycles,
        final(cpu).wf(),
        post_add_sub(*old(cpu), *final(cpu), instr),
{
    let op = (instr / 512) % 4;
    let a = cpu.rget((instr / 8) % 8);
    let b = if op >= 2 { (instr / 64) % 8 } else { cpu.rget((instr / 64) % 8) };
    let r = if op % 2 == 1 { add_with_carry(a, !b, true) } else { add_with_carry(a, b, false) };
    cpu.write_alu(instr % 8, r.value, true, r.carry, r.overflow);
}

/// MOV, CMP, ADD, SUB of an 8-bit immediate with r0..r7 (bits 12..11 pick).
pub open spec fn post_imm8(s: ArmCpu, t: ArmCpu, instr: u32) -> bool {
    let op = (instr / 2048) % 4;
    let rd = r8f(instr);
    let imm = instr % 256;
    let a = s.operand(rd);
    if op == 0 {
        ArmCpu::alu_done(s, t, rd, imm, true, s.flag(FLAG_C), s.flag(FLAG_V))
    } else if op == 1 {
        let (v, c, o) = add_with_carry_spec(a, !imm, true);
        ArmCpu::flags_done(s, t, v >= 0x8000_0000, v == 0, c, o)
    } else if op == 2 {
        let (v, c, o) = add_with_carry_spec(a, imm, false);
        ArmCpu::alu_done(s, t, rd, v, true, c, o)
    } else {
        let (v, c, o) = add_with_carry_spec(a, !imm, true);
        ArmCpu::alu_done(s, t, rd, v, true, c, o)
    }
}

fn thumb_imm8(cpu: &mut ArmCpu, instr: u32)
    requires
        old(cpu).wf(),
    ensures
        final(cpu).cycles >= old(cpu).cycles,
        final(cpu).wf(),
        post_imm8(*old(cpu), *final(cpu), instr),
{
    let op = (instr / 2048) % 4;
    let rd = (instr / 256) % 8;
    let imm = instr % 256;
    let a = cpu.rget(rd);
    let c = cpu.get_flag(FLAG_C);
    let v = cpu.get_flag(FLAG_V);
    if op == 0 {
        cpu.write_alu(rd, imm, true, c, v);
    } else if op == 1 {
        let r = add_with_carry(a, !imm, true);
        cpu.write_flags(r.value >= 0x8000_0000, r.value == 0, r.carry, r.overflow);
    } else if op == 2 {
        let r = add_with_carry(a, imm, false);
        cpu.write_alu(rd, r.value, true, r.carry, r.overflow);
    } else {
        let r = add_with_carry(a, !imm, true);
        cpu.write_alu(rd, r.value, true, r.carry, r.overflow);
    }
}

/// The sixteen data-processing operations on r0..r7 (`op` is bits 9..6).
pub open spec fn post_dp(s: ArmCpu, t: ArmCpu, op: u32, instr: u32) -> bool {
    let rd = lo3(instr);
    let a = s.operand(rd);
    let b = s.operand(mid3(instr));
    let c = s.flag(FLAG_C);
    let v = s.flag(FLAG_V);
    if op == 0 {
        ArmCpu::alu_done(s, t, rd, a & b, true, c, v)
    } else if op == 1 {
        ArmCpu::alu_done(s, t, rd, a ^ b, true, c, v)
    } else if op == 2 || op == 3 || op == 4 || op == 7 {
        let kind: u32 = if op == 2 { 0 } else if op == 3 { 1 } else if op == 4 { 2 } else { 3 };
        let (r, co) = shift_reg_spec(kind, a, b & 0xff, c);
        ArmCpu::alu_done(s, t, rd, r, true, co, v)
    } else if op == 5 {
        let (r, co, o) = add_with_carry_spec(a, b, c);
        ArmCpu::alu_done(s, t, rd, r, true, co, o)
    } else if op == 6 {
        let (r, co, o) = add_with_carry_spec(a, !b, c);
        ArmCpu::alu_done(s, t, rd, r, true, co, o)
    } else if op == 8 {
        ArmCpu::flags_done(s, t, a & b >= 0x8000_0000, a & b == 0, c, v)
    } else if op == 9 {
        let (r, co, o) = add_with_carry_spec(0, !b, true);
        ArmCpu::alu_done(s, t, rd, r, true, co, o)
    } else if op == 10 {
        let (r, co, o) = add_with_carry_spec(a, !b, true);
        ArmCpu::flags_done(s, t, r >= 0x8000_0000, r == 0, co, o)
    } else if op == 11 {
        let (r, co, o) = add_with_carry_spec(a, b, false);
        ArmCpu::flags_done(s, t, r >= 0x8000_0000, r == 0, co, o)
    } else if op == 12 {
        ArmCpu::alu_done(s, t, rd, a | b, true, c, v)
    } else if op == 13 {
        ArmCpu::alu_done(s, t, rd, ((a as int * b as int) % 0x1_0000_0000) as u32, true, c, v)
    } else if op == 14 {
        ArmCpu::alu_done(s, t, rd, a & !b, true, c, v)
    } else {
        ArmCpu::alu_done(s, t, rd, !b, true, c, v)
    }
}

/// Runs data-processing operation `instr_idx` (bits 9..6 of `instr`).
pub fn run_instr_dp(cpu: &mut ArmCpu, instr_idx: u32, instr: u32)
    requires
        old(cpu).wf(),
        instr_idx < 16,
    ensures
        final(cpu).cycles >= old(cpu).cycles,
        final(cpu).wf(),
        post_dp(*old(cpu), *final(cpu), instr_idx, instr),
{
    let rd = instr % 8;
    let a = cpu.rget(rd);
    let b = cpu.rget((instr / 8) % 8);
    let c = cpu.get_flag(FLAG_C);
    let v = cpu.get_flag(FLAG_V);
    let op = instr_idx;
    if op == 0 {
        cpu.write_alu(rd, a & b, true, c, v);
    } else if op == 1 {
        cpu.write_alu(rd, a ^ b, true, c, v);
    } else if op == 2 || op == 3 || op == 4 || op == 7 {
        let kind: u32 = if op == 2 { 0 } else if op == 3 { 1 } else if op == 4 { 2 } else { 3 };
        let (r, co) = barrel_shift_reg(kind, a, b, c);
        cpu.write_alu(rd, r, true, co, v);
    } else if op == 5 {
        let r = add_with_carry(a, b, c);
        cpu.write_alu(rd, r.value, true, r.carry, r.overflow);
    } else if op == 6 {
        let r = add_with_carry(a, !b, c);
        cpu.write_alu(rd, r.value, true, r.carry, r.overflow);
    } else if op == 8 {
        let r = a & b;
        cpu.write_flags(r >= 0x8000_0000, r == 0, c, v);
    } else if op == 9 {
        let r = add_with_carry(0, !b, true);
        cpu.write_alu(rd, r.value, true, r.carry, r.overflow);
    } else if op == 10 {
        let r = add_with_carry(a, !b, true);
        cpu.write_flags(r.value >= 0x8000_0000, r.value == 0, r.carry, r.overflow);
    } else if op == 11 {
        let r = add_with_carry(a, b, false);
        cpu.write_flags(r.value >= 0x8000_0000, r.value == 0, r.carry, r.overflow);
    } else if op == 12 {
        cpu.write_alu(rd, a | b, true, c, v);
    } else if op == 13 {
        cpu.write_alu(rd, a.wrapping_mul(b), true, c, v);
    } else if op == 14 {
        cpu.write_alu(rd, a & !b, true, c, v);
    } else {
        cpu.write_alu(rd, !b, true, c, v);
    }
}

/// `t` is `s` with the memory map replaced by `m`.
pub open spec fn mem_stored(s: ArmCpu, t: ArmCpu, m: crate::memory::MemView) -> bool {
    t.registers == s.registers && t.memory@ == m && t.branched == s.branched
}

/// Register written by an instruction: r15 branches, the others as ALU
/// results without flags.
pub open spec fn written(s: ArmCpu, t: ArmCpu, rd: int, v: u32) -> bool {
    if rd == 15 {
        ArmCpu::reg_written(s, t, 15, v)
    } else {
        ArmCpu::alu_done(s, t, rd, v, false, false, false)
    }
}

pub fn write_reg(cpu: &mut ArmCpu, rd: u32, v: u32)
    requires
        old(cpu).wf(),
        rd < 16,
    ensures
        final(cpu).cycles >= old(cpu).cycles,
        final(cpu).wf(),
        written(*old(cpu), *final(cpu), rd as int, v),
{
    if rd == 15 {
        cpu.rset(15, v);
    } else {
        cpu.write_alu(rd, v, false, false, false);
    }
}

/// ADD, CMP and MOV on all sixteen registers, and BX (bits 9..8 pick).
pub open spec fn post_hi(s: ArmCpu, t: ArmCpu, instr: u32) -> bool {
    let op = (instr / 256) % 4;
    let rd = lo3(instr) + ((instr / 128) % 2) * 8;
    let rs = ((instr / 8) % 16) as int;
    let a = s.operand(rd);
    let b = s.operand(rs);
    if op == 0 {
        written(s, t, rd, add32(a, b as int))
    } else if op == 1 {
        let (v, c, o) = add_with_carry_spec(a, !b, true);
        ArmCpu::flags_done(s, t, v >= 0x8000_0000, v == 0, c, o)
    } else if op == 2 {
        written(s, t, rd, b)
    } else {
        &&& t.thumb() == (b % 2 == 1)
        &&& t.pc() == pc_align(b, b % 2 == 1)
        &&& forall|r: int| 0 <= r < 15 ==> t.registers.reg(r) == s.registers.reg(r)
        &&& t.memory@ == s.memory@
        &&& t.branched
    }
}

fn thumb_hi(cpu: &mut ArmCpu, instr: u32)
    requires
        old(cpu).wf(),
    ensures
        final(cpu).cycles >= old(cpu).cycles,
        final(cpu).wf(),
        post_hi(*old(cpu), *final(cpu), instr),
{
    let op = (instr / 256) % 4;
    let rd = instr % 8 + ((instr / 128) % 2) * 8;
    let rs = (instr / 8) % 16;
    let a = cpu.rget(rd);
    let b = cpu.rget(rs);
    if op == 0 {
        write_reg(cpu, rd, a.wrapping_add(b));
    } else if op == 1 {
        let r = add_with_carry(a, !b, true);
        cpu.write_flags(r.value >= 0x8000_0000, r.value == 0, r.carry, r.overflow);
    } else if op == 2 {
        write_reg(cpu, rd, b);
    } else {
        cpu.branch_exchange(b);
    }
}

/// PC-relative load: `Rd = [(PC + 4) & !3 + imm8 * 4]`.
pub open spec fn post_ldr_pc(s: ArmCpu, t: ArmCpu, instr: u32) -> bool {
    let pc = s.operand(15);
    let addr = add32((pc - pc % 4) as u32, (instr % 256) as int * 4);
    ArmCpu::alu_done(s, t, r8f(instr), s.mem().load32(addr), false, false, false)
}

fn thumb_ldr_pc(cpu: &mut ArmCpu, instr: u32)
    requires
        old(cpu).wf(),
    ensures
        final(cpu).cycles >= old(cpu).cycles,
        final(cpu).wf(),
        post_ldr_pc(*old(cpu), *final(cpu), instr),
{
    let pc = cpu.rget(15);
    let addr = (pc - pc % 4).wrapping_add((instr % 256) * 4);
    let v = cpu.mread32(addr);
    cpu.write_alu((instr / 256) % 8, v, false, false, false);
}

/// Loads and stores of word, halfword, byte and signed byte or halfword;
/// `op` 0..7 is STR, STRH, STRB, LDRSB, LDR, LDRH, LDRB, LDRSH.
pub open spec fn post_transfer(s: ArmCpu, t: ArmCpu, op: u32, rd: int, addr: u32) -> bool {
    let v = s.operand(rd);
    let m = s.mem();
    if op == 0 {
        mem_stored(s, t, m.store32(addr, v))
    } else if op == 1 {
        mem_stored(s, t, m.store16(addr, (v % 0x1_0000) as u16))
    } else if op == 2 {
        mem_stored(s, t, m.store8(addr, (v % 0x100) as u8))
    } else if op == 3 {
        ArmCpu::alu_done(s, t, rd, sext8(m.load8(addr)), false, false, false)
    } else if op == 4 {
        ArmCpu::alu_done(s, t, rd, m.load32(addr), false, false, false)
    } else if op == 5 {
        ArmCpu::alu_done(s, t, rd, m.load16(addr) as u32, false, false, false)
    } else if op == 6 {
        ArmCpu::alu_done(s, t, rd, m.load8(addr) as u32, false, false, false)
    } else {
        ArmCpu::alu_done(s, t, rd, sext16(m.load16(addr)), false, false, false)
    }
}

fn transfer(cpu: &mut ArmCpu, op: u32, rd: u32, addr: u32)
    requires
        old(cpu).wf(),
        op < 8,
        rd < 8,
    ensures
        final(cpu).cycles >= old(cpu).cycles,
        final(cpu).wf(),
        post_transfer(*old(cpu), *final(cpu), op, rd as int, addr),
{
    reveal(post_transfer);
    let v = cpu.rget(rd);
    if op == 0 {
        cpu.mwrite32(addr, v);
    } else if op == 1 {
        cpu.mwrite16(addr, (v % 0x1_0000) as u16);
    } else if op == 2 {
        cpu.mwrite8(addr, (v % 0x100) as u8);
    } else if op == 3 {
        let b = cpu.mread8(addr);
        let w = if b >= 128 { b as u32 + 0xffff_ff00 } else { b as u32 };
        cpu.write_alu(rd, w, false, false, false);
    } else if op == 4 {
        let w = cpu.mread32(addr);
        cpu.write_alu(rd, w, false, false, false);
    } else if op == 5 {
        let h = cpu.mread16(addr);
        cpu.write_alu(rd, h as u32, false, false, false);
    } else if op == 6 {
        let b = cpu.mread8(addr);
        cpu.write_alu(rd, b as u32, false, false, false);
    } else {
        let h = cpu.mread16(addr);
        let w = if h >= 0x8000 { h as u32 + 0xffff_0000 } else { h as u32 };
        cpu.write_alu(rd, w, false, false, false);
    }
}

/// Register-offset transfer: address `Rb + Ro`, operation in bits 11..9.
pub open spec fn post_ldst_reg(s: ArmCpu, t: ArmCpu, instr: u32) -> bool {
    let addr = add32(s.operand(mid3(instr)), s.operand(hi3(instr)) as int);
    post_transfer(s, t, (instr / 512) % 8, lo3(instr), addr)
}

fn thumb_ldst_reg(cpu: &mut ArmCpu, instr: u32)
    requires
        old(cpu).wf(),
    ensures
        final(cpu).cycles >= old(cpu).cycles,
        final(cpu).wf(),
        post_ldst_reg(*old(cpu), *final(cpu), instr),
{
    let rb = (instr / 8) % 8;
    let ro = (instr / 64) % 8;
    let op = (instr / 512) % 8;
    let rd = instr % 8;
    let a = cpu.rget(rb);
    let b = cpu.rget(ro);
    let addr = a.wrapping_add(b);
    assert(addr == add32(cpu.operand(mid3(instr)), cpu.operand(hi3(instr)) as int));
    transfer(cpu, op, rd, addr);
}

/// Operation and offset scale of an immediate-offset transfer, by the top
/// five bits of the instruction (0x0c..0x11).
pub open spec fn imm_form(top5: u32) -> (u32, u32) {
    if top5 == 0x0c { (0, 4) }
    else if top5 == 0x0d { (4, 4) }
    else if top5 == 0x0e { (2, 1) }
    else if top5 == 0x0f { (6, 1) }
    else if top5 == 0x10 { (1, 2) }
    else { (5, 2) }
}

/// Immediate-offset transfer: address `Rb + imm5 * size`.
pub open spec fn post_ldst_imm(s: ArmCpu, t: ArmCpu, instr: u32) -> bool {
    let (op, scale) = imm_form((instr / 2048) % 32);
    let addr = add32(s.operand(mid3(instr)), off5(instr) as int * scale as int);
    post_transfer(s, t, op, lo3(instr), addr)
}

fn thumb_ldst_imm(cpu: &mut ArmCpu, instr: u32)
    requires
        old(cpu).wf(),
    ensures
        final(cpu).cycles >= old(cpu).cycles,
        final(cpu).wf(),
        post_ldst_imm(*old(cpu), *final(cpu), instr),
{
    let top5 = (instr / 2048) % 32;
    let (op, scale): (u32, u32) = if top5 == 0x0c { (0, 4) }
        else if top5 == 0x0d { (4, 4) }
        else if top5 == 0x0e { (2, 1) }
        else if top5 == 0x0f { (6, 1) }
        else if top5 == 0x10 { (1, 2) }
        else { (5, 2) };
    let rb = (instr / 8) % 8;
    let rd = instr % 8;
    let base = cpu.rget(rb);
    let addr = base.wrapping_add(((instr / 64) % 32) * scale);
    assert(addr == add32(cpu.operand(mid3(instr)), off5(instr) as int * scale as int));
    assert((op, scale) == imm_form(top5));
    transfer(cpu, op, rd, addr);
}

/// SP-relative transfer: `[SP + imm8 * 4]`, bit 11 loads.
pub open spec fn post_ldst_sp(s: ArmCpu, t: ArmCpu, instr: u32) -> bool {
    let addr = add32(s.operand(13), (instr % 256) as int * 4);
    post_transfer(s, t, if (instr / 2048) % 2 == 1 { 4 } else { 0 }, r8f(instr), addr)
}

fn thumb_ldst_sp(cpu: &mut ArmCpu, instr: u32)
    requires
        old(cpu).wf(),
    ensures
        final(cpu).cycles >= old(cpu).cycles,
        final(cpu).wf(),
        post_ldst_sp(*old(cpu), *final(cpu), instr),
{
    let sp = cpu.rget(13);
    let addr = sp.wrapping_add((instr % 256) * 4);
    let op: u32 = if (instr / 2048) % 2 == 1 { 4 } else { 0 };
    let rd = (instr / 256) % 8;
    assert(addr == add32(cpu.operand(13), (instr % 256) as int * 4));
    transfer(cpu, op, rd, addr);
}

/// Address of a PC- or SP-relative location: `Rd = base + imm8 * 4`, the
/// base being SP when bit 11 is set, else the word-aligned PC.
pub open spec fn post_add_addr(s: ArmCpu, t: ArmCpu, instr: u32) -> bool {
    let pc = s.operand(15);
    let base = if (instr / 2048) % 2 == 1 { s.operand(13) } else { (pc - pc % 4) as u32 };
    ArmCpu::alu_done(s, t, r8f(instr), add32(base, (instr % 256) as int * 4), false, false, false)
}

fn thumb_add_addr(cpu: &mut ArmCpu, instr: u32)
    requires
        old(cpu).wf(),
    ensures
        final(cpu).cycles >= old(cpu).cycles,
        final(cpu).wf(),
        post_add_addr(*old(cpu), *final(cpu), instr),
{
    let pc = cpu.rget(15);
    let base = if (instr / 2048) % 2 == 1 { cpu.rget(13) } else { pc - pc % 4 };
    cpu.write_alu((instr / 256) % 8, base.wrapping_add((instr % 256) * 4), false, false, false);
}

/// SP adjust: `SP = SP +/- imm7 * 4`, bit 7 subtracts.
pub open spec fn post_add_sp(s: ArmCpu, t: ArmCpu, instr: u32) -> bool {
    let imm = (instr % 128) as int * 4;
    let sp = s.operand(13);
    ArmCpu::alu_done(s, t, 13, if (instr / 128) % 2 == 1 { add32(sp, -imm) } else { add32(sp, imm) }, false, false, false)
}

fn thumb_add_sp(cpu: &mut ArmCpu, instr: u32)
    requires
        old(cpu).wf(),
    ensures
        final(cpu).cycles >= old(cpu).cycles,
        final(cpu).wf(),
        post_add_sp(*old(cpu), *final(cpu), instr),
{
    let imm = (instr % 128) * 4;
    let sp = cpu.rget(13);
    let v = if (instr / 128) % 2 == 1 { sp.wrapping_sub(imm) } else { sp.wrapping_add(imm) };
    cpu.write_alu(13, v, false, false, false);
}



/// Register list of PUSH (r0..r7, and LR when `lr`).
pub open spec fn push_list(instr: u32, lr: bool) -> u32 {
    (instr % 256 + (if lr { 0x4000int } else { 0int })) as u32
}

/// Register list of POP (r0..r7, and PC when `pc`).
pub open spec fn pop_list(instr: u32, pc: bool) -> u32 {
    (instr % 256 + (if pc { 0x8000int } else { 0int })) as u32
}

/// A block store of `list` from `base` upwards, with `rb` then set to `wb`.
pub open spec fn stm_wb_done(s: ArmCpu, t: ArmCpu, base: u32, list: u32, rb: int, wb: u32) -> bool {
    &&& t.memory@ == stm_mem(s.mem(), base, stm_values(s, false), list, 16)
    &&& t.registers.cpsr == s.registers.cpsr
    &&& t.registers.spsr == s.registers.spsr
    &&& t.registers.phys@ == s.registers.phys@.update(phys_index(s.registers.mode(), rb), wb)
    &&& t.branched == s.branched
}

/// A block load of `list` from `base` upwards, with `rb` then set to `wb`
/// unless `rb` was loaded.
pub open spec fn ldm_wb_done(s: ArmCpu, t: ArmCpu, base: u32, list: u32, rb: int, wb: u32) -> bool {
    let load = |k: int| s.mem().load32(crate::transfer::slot_addr(base, list, k));
    &&& forall|k: int| 0 <= k < 15 && k != rb ==> #[trigger] t.registers.reg(k) == (if crate::transfer::in_list(list, k) {
        load(k)
    } else {
        s.registers.reg(k)
    })
    &&& t.registers.reg(rb) == (if crate::transfer::in_list(list, rb) { load(rb) } else { wb })
    &&& t.pc() == (if crate::transfer::in_list(list, 15) { pc_align(load(15), s.thumb()) } else { s.pc() })
    &&& t.registers.cpsr == s.registers.cpsr
    &&& t.registers.spsr == s.registers.spsr
    &&& t.memory@ == s.memory@
    &&& t.branched == (s.branched || crate::transfer::in_list(list, 15))
}

pub fn store_block(cpu: &mut ArmCpu, base: u32, list: u32, rb: u32, wb: u32)
    requires
        old(cpu).wf(),
        rb < 15,
    ensures
        final(cpu).cycles >= old(cpu).cycles,
        final(cpu).wf(),
        stm_wb_done(*old(cpu), *final(cpu), base, list, rb as int, wb),
{
    store_multiple(cpu, base, list, false);
    cpu.write_alu(rb, wb, false, false, false);
}

pub fn load_block(cpu: &mut ArmCpu, base: u32, list: u32, rb: u32, wb: u32)
    requires
        old(cpu).wf(),
        rb < 15,
    ensures
        final(cpu).cycles >= old(cpu).cycles,
        final(cpu).wf(),
        ldm_wb_done(*old(cpu), *final(cpu), base, list, rb as int, wb),
{
    let ghost s = *cpu;
    load_multiple(cpu, base, list, false);
    if !crate::transfer::in_list_exec(list, rb) {
        let ghost mid = *cpu;
        cpu.write_alu(rb, wb, false, false, false);
        proof {
            assert forall|k: int| 0 <= k < 15 && k != rb implies #[trigger] cpu.registers.reg(k)
                == mid.registers.reg(k) by {
                assert(phys_index(s.registers.mode(), k) != phys_index(s.registers.mode(), rb as int));
            }
        }
    }
}

/// PUSH: the registers of the list go below SP, lowest at the lowest
/// address, and SP moves down over them.
pub open spec fn post_push(s: ArmCpu, t: ArmCpu, instr: u32, lr: bool) -> bool {
    let list = push_list(instr, lr);
    let base = add32(s.operand(13), -4 * bits_below(list, 16) as int);
    stm_wb_done(s, t, base, list, 13, base)
}

pub fn thumb_push(cpu: &mut ArmCpu, instr: u32, lr: bool)
    requires
        old(cpu).wf(),
    ensures
        final(cpu).cycles >= old(cpu).cycles,
        final(cpu).wf(),
        post_push(*old(cpu), *final(cpu), instr, lr),
{
    let list: u32 = instr % 256 + if lr { 0x4000 } else { 0 };
    let n = count_list(list);
    let base = cpu.rget(13).wrapping_sub(4 * n);
    store_block(cpu, base, list, 13, base);
}

/// POP: the registers of the list come from SP upwards, and SP moves up
/// over them.
pub open spec fn post_pop(s: ArmCpu, t: ArmCpu, instr: u32, pc: bool) -> bool {
    let list = pop_list(instr, pc);
    let sp = s.operand(13);
    ldm_wb_done(s, t, sp, list, 13, add32(sp, 4 * bits_below(list, 16) as int))
}

pub fn thumb_pop(cpu: &mut ArmCpu, instr: u32, pc: bool)
    requires
        old(cpu).wf(),
    ensures
        final(cpu).cycles >= old(cpu).cycles,
        final(cpu).wf(),
        post_pop(*old(cpu), *final(cpu), instr, pc),
{
    let list: u32 = instr % 256 + if pc { 0x8000 } else { 0 };
    let n = count_list(list);
    let sp = cpu.rget(13);
    load_block(cpu, sp, list, 13, sp.wrapping_add(4 * n));
}

/// STMIA: the list goes upwards from Rb, which then points past it.
pub open spec fn post_stmia(s: ArmCpu, t: ArmCpu, instr: u32) -> bool {
    let list = instr % 256;
    let base = s.operand(r8f(instr));
    stm_wb_done(s, t, base, list, r8f(instr), add32(base, 4 * bits_below(list, 16) as int))
}

fn thumb_stmia(cpu: &mut ArmCpu, instr: u32)
    requires
        old(cpu).wf(),
    ensures
        final(cpu).cycles >= old(cpu).cycles,
        final(cpu).wf(),
        post_stmia(*old(cpu), *final(cpu), instr),
{
    let list = instr % 256;
    let rb = (instr / 256) % 8;
    let n = count_list(list);
    let base = cpu.rget(rb);
    store_block(cpu, base, list, rb, base.wrapping_add(4 * n));
}

/// LDMIA: the list comes upwards from Rb, which then points past it unless
/// it was loaded.
pub open spec fn post_ldmia(s: ArmCpu, t: ArmCpu, instr: u32) -> bool {
    let list = instr % 256;
    let base = s.operand(r8f(instr));
    ldm_wb_done(s, t, base, list, r8f(instr), add32(base, 4 * bits_below(list, 16) as int))
}

fn thumb_ldmia(cpu: &mut ArmCpu, instr: u32)
    requires
        old(cpu).wf(),
    ensures
        final(cpu).cycles >= old(cpu).cycles,
        final(cpu).wf(),
        post_ldmia(*old(cpu), *final(cpu), instr),
{
    let list = instr % 256;
    let rb = (instr / 256) % 8;
    let n = count_list(list);
    let base = cpu.rget(rb);
    load_block(cpu, base, list, rb, base.wrapping_add(4 * n));
}

/// Offset of a conditional branch: the signed byte times two, as a word.
pub open spec fn branch_off8(instr: u32) -> u32 {
    let i = instr % 256;
    if i >= 128 { (i * 2 + 0xffff_fe00) as u32 } else { (i * 2) as u32 }
}

/// Offset of an unconditional branch: the signed 11 bits times two.
pub open spec fn branch_off11(instr: u32) -> u32 {
    let i = instr % 2048;
    if i >= 1024 { (i * 2 + 0xffff_f000) as u32 } else { (i * 2) as u32 }
}

/// Upper part of a long branch: the signed 11 bits shifted left by 12.
pub open spec fn bl_high(instr: u32) -> u32 {
    let i = instr % 2048;
    if i >= 1024 { (i * 4096 + 0xff80_0000) as u32 } else { (i * 4096) as u32 }
}

/// Conditional branch: taken when the condition in bits 11..8 holds.
pub open spec fn post_cond_branch(s: ArmCpu, t: ArmCpu, instr: u32) -> bool {
    if cond_passed((instr / 256) % 16, s.registers.cpsr) {
        ArmCpu::reg_written(s, t, 15, add32(s.operand(15), branch_off8(instr) as int))
    } else {
        t == s
    }
}

fn thumb_cond_branch(cpu: &mut ArmCpu, instr: u32)
    requires
        old(cpu).wf(),
    ensures
        final(cpu).cycles >= old(cpu).cycles,
        final(cpu).wf(),
        post_cond_branch(*old(cpu), *final(cpu), instr),
{
    if cpu.check_cond((instr / 256) % 16) {
        let i = instr % 256;
        let off: u32 = if i >= 128 { i * 2 + 0xffff_fe00 } else { i * 2 };
        let target = cpu.rget(15).wrapping_add(off);
        cpu.rset(15, target);
    }
}

pub open spec fn post_branch(s: ArmCpu, t: ArmCpu, instr: u32) -> bool {
    ArmCpu::reg_written(s, t, 15, add32(s.operand(15), branch_off11(instr) as int))
}

fn thumb_b(cpu: &mut ArmCpu, instr: u32)
    requires
        old(cpu).wf(),
    ensures
        final(cpu).cycles >= old(cpu).cycles,
        final(cpu).wf(),
        post_branch(*old(cpu), *final(cpu), instr),
{
    let i = instr % 2048;
    let off: u32 = if i >= 1024 { i * 2 + 0xffff_f000 } else { i * 2 };
    let target = cpu.rget(15).wrapping_add(off);
    cpu.rset(15, target);
}

/// First half of a long branch with link: LR takes PC + 4 plus the upper
/// offset.
pub open spec fn post_bl_setup(s: ArmCpu, t: ArmCpu, instr: u32) -> bool {
    ArmCpu::alu_done(s, t, 14, add32(s.operand(15), bl_high(instr) as int), false, false, false)
}

fn thumb_bl_setup(cpu: &mut ArmCpu, instr: u32)
    requires
        old(cpu).wf(),
    ensures
        final(cpu).cycles >= old(cpu).cycles,
        final(cpu).wf(),
        post_bl_setup(*old(cpu), *final(cpu), instr),
{
    let i = instr % 2048;
    let hi: u32 = if i >= 1024 { i * 4096 + 0xff80_0000 } else { i * 4096 };
    let lr = cpu.rget(15).wrapping_add(hi);
    cpu.write_alu(14, lr, false, false, false);
}

/// Second half: the PC takes LR plus the lower offset, and LR the address
/// of the next instruction with bit 0 set.
pub open spec fn post_bl_off(s: ArmCpu, t: ArmCpu, instr: u32) -> bool {
    let target = add32(s.registers.reg(14), (instr % 2048) as int * 2);
    let link = add32(s.pc(), 2) | 1;
    &&& t.registers.phys@ == s.registers.phys@.update(phys_index(s.registers.mode(), 14), link).update(
        15,
        pc_align(target, s.thumb()),
    )
    &&& t.registers.cpsr == s.registers.cpsr
    &&& t.registers.spsr == s.registers.spsr
    &&& t.memory@ == s.memory@
    &&& t.branched
}

fn thumb_bl_off(cpu: &mut ArmCpu, instr: u32)
    requires
        old(cpu).wf(),
    ensures
        final(cpu).cycles >= old(cpu).cycles,
        final(cpu).wf(),
        post_bl_off(*old(cpu), *final(cpu), instr),
{
    let target = cpu.rget(14).wrapping_add((instr % 2048) * 2);
    let link = cpu.get_pc().wrapping_add(2) | 1;
    cpu.write_alu(14, link, false, false, false);
    cpu.rset(15, target);
}

/// Software interrupt or undefined instruction: the exception is entered
/// with the address of the next instruction as return address.
pub open spec fn post_trap(s: ArmCpu, t: ArmCpu, k: ExceptionKind) -> bool {
    ArmCpu::exception_entered(s, t, k, add32(s.pc(), 2))
}

fn thumb_trap(cpu: &mut ArmCpu, k: ExceptionKind)
    requires
        old(cpu).wf(),
    ensures
        final(cpu).cycles >= old(cpu).cycles,
        final(cpu).wf(),
        post_trap(*old(cpu), *final(cpu), k),
{
    let ret = cpu.get_pc().wrapping_add(2);
    cpu.enter_exception(k, ret);
}

/// What the instruction `instr`, whose top byte is `idx`, does.
#[verifier::opaque]
pub open spec fn thumb_post(s: ArmCpu, t: ArmCpu, idx: u32, instr: u32) -> bool {
    if idx < 0x08 { post_shift_imm(s, t, instr, 0) }
    else if idx < 0x10 { post_shift_imm(s, t, instr, 1) }
    else if idx < 0x18 { post_shift_imm(s, t, instr, 2) }
    else if idx < 0x20 { post_add_sub(s, t, instr) }
    else if idx < 0x40 { post_imm8(s, t, instr) }
    else if idx < 0x44 { post_dp(s, t, (instr / 64) % 16, instr) }
    else if idx < 0x48 { post_hi(s, t, instr) }
    else if idx < 0x50 { post_ldr_pc(s, t, instr) }
    else if idx < 0x60 { post_ldst_reg(s, t, instr) }
    else if idx < 0x90 { post_ldst_imm(s, t, instr) }
    else if idx < 0xa0 { post_ldst_sp(s, t, instr) }
    else if idx < 0xb0 { post_add_addr(s, t, instr) }
    else if idx == 0xb0 { post_add_sp(s, t, instr) }
    else if idx == 0xb4 || idx == 0xb5 { post_push(s, t, instr, idx == 0xb5) }
    else if idx == 0xbc || idx == 0xbd { post_pop(s, t, instr, idx == 0xbd) }
    else if 0xc0 <= idx < 0xc8 { post_stmia(s, t, instr) }
    else if 0xc8 <= idx < 0xd0 { post_ldmia(s, t, instr) }
    else if 0xd0 <= idx < 0xde { post_cond_branch(s, t, instr) }
    else if idx == 0xdf { post_trap(s, t, ExceptionKind::SoftwareInterrupt) }
    else if 0xe0 <= idx < 0xe8 { post_branch(s, t, instr) }
    else if 0xf0 <= idx < 0xf8 { post_bl_setup(s, t, instr) }
    else if 0xf8 <= idx < 0x100 { post_bl_off(s, t, instr) }
    else { post_trap(s, t, ExceptionKind::Undefined) }
}

/// Executes Thumb instruction `instr` through the handler its top byte
/// `instr_idx` selects.
pub fn run_instr(cpu: &mut ArmCpu, instr_idx: u32, instr: u32)
    requires
        old(cpu).wf(),
        instr_idx < 256,
    ensures
        final(cpu).cycles >= old(cpu).cycles,
        final(cpu).wf(),
        thumb_post(*old(cpu), *final(cpu), instr_idx, instr),
{
    reveal(thumb_post);
    let idx = instr_idx;
    if idx < 0x08 { thumb_shift_imm(cpu, instr, 0); }
    else if idx < 0x10 { thumb_shift_imm(cpu, instr, 1); }
    else if idx < 0x18 { thumb_shift_imm(cpu, instr, 2); }
    else if idx < 0x20 { thumb_add_sub(cpu, instr); }
    else if idx < 0x40 { thumb_imm8(cpu, instr); }
    else if idx < 0x44 { run_instr_dp(cpu, (instr / 64) % 16, instr); }
    else if idx < 0x48 { thumb_hi(cpu, instr); }
    else if idx < 0x50 { thumb_ldr_pc(cpu, instr); }
    else if idx < 0x60 { thumb_ldst_reg(cpu, instr); }
    else if idx < 0x90 { thumb_ldst_imm(cpu, instr); }
    else if idx < 0xa0 { thumb_ldst_sp(cpu, instr); }
    else if idx < 0xb0 { thumb_add_addr(cpu, instr); }
    else if idx == 0xb0 { thumb_add_sp(cpu, instr); }
    else if idx == 0xb4 || idx == 0xb5 { thumb_push(cpu, instr, idx == 0xb5); }
    else if idx == 0xbc || idx == 0xbd { thumb_pop(cpu, instr, idx == 0xbd); }
    else if 0xc0 <= idx && idx < 0xc8 { thumb_stmia(cpu, instr); }
    else if 0xc8 <= idx && idx < 0xd0 { thumb_ldmia(cpu, instr); }
    else if 0xd0 <= idx && idx < 0xde { thumb_cond_branch(cpu, instr); }
    else if idx == 0xdf { thumb_trap(cpu, ExceptionKind::SoftwareInterrupt); }
    else if 0xe0 <= idx && idx < 0xe8 { thumb_b(cpu, instr); }
    else if 0xf0 <= idx && idx < 0xf8 { thumb_bl_setup(cpu, instr); }
    else if 0xf8 <= idx { thumb_bl_off(cpu, instr); }
    else { thumb_trap(cpu, ExceptionKind::Undefined); }
}

/// Pushing a list of low registers and popping the same list restores every
/// register r0..r14, SP included, and leaves the PC, when the stack words lie
/// in one 32 KiB window of work RAM.
pub proof fn lemma_push_pop_round_trip(s: ArmCpu, t: ArmCpu, u: ArmCpu, push_instr: u32, pop_instr: u32)
    requires
        s.wf(),
        push_instr % 256 == pop_instr % 256,
        post_push(s, t, push_instr, false),
        post_pop(t, u, pop_instr, false),
        block_in_work_ram(s.mem(), add32(s.operand(13), -4 * bits_below(push_list(push_instr, false), 16) as int)),
    ensures
        forall|k: int| 0 <= k < 15 ==> #[trigger] u.registers.reg(k) == s.registers.reg(k),
        u.pc() == s.pc(),
        u.registers.cpsr == s.registers.cpsr,
{
    let list = push_list(push_instr, false);
    assert(pop_list(pop_instr, false) == list);
    let n = bits_below(list, 16) as int;
    let sp = s.operand(13);
    let base = add32(sp, -4 * n);
    let vals = stm_values(s, false);
    lemma_stm_then_load(s.mem(), base, vals, list, 16);
    assert(t.registers.mode() == s.registers.mode());
    assert(t.operand(13) == base);
    assert(!in_list(list, 15)) by {
        assert(list < 256);
    }
    assert(!in_list(list, 13)) by {
        assert(list < 256);
    }
    assert(add32(base, 4 * n) == sp) by {
        assert(0 <= n <= 16) by {
            crate::transfer::lemma_bits_below_bound(list, 16);
        }
    }
    assert forall|k: int| 0 <= k < 15 implies #[trigger] u.registers.reg(k) == s.registers.reg(k) by {
        if k != 13 {
            assert(t.registers.reg(k) == s.registers.reg(k));
            if in_list(list, k) {
                assert(k < 8) by {
                    assert(list < 256);
                    if k >= 8 {
                        assert(pow2_16(k) >= 256);
                    }
                }
                assert(vals[k] == s.operand(k));
            }
        }
    }
}

/// Pushing a list of low registers, running anything that keeps SP, the mode
/// and the pushed words, and then popping the same list gives each listed
/// register its pushed value back and SP its value before the push; the
/// other registers keep what they held before the pop. The pushed words must
/// lie in one 32 KiB window of work RAM.
pub proof fn lemma_push_then_pop(s: ArmCpu, t: ArmCpu, t2: ArmCpu, u: ArmCpu, push_instr: u32, pop_instr: u32)
    requires
        s.wf(),
        push_instr % 256 == pop_instr % 256,
        post_push(s, t, push_instr, false),
        block_in_work_ram(s.mem(), add32(s.operand(13), -4 * bits_below(push_list(push_instr, false), 16) as int)),
        t2.registers.mode() == s.registers.mode(),
        t2.registers.reg(13) == t.registers.reg(13),
        forall|k: int| 0 <= k < 8 && in_list(push_instr % 256, k) ==> #[trigger] t2.mem().load32(
            crate::transfer::slot_addr(t.registers.reg(13), push_instr % 256, k),
        ) == t.mem().load32(crate::transfer::slot_addr(t.registers.reg(13), push_instr % 256, k)),
        post_pop(t2, u, pop_instr, false),
    ensures
        forall|k: int| 0 <= k < 8 && in_list(push_instr % 256, k) ==> #[trigger] u.registers.reg(k) == s.registers.reg(k),
        forall|k: int| 0 <= k < 15 && k != 13 && !in_list(push_instr % 256, k) ==> #[trigger] u.registers.reg(k) == t2.registers.reg(k),
        u.registers.reg(13) == s.registers.reg(13),
        u.pc() == t2.pc(),
{
    let list = push_list(push_instr, false);
    assert(list == push_instr % 256);
    assert(pop_list(pop_instr, false) == list);
    let n = bits_below(list, 16) as int;
    let sp = s.operand(13);
    let base = add32(sp, -4 * n);
    let vals = stm_values(s, false);
    lemma_stm_then_load(s.mem(), base, vals, list, 16);
    assert(t.registers.mode() == s.registers.mode());
    assert(t.registers.reg(13) == base);
    assert(t2.operand(13) == base);
    assert(!in_list(list, 15)) by {
        assert(list < 256);
    }
    assert(!in_list(list, 13)) by {
        assert(list < 256);
    }
    assert(add32(base, 4 * n) == sp) by {
        assert(0 <= n <= 16) by {
            crate::transfer::lemma_bits_below_bound(list, 16);
        }
    }
    assert forall|k: int| 0 <= k < 8 && in_list(push_instr % 256, k) implies #[trigger] u.registers.reg(k) == s.registers.reg(k) by {
        assert(vals[k] == s.operand(k));
        assert(t2.mem().load32(crate::transfer::slot_addr(base, list, k)) == t.mem().load32(crate::transfer::slot_addr(base, list, k)));
    }
    assert forall|k: int| 0 <= k < 15 && k != 13 && !in_list(push_instr % 256, k) implies #[trigger] u.registers.reg(k) == t2.registers.reg(k) by {}
}

proof fn lemma_transfer_keeps_status(s: ArmCpu, t: ArmCpu, op: u32, rd: int, addr: u32)
    requires
        s.wf(),
        post_transfer(s, t, op, rd, addr),
    ensures
        hw_status_kept(s.mem(), t.mem()),
{
    reveal(post_transfer);
    let v = s.operand(rd);
    lemma_store32_keeps_status(s.mem(), addr, v);
    lemma_store16_keeps_status(s.mem(), addr, (v % 0x1_0000) as u16);
    lemma_store8_keeps_status(s.mem(), addr, (v % 0x100) as u8);
}

/// No Thumb instruction changes VCOUNT or the read-only bits of DISPSTAT:
/// CPU writes to them are masked.
pub proof fn lemma_thumb_keeps_status(s: ArmCpu, t: ArmCpu, idx: u32, instr: u32)
    requires
        s.wf(),
        idx < 256,
        thumb_post(s, t, idx, instr),
    ensures
        hw_status_kept(s.mem(), t.mem()),
{
    reveal(thumb_post);
    if 0x50 <= idx < 0x60 {
        lemma_transfer_keeps_status(s, t, (instr / 512) % 8, lo3(instr), add32(s.operand(mid3(instr)), s.operand(hi3(instr)) as int));
    } else if 0x60 <= idx < 0x90 {
        let (op, scale) = imm_form((instr / 2048) % 32);
        lemma_transfer_keeps_status(s, t, op, lo3(instr), add32(s.operand(mid3(instr)), off5(instr) as int * scale as int));
    } else if 0x90 <= idx < 0xa0 {
        lemma_transfer_keeps_status(s, t, if (instr / 2048) % 2 == 1 { 4 } else { 0 }, r8f(instr), add32(s.operand(13), (instr % 256) as int * 4));
    } else if idx == 0xb4 || idx == 0xb5 {
        let list = push_list(instr, idx == 0xb5);
        let base = add32(s.operand(13), -4 * bits_below(list, 16) as int);
        lemma_stm_keeps_status(s.mem(), base, stm_values(s, false), list, 16);
    } else if 0xc0 <= idx < 0xc8 {
        lemma_stm_keeps_status(s.mem(), s.operand(r8f(instr)), stm_values(s, false), instr % 256, 16);
    }
}

} // verus!
