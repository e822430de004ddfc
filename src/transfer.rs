use vstd::prelude::*;
use crate::cpu::{ArmCpu, pc_align, add32};
use crate::memory::{
    MemView, REGION_EWRAM, REGION_IWRAM, lemma_round_trip32, lemma_store32_other, lemma_store32_wf, mem_wf, hw_status_kept,
    lemma_store32_keeps_status,
};
use crate::registers::{phys_index, MODE_FIQ, MODE_USR, is_valid_mode};

verus! {

/// Whether register `i` is in the 16-bit register list `list`.
pub open spec fn in_list(list: u32, i: int) -> bool {
    (list / pow2_16(i)) % 2 == 1
}

/// 2 to the power `i`, for `0 <= i <= 16`.
pub open spec fn pow2_16(i: int) -> u32 {
    if i <= 0 { 1 } else if i == 1 { 2 } else if i == 2 { 4 } else if i == 3 { 8 }
    else if i == 4 { 16 } else if i == 5 { 32 } else if i == 6 { 64 } else if i == 7 { 128 }
    else if i == 8 { 256 } else if i == 9 { 512 } else if i == 10 { 1024 } else if i == 11 { 2048 }
    else if i == 12 { 4096 } else if i == 13 { 8192 } else if i == 14 { 16384 } else { 32768 }
}

/// Number of registers of `list` below register `i`: the word slot of
/// register `i` in a block transfer.
pub open spec fn bits_below(list: u32, i: int) -> nat
    decreases i,
{
    if i <= 0 {
        0
    } else {
        bits_below(list, i - 1) + (if in_list(list, i - 1) { 1nat } else { 0nat })
    }
}

/// Address of register `i`'s word in a block transfer starting at `base`.
pub open spec fn slot_addr(base: u32, list: u32, i: int) -> u32 {
    add32(base, 4 * bits_below(list, i) as int)
}

/// Memory after storing the first `i` registers of `list` (values `vals`)
/// upwards from `base`.
pub open spec fn stm_mem(m: MemView, base: u32, vals: Seq<u32>, list: u32, i: int) -> MemView
    decreases i,
{
    if i <= 0 {
        m
    } else {
        let prev = stm_mem(m, base, vals, list, i - 1);
        if in_list(list, i - 1) {
            prev.store32(slot_addr(base, list, i - 1), vals[i - 1])
        } else {
            prev
        }
    }
}

/// Register values that a block store sends: of the user bank when `user`,
/// else as operands of the current mode.
pub open spec fn stm_values(s: ArmCpu, user: bool) -> Seq<u32> {
    Seq::new(16, |i: int| if user && i < 15 { s.registers.reg_in(MODE_USR, i) } else { s.operand(i) })
}

pub fn in_list_exec(list: u32, i: u32) -> (b: bool)
    requires
        i < 16,
    ensures
        b == in_list(list, i as int),
{
    bit_of_list(list, i)
}

fn bit_of_list(list: u32, i: u32) -> (b: bool)
    requires
        i < 16,
    ensures
        b == in_list(list, i as int),
{
    let p: u32 = if i == 0 { 1 } else if i == 1 { 2 } else if i == 2 { 4 } else if i == 3 { 8 }
    else if i == 4 { 16 } else if i == 5 { 32 } else if i == 6 { 64 } else if i == 7 { 128 }
    else if i == 8 { 256 } else if i == 9 { 512 } else if i == 10 { 1024 } else if i == 11 { 2048 }
    else if i == 12 { 4096 } else if i == 13 { 8192 } else if i == 14 { 16384 } else { 32768 };
    (list / p) % 2 == 1
}

pub proof fn lemma_bits_below_bound(list: u32, i: int)
    requires
        0 <= i,
    ensures
        bits_below(list, i) <= i,
    decreases i,
{
    if i > 0 {
        lemma_bits_below_bound(list, i - 1);
    }
}

/// Number of registers in `list` (its low 16 bits).
pub fn count_list(list: u32) -> (n: u32)
    ensures
        n as nat == bits_below(list, 16),
        n <= 16,
{
    let mut n: u32 = 0;
    let mut i: u32 = 0;
    while i < 16
        invariant
            i <= 16,
            n as nat == bits_below(list, i as int),
            n <= i,
        decreases 16 - i,
    {
        if bit_of_list(list, i) {
            n = n + 1;
        }
        i = i + 1;
    }
    n
}

/// Stores the registers of `list`, lowest first, in consecutive words from
/// `base` upwards; `user` selects the user-mode bank.
pub fn store_multiple(cpu: &mut ArmCpu, base: u32, list: u32, user: bool)
    requires
        old(cpu).wf(),
    ensures
        final(cpu).cycles >= old(cpu).cycles,
        final(cpu).wf(),
        final(cpu).registers == old(cpu).registers,
        final(cpu).branched == old(cpu).branched,
        final(cpu).memory@ == stm_mem(old(cpu).memory@, base, stm_values(*old(cpu), user), list, 16),
{
    let ghost s = *cpu;
    let mut addr = base;
    let mut i: u32 = 0;
    while i < 16
        invariant
            i <= 16,
            cpu.wf(),
            cpu.registers == s.registers,
            cpu.branched == s.branched,
            cpu.cycles >= s.cycles,
            s.wf(),
            addr == slot_addr(base, list, i as int),
            cpu.memory@ == stm_mem(s.memory@, base, stm_values(s, user), list, i as int),
        decreases 16 - i,
    {
        if bit_of_list(list, i) {
            let v = if user && i < 15 {
                cpu.registers.get_with_mode(MODE_USR, i)
            } else {
                cpu.rget(i)
            };
            proof {
                assert(cpu.operand(i as int) == s.operand(i as int));
            }
            cpu.mwrite32(addr, v);
            addr = addr.wrapping_add(4);
        }
        proof {
            lemma_bits_below_bound(list, i as int);
        }
        i = i + 1;
    }
}

/// Whether physical register `j` is one of r0..r14 as mode `m` sees them.
pub open spec fn visible_in(m: u32, j: int) -> bool {
    j < 8 || (m == MODE_FIQ && 16 <= j < 23) || (m != MODE_FIQ && 8 <= j < 13) || j == phys_index(
        m,
        13,
    ) || j == phys_index(m, 14)
}

/// Writes r`k` (0..14) of bank `bank`: r0..r14 of that bank other than r`k`
/// keep their values, as do the slots the bank does not see.
fn set_banked(cpu: &mut ArmCpu, bank: u32, k: u32, v: u32)
    requires
        old(cpu).wf(),
        is_valid_mode(bank),
        k < 15,
    ensures
        final(cpu).cycles >= old(cpu).cycles,
        final(cpu).wf(),
        final(cpu).registers.cpsr == old(cpu).registers.cpsr,
        final(cpu).registers.spsr == old(cpu).registers.spsr,
        final(cpu).memory@ == old(cpu).memory@,
        final(cpu).branched == old(cpu).branched,
        final(cpu).cycles == old(cpu).cycles,
        final(cpu).pc() == old(cpu).pc(),
        forall|k2: int| 0 <= k2 < 15 ==> #[trigger] final(cpu).registers.reg_in(bank, k2) == (if k2
            == k {
            v
        } else {
            old(cpu).registers.reg_in(bank, k2)
        }),
        forall|j: int| 0 <= j < 31 && j != 15 && !visible_in(bank, j) ==> #[trigger] final(cpu).registers.phys[j] == old(cpu).registers.phys[j],
{
    cpu.registers.set_with_mode(bank, k, v);
}

/// The register bank a block transfer uses: the user bank when `user`.
pub open spec fn transfer_bank(s: ArmCpu, user: bool) -> u32 {
    if user { MODE_USR } else { s.registers.mode() }
}

/// `t` is `s` after loading the registers of `list` from consecutive words
/// upwards from `base` (r15 last, which branches).
pub open spec fn ldm_done(s: ArmCpu, t: ArmCpu, base: u32, list: u32, user: bool) -> bool {
    let bank = transfer_bank(s, user);
    &&& t.registers.cpsr == s.registers.cpsr
    &&& t.registers.spsr == s.registers.spsr
    &&& t.memory@ == s.memory@
    &&& forall|k: int| 0 <= k < 15 ==> #[trigger] t.registers.reg_in(bank, k) == (if in_list(list, k) {
        s.memory@.load32(slot_addr(base, list, k))
    } else {
        s.registers.reg_in(bank, k)
    })
    &&& forall|j: int| 0 <= j < 31 && j != 15 && !visible_in(bank, j) ==> #[trigger] t.registers.phys[j] == s.registers.phys[j]
    &&& t.pc() == (if in_list(list, 15) {
        pc_align(s.memory@.load32(slot_addr(base, list, 15)), s.thumb())
    } else {
        s.pc()
    })
    &&& t.branched == (s.branched || in_list(list, 15))
}

/// Loads the registers of `list`, lowest first, from consecutive words from
/// `base` upwards; `user` selects the user-mode bank for r0..r14.
pub fn load_multiple(cpu: &mut ArmCpu, base: u32, list: u32, user: bool)
    requires
        old(cpu).wf(),
    ensures
        final(cpu).cycles >= old(cpu).cycles,
        final(cpu).wf(),
        ldm_done(*old(cpu), *final(cpu), base, list, user),
{
    let ghost s = *cpu;
    let bank = if user { MODE_USR } else { cpu.registers.get_mode() };
    let mut addr = base;
    let mut i: u32 = 0;
    while i < 15
        invariant
            i <= 15,
            cpu.wf(),
            s.wf(),
            cpu.cycles >= s.cycles,
            bank == transfer_bank(s, user),
            is_valid_mode(bank),
            cpu.registers.cpsr == s.registers.cpsr,
            cpu.registers.spsr == s.registers.spsr,
            cpu.memory@ == s.memory@,
            addr == slot_addr(base, list, i as int),
            forall|k: int| 0 <= k < 15 ==> #[trigger] cpu.registers.reg_in(bank, k) == (if k < i
                && in_list(list, k) {
                s.memory@.load32(slot_addr(base, list, k))
            } else {
                s.registers.reg_in(bank, k)
            }),
            forall|j: int| 0 <= j < 31 && j != 15 && !visible_in(bank, j) ==> #[trigger] cpu.registers.phys[j] == s.registers.phys[j],
            cpu.pc() == s.pc(),
            cpu.branched == s.branched,
        decreases 15 - i,
    {
        let ghost before = *cpu;
        if bit_of_list(list, i) {
            let v = cpu.mread32(addr);
            set_banked(cpu, bank, i, v);
            addr = addr.wrapping_add(4);
            proof {
                assert forall|k: int| 0 <= k < 15 implies #[trigger] cpu.registers.reg_in(bank, k) == (if k < i + 1
                    && in_list(list, k) {
                    s.memory@.load32(slot_addr(base, list, k))
                } else {
                    s.registers.reg_in(bank, k)
                }) by {
                    if k != i {
                        assert(cpu.registers.reg_in(bank, k) == before.registers.reg_in(bank, k));
                    }
                }
            }
        }
        proof {
            lemma_bits_below_bound(list, i as int);
        }
        i = i + 1;
    }
    let ghost mid = *cpu;
    if bit_of_list(list, 15) {
        let v = cpu.mread32(addr);
        cpu.rset(15, v);
        proof {
            assert forall|k: int| 0 <= k < 15 implies #[trigger] cpu.registers.reg_in(bank, k)
                == mid.registers.reg_in(bank, k) by {
                assert(phys_index(bank, k) != 15);
            }
            assert forall|j: int| 0 <= j < 31 && j != 15 implies #[trigger] cpu.registers.phys[j]
                == mid.registers.phys[j] by {}
        }
    }
}

/// The words of a block transfer from `base` lie in one 32 KiB window of
/// work RAM.
pub open spec fn block_in_work_ram(m: MemView, base: u32) -> bool {
    &&& base % 4 == 0
    &&& m.loc(base).0 == REGION_EWRAM || m.loc(base).0 == REGION_IWRAM
    &&& base % 0x8000 + 64 <= 0x8000
}

proof fn lemma_bits_below_mono(list: u32, k: int, j: int)
    requires
        0 <= k < j,
        in_list(list, k),
    ensures
        bits_below(list, j) >= bits_below(list, k) + 1,
    decreases j - k,
{
    if j > k + 1 {
        lemma_bits_below_mono(list, k, j - 1);
    }
}

proof fn lemma_slot(m: MemView, base: u32, list: u32, k: int)
    requires
        mem_wf(m),
        block_in_work_ram(m, base),
        0 <= k < 16,
    ensures
        slot_addr(base, list, k) == base + 4 * bits_below(list, k),
        slot_addr(base, list, k) % 4 == 0,
        slot_addr(base, list, k) / 0x8000 == base / 0x8000,
        m.loc(slot_addr(base, list, k)).0 == m.loc(base).0,
{
    lemma_bits_below_bound(list, k);
    let b = bits_below(list, k) as int;
    assert(b <= 15);
    let a = base + 4 * b;
    let q = base / 0x8000;
    let r = base % 0x8000;
    assert(base == q * 0x8000 + r);
    assert(a == q * 0x8000 + (r + 4 * b));
    assert(0 <= r + 4 * b < 0x8000);
    assert(a / 0x8000 == q && a % 0x8000 == r + 4 * b) by (nonlinear_arith)
        requires
            a == q * 0x8000 + (r + 4 * b),
            0 <= r + 4 * b < 0x8000,
    ;
    assert(a / 0x0100_0000 == base / 0x0100_0000 && a % 0x40000 == base % 0x40000 + 4 * b)
        by (nonlinear_arith)
        requires
            a / 0x8000 == base / 0x8000,
            a == base + 4 * b,
            0 <= b,
            a % 0x8000 == base % 0x8000 + 4 * b,
    ;
    assert(a % 4 == 0);
    assert(a < 0x1_0000_0000) by (nonlinear_arith)
        requires
            a / 0x0100_0000 == base / 0x0100_0000,
            base < 0x1_0000_0000,
            a >= 0,
    ;
}

/// Loading back what a block store wrote, from the same base with the same
/// list, gives every stored register its value, when the words lie in one
/// window of work RAM.
proof fn lemma_stm_step(m: MemView, base: u32, vals: Seq<u32>, list: u32, j: int)
    requires
        mem_wf(m),
        vals.len() == 16,
        block_in_work_ram(m, base),
        0 <= j < 16,
        in_list(list, j),
        mem_wf(stm_mem(m, base, vals, list, j)),
        stm_mem(m, base, vals, list, j).rom == m.rom,
        forall|k: int| 0 <= k < j && in_list(list, k) ==> #[trigger] stm_mem(m, base, vals, list, j).load32(
            slot_addr(base, list, k),
        ) == vals[k],
    ensures
        forall|k: int| 0 <= k <= j && in_list(list, k) ==> #[trigger] stm_mem(m, base, vals, list, j).store32(
            slot_addr(base, list, j),
            vals[j],
        ).load32(slot_addr(base, list, k)) == vals[k],
{
    let prev = stm_mem(m, base, vals, list, j);
    lemma_slot(m, base, list, j);
    let aj = slot_addr(base, list, j);
    assert(prev.loc(aj) == m.loc(aj));
    lemma_round_trip32(prev, aj, vals[j]);
    assert((aj - aj % 4) as u32 == aj);
    assert forall|k: int| 0 <= k <= j && in_list(list, k) implies #[trigger] prev.store32(aj, vals[j]).load32(
        slot_addr(base, list, k),
    ) == vals[k] by {
        if k < j {
            lemma_slot(m, base, list, k);
            lemma_bits_below_mono(list, k, j);
            assert(prev.loc(aj) == m.loc(aj));
            lemma_store32_other(prev, aj, slot_addr(base, list, k), vals[j]);
        }
    }
}

/// Loading back what a block store wrote, from the same base with the same
/// list, gives every stored register its value, when the words lie in one
/// window of work RAM.
pub proof fn lemma_stm_then_load(m: MemView, base: u32, vals: Seq<u32>, list: u32, i: int)
    requires
        mem_wf(m),
        vals.len() == 16,
        block_in_work_ram(m, base),
        0 <= i <= 16,
    ensures
        mem_wf(stm_mem(m, base, vals, list, i)),
        stm_mem(m, base, vals, list, i).rom == m.rom,
        forall|k: int| 0 <= k < i && in_list(list, k) ==> #[trigger] stm_mem(m, base, vals, list, i).load32(
            slot_addr(base, list, k),
        ) == vals[k],
    decreases i,
{
    if i > 0 {
        let j = i - 1;
        lemma_stm_then_load(m, base, vals, list, j);
        let prev = stm_mem(m, base, vals, list, j);
        if in_list(list, j) {
            lemma_stm_step(m, base, vals, list, j);
            lemma_store32_wf(prev, slot_addr(base, list, j), vals[j]);
        }
    }
}

/// A block store keeps VCOUNT and the read-only bits of DISPSTAT.
pub proof fn lemma_stm_keeps_status(m: MemView, base: u32, vals: Seq<u32>, list: u32, i: int)
    requires
        mem_wf(m),
    ensures
        hw_status_kept(m, stm_mem(m, base, vals, list, i)),
    decreases i,
{
    if i > 0 {
        lemma_stm_keeps_status(m, base, vals, list, i - 1);
        let prev = stm_mem(m, base, vals, list, i - 1);
        if in_list(list, i - 1) {
            lemma_store32_keeps_status(prev, slot_addr(base, list, i - 1), vals[i - 1]);
        }
    }
}

} // verus!
