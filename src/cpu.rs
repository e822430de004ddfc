use vstd::prelude::*;
use crate::registers::{
    ArmRegisters, FLAG_I, FLAG_T, MODE_ABT, MODE_FIQ, MODE_IRQ, MODE_SVC, MODE_UND, lemma_psr_with_mode,
    normalized_psr, phys_index, psr_flag, psr_with_flag, spsr_slot, FLAG_C, FLAG_N, FLAG_V,
    FLAG_Z,
};
use crate::memory::{GbaMemory, MemView};

verus! {

/// The processor: banked registers, the memory map it owns, and its clock.
pub struct ArmCpu {
    pub registers: ArmRegisters,
    pub memory: GbaMemory,
    /// Cycles elapsed since reset.
    pub cycles: u64,
    /// Cycles not yet handed to the timers.
    pub timer_cycles: u64,
    /// Set when the current instruction wrote the PC (the next fetch uses it).
    pub branched: bool,
}

/// The exceptions, with their modes and vectors.
#[derive(Clone, Copy, PartialEq, Eq, Structural, Debug)]
pub enum ExceptionKind {
    Reset,
    Undefined,
    SoftwareInterrupt,
    PrefetchAbort,
    DataAbort,
    Irq,
    Fiq,
}

pub open spec fn exception_mode(k: ExceptionKind) -> u32 {
    match k {
        ExceptionKind::Reset => MODE_SVC,
        ExceptionKind::Undefined => MODE_UND,
        ExceptionKind::SoftwareInterrupt => MODE_SVC,
        ExceptionKind::PrefetchAbort => MODE_ABT,
        ExceptionKind::DataAbort => MODE_ABT,
        ExceptionKind::Irq => MODE_IRQ,
        ExceptionKind::Fiq => MODE_FIQ,
    }
}

pub open spec fn exception_vector(k: ExceptionKind) -> u32 {
    match k {
        ExceptionKind::Reset => 0x00,
        ExceptionKind::Undefined => 0x04,
        ExceptionKind::SoftwareInterrupt => 0x08,
        ExceptionKind::PrefetchAbort => 0x0c,
        ExceptionKind::DataAbort => 0x10,
        ExceptionKind::Irq => 0x18,
        ExceptionKind::Fiq => 0x1c,
    }
}

/// `v` aligned for the instruction set selected by `thumb`.
pub open spec fn pc_align(v: u32, thumb: bool) -> u32 {
    if thumb { (v - v % 2) as u32 } else { (v - v % 4) as u32 }
}

/// `a + b` modulo 2^32.
pub open spec fn add32(a: u32, b: int) -> u32 {
    ((a as int + b) % 0x1_0000_0000) as u32
}

/// The register file `t` is `s` with the status word `cpsr`, the register at
/// physical index `i` set to `v`, and the PC set to `pc`.
pub open spec fn regs_changed_at(s: ArmRegisters, t: ArmRegisters, i: int, v: u32, pc: u32) -> bool {
    &&& t.phys[i] == v
    &&& t.phys[15] == pc
    &&& forall|j: int| 0 <= j < 31 && j != i && j != 15 ==> t.phys[j] == s.phys[j]
}

impl ArmCpu {
    pub open spec fn wf(&self) -> bool {
        self.registers.wf() && self.memory.wf()
    }

    pub open spec fn thumb(&self) -> bool {
        psr_flag(self.registers.cpsr, FLAG_T)
    }

    /// Address of the instruction being executed.
    pub open spec fn pc(&self) -> u32 {
        self.registers.phys[15]
    }

    pub open spec fn mem(&self) -> MemView {
        self.memory@
    }

    /// Register `r` as an operand: r15 reads two instructions ahead.
    pub open spec fn operand(&self, r: int) -> u32 {
        if r == 15 {
            add32(self.pc(), if self.thumb() { 4 } else { 8 })
        } else {
            self.registers.reg(r)
        }
    }

    /// `t` is `s` after a write of `v` to register `r` by an instruction: r15
    /// takes the value aligned for the current state and marks a branch.
    pub open spec fn reg_written(s: ArmCpu, t: ArmCpu, r: int, v: u32) -> bool {
        &&& t.registers.cpsr == s.registers.cpsr
        &&& t.registers.spsr == s.registers.spsr
        &&& t.memory@ == s.memory@
        &&& if r == 15 {
            &&& t.registers.phys@ == s.registers.phys@.update(15, pc_align(v, s.thumb()))
            &&& t.branched
        } else {
            &&& t.registers.phys@ == s.registers.phys@.update(
                phys_index(s.registers.mode(), r),
                v,
            )
            &&& t.branched == s.branched
        }
    }

    /// A processor at reset, owning `memory`.
    pub fn new(memory: GbaMemory) -> (c: ArmCpu)
        requires
            memory.wf(),
        ensures
            c.wf(),
            c.registers.mode() == MODE_SVC,
            c.pc() == 0,
            !c.thumb(),
            c.memory@ == memory@,
            c.cycles == 0,
    {
        let registers = ArmRegisters::new();
        proof {
            assert(!psr_flag(0xd3, FLAG_T)) by (bit_vector);
        }
        ArmCpu { registers, memory, cycles: 0, timer_cycles: 0, branched: false }
    }

    pub fn is_thumb(&self) -> (b: bool)
        ensures
            b == self.thumb(),
    {
        self.registers.get_flag(FLAG_T)
    }

    /// Address of the instruction being executed.
    pub fn get_pc(&self) -> (v: u32)
        ensures
            v == self.pc(),
    {
        self.registers.phys[15]
    }

    /// Register `r` as an instruction operand sees it.
    pub fn rget(&self, r: u32) -> (v: u32)
        requires
            self.wf(),
            r < 16,
        ensures
            v == self.operand(r as int),
    {
        if r == 15 {
            let off: u32 = if self.is_thumb() { 4 } else { 8 };
            self.registers.phys[15].wrapping_add(off)
        } else {
            self.registers.get(r)
        }
    }

    /// Writes register `r` as an instruction does; r15 takes the value aligned
    /// for the current state and marks a branch.
    pub fn rset(&mut self, r: u32, v: u32)
        requires
            old(self).wf(),
            r < 16,
        ensures
            final(self).cycles >= old(self).cycles,
            final(self).wf(),
            Self::reg_written(*old(self), *final(self), r as int, v),
    {
        if r == 15 {
            let a = if self.is_thumb() { v - v % 2 } else { v - v % 4 };
            self.registers.phys[15] = a;
            self.branched = true;
        } else {
            self.registers.set(r, v);
        }
    }

    /// Sets the PC to `v` without a state change (aligned for the current
    /// state) and marks a branch.
    pub fn set_pc(&mut self, v: u32)
        requires
            old(self).wf(),
        ensures
            final(self).cycles >= old(self).cycles,
            final(self).wf(),
            Self::reg_written(*old(self), *final(self), 15, v),
    {
        self.rset(15, v);
    }

    fn tick_cycles(&mut self, n: u64)
        ensures
            final(self).cycles >= old(self).cycles,
            final(self).registers == old(self).registers,
            final(self).memory@ == old(self).memory@,
            final(self).branched == old(self).branched,
            final(self).memory.wf() == old(self).memory.wf(),
    {
        self.cycles = self.cycles.saturating_add(n);
        self.timer_cycles = self.timer_cycles.saturating_add(n);
    }

    /// 8-bit load through the memory map; one cycle.
    pub fn mread8(&mut self, addr: u32) -> (v: u8)
        requires
            old(self).wf(),
        ensures
            final(self).cycles >= old(self).cycles,
            v == old(self).mem().load8(addr),
            final(self).wf(),
            final(self).registers == old(self).registers,
            final(self).memory@ == old(self).memory@,
            final(self).branched == old(self).branched,
    {
        self.tick_cycles(1);
        self.memory.read8(addr)
    }

    /// 16-bit load; one cycle.
    pub fn mread16(&mut self, addr: u32) -> (v: u16)
        requires
            old(self).wf(),
        ensures
            final(self).cycles >= old(self).cycles,
            v == old(self).mem().load16(addr),
            final(self).wf(),
            final(self).registers == old(self).registers,
            final(self).memory@ == old(self).memory@,
            final(self).branched == old(self).branched,
    {
        self.tick_cycles(1);
        self.memory.read16(addr)
    }

    /// 32-bit load; one cycle.
    pub fn mread32(&mut self, addr: u32) -> (v: u32)
        requires
            old(self).wf(),
        ensures
            final(self).cycles >= old(self).cycles,
            v == old(self).mem().load32(addr),
            final(self).wf(),
            final(self).registers == old(self).registers,
            final(self).memory@ == old(self).memory@,
            final(self).branched == old(self).branched,
    {
        self.tick_cycles(1);
        self.memory.read32(addr)
    }

    /// 8-bit store; one cycle.
    pub fn mwrite8(&mut self, addr: u32, v: u8)
        requires
            old(self).wf(),
        ensures
            final(self).cycles >= old(self).cycles,
            final(self).wf(),
            final(self).registers == old(self).registers,
            final(self).memory@ == old(self).mem().store8(addr, v),
            final(self).branched == old(self).branched,
    {
        self.tick_cycles(1);
        self.memory.write8(addr, v);
    }

    /// 16-bit store; one cycle.
    pub fn mwrite16(&mut self, addr: u32, v: u16)
        requires
            old(self).wf(),
        ensures
            final(self).cycles >= old(self).cycles,
            final(self).wf(),
            final(self).registers == old(self).registers,
            final(self).memory@ == old(self).mem().store16(addr, v),
            final(self).branched == old(self).branched,
    {
        self.tick_cycles(1);
        self.memory.write16(addr, v);
    }

    /// 32-bit store; one cycle.
    pub fn mwrite32(&mut self, addr: u32, v: u32)
        requires
            old(self).wf(),
        ensures
            final(self).cycles >= old(self).cycles,
            final(self).wf(),
            final(self).registers == old(self).registers,
            final(self).memory@ == old(self).mem().store32(addr, v),
            final(self).branched == old(self).branched,
    {
        self.tick_cycles(1);
        self.memory.write32(addr, v);
    }

    /// `t` is `s` after entering exception `k` with return address `ret`.
    pub open spec fn exception_entered(s: ArmCpu, t: ArmCpu, k: ExceptionKind, ret: u32) -> bool {
        let m = exception_mode(k);
        &&& t.registers.wf()
        &&& t.registers.mode() == m
        &&& psr_flag(t.registers.cpsr, FLAG_I)
        &&& !psr_flag(t.registers.cpsr, FLAG_T)
        &&& forall|b: u32| 8 <= b < 32 ==> psr_flag(t.registers.cpsr, b) == psr_flag(
            s.registers.cpsr,
            b,
        )
        &&& t.registers.spsr@ == s.registers.spsr@.update(spsr_slot(m), s.registers.cpsr)
        &&& regs_changed_at(s.registers, t.registers, phys_index(m, 14), ret, exception_vector(k))
        &&& t.memory@ == s.memory@
        &&& t.branched
    }

    /// Enters exception `k`: the status word is saved in the new mode's SPSR,
    /// the mode switched, IRQs masked, ARM state selected, `ret` written to
    /// the new mode's r14 and the PC set to the vector.
    pub fn enter_exception(&mut self, k: ExceptionKind, ret: u32)
        requires
            old(self).wf(),
        ensures
            final(self).cycles >= old(self).cycles,
            final(self).wf(),
            Self::exception_entered(*old(self), *final(self), k, ret),
            final(self).cycles == old(self).cycles,
    {
        let saved = self.registers.cpsr;
        let m = match k {
            ExceptionKind::Reset => MODE_SVC,
            ExceptionKind::Undefined => MODE_UND,
            ExceptionKind::SoftwareInterrupt => MODE_SVC,
            ExceptionKind::PrefetchAbort => MODE_ABT,
            ExceptionKind::DataAbort => MODE_ABT,
            ExceptionKind::Irq => MODE_IRQ,
            ExceptionKind::Fiq => MODE_FIQ,
        };
        let vector: u32 = match k {
            ExceptionKind::Reset => 0x00,
            ExceptionKind::Undefined => 0x04,
            ExceptionKind::SoftwareInterrupt => 0x08,
            ExceptionKind::PrefetchAbort => 0x0c,
            ExceptionKind::DataAbort => 0x10,
            ExceptionKind::Irq => 0x18,
            ExceptionKind::Fiq => 0x1c,
        };
        proof {
            lemma_psr_with_mode(saved, m);
        }
        self.registers.switch_mode(m);
        self.registers.set_spsr(saved);
        self.registers.put_flag(FLAG_I, true);
        self.registers.put_flag(FLAG_T, false);
        self.registers.set(14, ret);
        self.registers.phys[15] = vector;
        self.branched = true;
    }

    /// `t` is `s` after a return from an exception to `target`: the status
    /// word comes back from the SPSR and the PC takes the target.
    pub open spec fn exception_returned(s: ArmCpu, t: ArmCpu, target: u32) -> bool {
        &&& t.registers.cpsr == normalized_psr(s.registers.spsr_value(), s.registers.cpsr)
        &&& t.registers.spsr == s.registers.spsr
        &&& t.registers.phys@ == s.registers.phys@.update(15, pc_align(target, t.thumb()))
        &&& t.memory@ == s.memory@
        &&& t.branched
    }

    /// Returns from an exception (`MOVS PC, LR` and the like): CPSR takes the
    /// current mode's SPSR, then the PC takes `target`, aligned for the
    /// restored state.
    pub fn exception_return(&mut self, target: u32)
        requires
            old(self).wf(),
        ensures
            final(self).cycles >= old(self).cycles,
            final(self).wf(),
            Self::exception_returned(*old(self), *final(self), target),
            final(self).cycles == old(self).cycles,
    {
        let spsr = self.registers.get_spsr();
        self.registers.set_cpsr(spsr);
        let a = if self.is_thumb() { target - target % 2 } else { target - target % 4 };
        self.registers.phys[15] = a;
        self.branched = true;
    }
}

/// `psr` with its four condition flags replaced.
pub open spec fn psr_with_nzcv(psr: u32, n: bool, z: bool, c: bool, v: bool) -> u32 {
    psr_with_flag(psr_with_flag(psr_with_flag(psr_with_flag(psr, FLAG_N, n), FLAG_Z, z), FLAG_C, c), FLAG_V, v)
}

/// Whether condition code `cond` (0..15) holds under the flags of `psr`.
pub open spec fn cond_passed(cond: u32, psr: u32) -> bool {
    let n = psr_flag(psr, FLAG_N);
    let z = psr_flag(psr, FLAG_Z);
    let c = psr_flag(psr, FLAG_C);
    let v = psr_flag(psr, FLAG_V);
    if cond == 0 { z }
    else if cond == 1 { !z }
    else if cond == 2 { c }
    else if cond == 3 { !c }
    else if cond == 4 { n }
    else if cond == 5 { !n }
    else if cond == 6 { v }
    else if cond == 7 { !v }
    else if cond == 8 { c && !z }
    else if cond == 9 { !c || z }
    else if cond == 10 { n == v }
    else if cond == 11 { n != v }
    else if cond == 12 { !z && n == v }
    else if cond == 13 { z || n != v }
    else if cond == 14 { true }
    else { false }
}

impl ArmCpu {
    pub open spec fn flag(&self, b: u32) -> bool {
        psr_flag(self.registers.cpsr, b)
    }

    /// `t` is `s` with `val` written to register `rd` (not the PC) and, when
    /// `set`, N and Z taken from `val` and C and V from `c` and `v`.
    pub open spec fn alu_done(s: ArmCpu, t: ArmCpu, rd: int, val: u32, set: bool, c: bool, v: bool) -> bool {
        &&& t.registers.cpsr == (if set {
            psr_with_nzcv(s.registers.cpsr, val >= 0x8000_0000, val == 0, c, v)
        } else {
            s.registers.cpsr
        })
        &&& t.registers.phys@ == s.registers.phys@.update(phys_index(s.registers.mode(), rd), val)
        &&& t.registers.spsr == s.registers.spsr
        &&& t.memory@ == s.memory@
        &&& t.branched == s.branched
    }

    /// `t` is `s` with only the condition flags set as given.
    pub open spec fn flags_done(s: ArmCpu, t: ArmCpu, n: bool, z: bool, c: bool, v: bool) -> bool {
        &&& t.registers.cpsr == psr_with_nzcv(s.registers.cpsr, n, z, c, v)
        &&& t.registers.phys == s.registers.phys
        &&& t.registers.spsr == s.registers.spsr
        &&& t.memory@ == s.memory@
        &&& t.branched == s.branched
    }

    pub fn get_flag(&self, b: u32) -> (v: bool)
        requires
            b < 32,
        ensures
            v == self.flag(b),
    {
        self.registers.get_flag(b)
    }

    /// Writes `val` to `rd` (not the PC) and, when `set`, the flags.
    pub fn write_alu(&mut self, rd: u32, val: u32, set: bool, c: bool, v: bool)
        requires
            old(self).wf(),
            rd < 15,
        ensures
            final(self).cycles >= old(self).cycles,
            final(self).wf(),
            Self::alu_done(*old(self), *final(self), rd as int, val, set, c, v),
            final(self).cycles == old(self).cycles,
    {
        self.registers.set(rd, val);
        if set {
            self.registers.set_nzcv(val >= 0x8000_0000, val == 0, c, v);
        }
    }

    /// Sets the four condition flags.
    pub fn write_flags(&mut self, n: bool, z: bool, c: bool, v: bool)
        requires
            old(self).wf(),
        ensures
            final(self).cycles >= old(self).cycles,
            final(self).wf(),
            Self::flags_done(*old(self), *final(self), n, z, c, v),
            final(self).cycles == old(self).cycles,
    {
        self.registers.set_nzcv(n, z, c, v);
    }

    /// Evaluates condition code `cond` against the current flags.
    pub fn check_cond(&self, cond: u32) -> (b: bool)
        ensures
            b == cond_passed(cond, self.registers.cpsr),
    {
        let n = self.registers.get_flag(FLAG_N);
        let z = self.registers.get_flag(FLAG_Z);
        let c = self.registers.get_flag(FLAG_C);
        let v = self.registers.get_flag(FLAG_V);
        if cond == 0 { z }
        else if cond == 1 { !z }
        else if cond == 2 { c }
        else if cond == 3 { !c }
        else if cond == 4 { n }
        else if cond == 5 { !n }
        else if cond == 6 { v }
        else if cond == 7 { !v }
        else if cond == 8 { c && !z }
        else if cond == 9 { !c || z }
        else if cond == 10 { n == v }
        else if cond == 11 { n != v }
        else if cond == 12 { !z && n == v }
        else if cond == 13 { z || n != v }
        else if cond == 14 { true }
        else { false }
    }

    /// Branch-and-exchange: the PC takes `target` with bit 0 cleared, and
    /// Thumb state is selected when bit 0 is set.
    pub fn branch_exchange(&mut self, target: u32)
        requires
            old(self).wf(),
        ensures
            final(self).cycles >= old(self).cycles,
            final(self).wf(),
            final(self).thumb() == (target % 2 == 1),
            final(self).pc() == pc_align(target, target % 2 == 1),
            forall|b: u32| b < 32 && b != FLAG_T ==> final(self).flag(b) == old(self).flag(b),
            final(self).registers.mode() == old(self).registers.mode(),
            forall|r: int| 0 <= r < 15 ==> final(self).registers.reg(r) == old(self).registers.reg(r),
            final(self).registers.spsr == old(self).registers.spsr,
            final(self).memory@ == old(self).memory@,
            final(self).branched,
    {
        let thumb = target % 2 == 1;
        self.registers.put_flag(FLAG_T, thumb);
        let a = if thumb { target - target % 2 } else { target - target % 4 };
        self.registers.phys[15] = a;
        self.branched = true;
    }
}

/// An exception entered with return address `ret` and left through its
/// r14 restores the interrupted status word, and the PC to `ret`.
pub proof fn lemma_exception_round_trip(
    s: ArmCpu,
    t: ArmCpu,
    u: ArmCpu,
    k: ExceptionKind,
    ret: u32,
)
    requires
        s.wf(),
        ret == pc_align(ret, s.thumb()),
        ArmCpu::exception_entered(s, t, k, ret),
        ArmCpu::exception_returned(t, u, t.registers.reg(14)),
    ensures
        u.registers.cpsr == s.registers.cpsr,
        u.pc() == ret,
        u.thumb() == s.thumb(),
{
    let c = s.registers.cpsr;
    let m = exception_mode(k);
    assert(spsr_slot(m) >= 0);
    assert(t.registers.spsr_value() == c);
    assert((c | 0x40) == c) by (bit_vector)
        requires
            (c >> 6) & 1 == 1,
    ;
    assert(u.registers.phys[15] == pc_align(ret, u.thumb()));
}

} // verus!
