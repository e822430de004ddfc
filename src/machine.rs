use vstd::prelude::*;
use crate::arm::{arm_execute, arm_post, lemma_arm_keeps_status};
use crate::cpu::{ArmCpu, ExceptionKind, add32};
use crate::ioreg::{IORegister16, IE, IF, IME};
use crate::memory::{hw_status_kept, io_half, IO_BASE, REGION_BIOS, REGION_EWRAM, REGION_IWRAM, REGION_ROM, REGION_VRAM};
use crate::registers::FLAG_I;
use crate::thumb::{lemma_thumb_keeps_status, run_instr, thumb_post};

verus! {

/// An interrupt is taken: IRQs unmasked in the CPSR, the master enable set,
/// and some source both enabled and requested.
pub open spec fn irq_pending_spec(s: ArmCpu) -> bool {
    let m = s.mem();
    &&& !s.flag(FLAG_I)
    &&& io_half(m, IME - IO_BASE) % 2 == 1
    &&& io_half(m, IE - IO_BASE) & io_half(m, IF - IO_BASE) != 0
}

/// Regions code can run from.
pub open spec fn executable_spec(s: ArmCpu) -> bool {
    let r = s.mem().loc(s.pc()).0;
    r == REGION_BIOS || r == REGION_EWRAM || r == REGION_IWRAM || r == REGION_VRAM || r == REGION_ROM
}

/// The instruction at the PC, as fetched before it runs.
pub open spec fn fetched(s: ArmCpu) -> u32 {
    if s.thumb() { s.mem().load16(s.pc()) as u32 } else { s.mem().load32(s.pc()) }
}

/// `t` is `mid` with the fetch address moved on to the next instruction
/// unless the instruction branched, and the branch mark cleared.
pub open spec fn advanced(mid: ArmCpu, t: ArmCpu) -> bool {
    &&& t.registers.cpsr == mid.registers.cpsr
    &&& t.registers.spsr == mid.registers.spsr
    &&& t.memory@ == mid.memory@
    &&& !t.branched
    &&& if mid.branched {
        t.registers.phys == mid.registers.phys
    } else {
        t.registers.phys@ == mid.registers.phys@.update(15, add32(mid.pc(), if mid.thumb() { 2 } else { 4 }))
    }
}

/// The processor once the instruction at the PC is fetched: the fetched
/// value is on the bus.
pub open spec fn after_fetch(s: ArmCpu) -> ArmCpu {
    ArmCpu {
        branched: false,
        memory: crate::memory::GbaMemory { open_bus: fetched(s), ..s.memory },
        ..s
    }
}

/// One step: an IRQ entry (the return address is the next instruction plus
/// 4), or the instruction at the PC run; then the PC moves on.
pub open spec fn stepped(s: ArmCpu, mid: ArmCpu, t: ArmCpu) -> bool {
    let s0 = ArmCpu { branched: false, ..s };
    if irq_pending_spec(s) {
        ArmCpu::exception_entered(s0, mid, ExceptionKind::Irq, add32(s.pc(), 4)) && advanced(mid, t)
    } else if s.thumb() {
        thumb_post(after_fetch(s), mid, fetched(s) / 256, fetched(s)) && advanced(mid, t)
    } else {
        arm_post(after_fetch(s), mid, fetched(s)) && advanced(mid, t)
    }
}

impl ArmCpu {
    pub fn irq_pending(&self) -> (b: bool)
        requires
            self.wf(),
        ensures
            b == irq_pending_spec(*self),
    {
        let ime = self.memory.get_reg(IORegister16(IME));
        let ie = self.memory.get_reg(IORegister16(IE));
        let iflags = self.memory.get_reg(IORegister16(IF));
        !self.get_flag(FLAG_I) && ime % 2 == 1 && ie & iflags != 0
    }

    /// Whether the PC lies in a region code can run from.
    pub fn executable(&self) -> (b: bool)
        requires
            self.wf(),
        ensures
            b == executable_spec(*self),
    {
        let (r, _i) = self.memory.decode(self.get_pc());
        r == REGION_BIOS || r == REGION_EWRAM || r == REGION_IWRAM || r == REGION_VRAM || r == REGION_ROM
    }

    /// Address of the instruction about to run.
    pub fn get_exec_address(&self) -> (a: u32)
        ensures
            a == self.pc(),
    {
        self.get_pc()
    }

    fn advance(&mut self)
        requires
            old(self).wf(),
        ensures
            final(self).wf(),
            advanced(*old(self), *final(self)),
            final(self).cycles as int == (if old(self).cycles as int + 2 > u64::MAX { u64::MAX as int } else { old(self).cycles as int + 2 }),
    {
        self.cycles = self.cycles.saturating_add(2);
        self.timer_cycles = self.timer_cycles.saturating_add(2);
        if !self.branched {
            let step: u32 = if self.is_thumb() { 2 } else { 4 };
            let pc = self.get_pc();
            self.registers.phys[15] = pc.wrapping_add(step);
        }
        self.branched = false;
    }

    /// Takes a pending IRQ, else runs the instruction at the PC; then moves
    /// the PC on unless it branched. The fetch and the instruction take a
    /// cycle each besides their memory accesses.
    pub fn tick(&mut self)
        requires
            old(self).wf(),
        ensures
            final(self).wf(),
            exists|mid: ArmCpu| #[trigger] stepped(*old(self), mid, *final(self)),
            final(self).cycles > old(self).cycles || final(self).cycles == u64::MAX,
    {
        let ghost s = *self;
        self.branched = false;
        if self.irq_pending() {
            let ret = self.get_pc().wrapping_add(4);
            self.enter_exception(ExceptionKind::Irq, ret);
            let ghost mid = *self;
            self.advance();
            assert(stepped(s, mid, *self));
        } else if self.is_thumb() {
            let pc = self.get_pc();
            let instr = self.memory.read16(pc) as u32;
            self.memory.open_bus = instr;
            assert(*self == after_fetch(s));
            run_instr(self, instr / 256, instr);
            let ghost mid = *self;
            self.advance();
            assert(stepped(s, mid, *self));
        } else {
            let pc = self.get_pc();
            let instr = self.memory.read32(pc);
            self.memory.open_bus = instr;
            assert(*self == after_fetch(s));
            arm_execute(self, instr);
            let ghost mid = *self;
            self.advance();
            assert(stepped(s, mid, *self));
        }
    }
}

/// A step of the processor keeps VCOUNT and the read-only bits of DISPSTAT.
pub proof fn lemma_step_keeps_status(s: ArmCpu, mid: ArmCpu, t: ArmCpu)
    requires
        s.wf(),
        stepped(s, mid, t),
    ensures
        hw_status_kept(s.mem(), t.mem()),
{
    if !irq_pending_spec(s) {
        let f = after_fetch(s);
        assert(f.mem().io == s.mem().io);
        if s.thumb() {
            lemma_thumb_keeps_status(f, mid, fetched(s) / 256, fetched(s));
        } else {
            lemma_arm_keeps_status(f, mid, fetched(s));
        }
    }
}

} // verus!
