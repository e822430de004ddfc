use vstd::prelude::*;
use crate::cpu::ArmCpu;
use crate::ioreg::{IORegister16, DISPSTAT, IF, KEYINPUT, VCOUNT, DMA0CNT_H};
use crate::lcd::{GbaDisplayLines, GbaLcd, compose_pixel_spec, lcd_regs_of};
use crate::render::lines_produced;
use crate::sprites::objects_produced;
use crate::machine::{executable_spec, lemma_step_keeps_status, stepped};
use crate::memory::{GbaMemory, MemView, hw_status_kept, io_half, with_io_half, IO_BASE, ROM_MAX};
use crate::registers::{FLAG_I, FLAG_T, MODE_SVC, psr_flag};

verus! {

/// LCD V-Blank interrupt.
pub const INT_VBLANK: u16 = 0x01;
/// LCD H-Blank interrupt.
pub const INT_HBLANK: u16 = 0x02;
/// LCD V-Counter match interrupt.
pub const INT_VCOUNT: u16 = 0x04;
/// Timer 0 overflow interrupt.
pub const INT_TIMER0: u16 = 0x08;
/// Timer 1 overflow interrupt.
pub const INT_TIMER1: u16 = 0x10;
/// Timer 2 overflow interrupt.
pub const INT_TIMER2: u16 = 0x20;
/// Timer 3 overflow interrupt.
pub const INT_TIMER3: u16 = 0x40;
/// Serial communication interrupt.
pub const INT_SERIAL: u16 = 0x80;
/// Keypad interrupt.
pub const INT_KEYPAD: u16 = 0x1000;
/// Game Pak (external IRQ source) interrupt.
pub const INT_GAMEPAK: u16 = 0x2000;

/// DMA start timings (bits 13..12 of a DMA control register).
pub const DMA_TIMING_IMMEDIATE: u16 = 0;
pub const DMA_TIMING_VBLANK: u16 = 1;
pub const DMA_TIMING_HBLANK: u16 = 2;
pub const DMA_TIMING_SPECIAL: u16 = 3;

/// Cycles of the visible part of a scanline, of its H-Blank, and of a whole
/// line.
pub const HDRAW_CYCLES: u64 = 960;
pub const HBLANK_CYCLES: u64 = 272;
pub const LINE_CYCLES: u64 = 1232;

/// State the front end shows and changes.
pub struct GbaExtras {
    pub paused: bool,
    pub request_pause: bool,
    pub request_debugger: bool,
}

impl GbaExtras {
    pub fn new() -> (e: GbaExtras)
        ensures
            !e.paused && !e.request_pause && !e.request_debugger,
    {
        GbaExtras { paused: false, request_pause: false, request_debugger: false }
    }

    /// Takes over a requested pause state; returns whether it changed.
    pub fn apply_pause_request(&mut self) -> (changed: bool)
        ensures
            final(self).paused == old(self).request_pause,
            changed == (old(self).paused != old(self).request_pause),
            final(self).request_pause == old(self).request_pause,
            final(self).request_debugger == old(self).request_debugger,
    {
        let changed = self.paused != self.request_pause;
        self.paused = self.request_pause;
        changed
    }
}

/// The console: processor with its memory map, screen, and front-end state.
pub struct Gba {
    pub cpu: ArmCpu,
    pub lcd: GbaLcd,
    pub request_exit: bool,
    pub extras: GbaExtras,
}

/// `t` follows from `s` by one step of the processor.
pub open spec fn step_ok(s: ArmCpu, t: ArmCpu) -> bool {
    exists|mid: ArmCpu| #[trigger] stepped(s, mid, t)
}

/// `trace` is a run of single steps from `s` to `t`.
pub open spec fn runs(s: ArmCpu, t: ArmCpu, trace: Seq<ArmCpu>) -> bool {
    &&& trace.len() >= 1
    &&& trace[0] == s
    &&& trace.last() == t
    &&& forall|i: int| 0 <= i < trace.len() - 1 ==> #[trigger] step_ok(trace[i], trace[i + 1])
}

/// Row `y` of the screen is the composition of line buffers produced for
/// line `y` from the memory map `m` with affine reference points `refs`.
pub open spec fn row_rendered(lcd: &GbaLcd, y: int, m: MemView, l: GbaDisplayLines, refs: [i32; 4]) -> bool {
    &&& lines_produced(m, &l, y, refs)
    &&& objects_produced(m, &l, y)
    &&& forall|x: int| 0 <= x < 240 ==> #[trigger] lcd.screen_buffer[y][x] == compose_pixel_spec(lcd_regs_of(m), &l, x, y)
}

/// DISPSTAT with the V-Counter flag (bit 2) set exactly when its LYC field
/// (bits 15..8) equals `vcount`.
pub open spec fn coincidence(dispstat: u16, vcount: u16) -> u16 {
    if dispstat / 256 == vcount { dispstat | 4 } else { dispstat & !4u16 }
}

impl Gba {
    pub open spec fn wf(&self) -> bool {
        self.cpu.wf() && self.lcd.wf()
    }

    pub open spec fn io16(&self, addr: u32) -> u16 {
        io_half(self.cpu.memory@, addr - IO_BASE)
    }

    /// A console at reset with no cartridge.
    pub fn new() -> (g: Gba)
        ensures
            g.wf(),
            !g.request_exit,
            g.cpu.memory@.rom.len() == 0,
    {
        Gba { cpu: ArmCpu::new(GbaMemory::new()), lcd: GbaLcd::new(), request_exit: false, extras: GbaExtras::new() }
    }

    /// Loads the cartridge image into the ROM region.
    pub fn load_cartridge(&mut self, data: Vec<u8>)
        requires
            old(self).wf(),
            data.len() <= ROM_MAX,
        ensures
            final(self).wf(),
            final(self).cpu.memory@.rom == data@,
            final(self).cpu.registers == old(self).cpu.registers,
    {
        self.cpu.memory.rom = data;
    }

    /// Reset state for booting through the BIOS: supervisor mode, IRQs and
    /// FIQs masked, PC at 0, every key released.
    pub fn init(&mut self)
        requires
            old(self).wf(),
        ensures
            final(self).wf(),
            final(self).cpu.registers.mode() == MODE_SVC,
            psr_flag(final(self).cpu.registers.cpsr, FLAG_I),
            !psr_flag(final(self).cpu.registers.cpsr, FLAG_T),
            final(self).cpu.pc() == 0,
            !final(self).cpu.branched,
            final(self).io16(KEYINPUT) == 0xffff,
    {
        self.cpu.registers.switch_mode(MODE_SVC);
        self.cpu.registers.put_flag(FLAG_I, true);
        self.cpu.registers.put_flag(FLAG_T, false);
        self.cpu.set_pc(0);
        self.cpu.branched = false;
        self.cpu.memory.set_reg(IORegister16(KEYINPUT), 0xffff);
    }

    /// Key state from the front end (1 = released), in KEYINPUT.
    pub fn set_keys(&mut self, keys: u16)
        requires
            old(self).wf(),
        ensures
            final(self).lcd == old(self).lcd,
            final(self).wf(),
            final(self).io16(KEYINPUT) == keys,
            final(self).cpu.registers == old(self).cpu.registers,
    {
        self.cpu.memory.set_reg(IORegister16(KEYINPUT), keys);
    }

    /// Requests the interrupts of `mask` by setting their bits in IF.
    pub fn hardware_interrupt(&mut self, mask: u16)
        requires
            old(self).wf(),
        ensures
            final(self).cpu.memory@ == with_io_half(old(self).cpu.memory@, IF - IO_BASE, old(self).io16(IF) | mask),
            final(self).lcd == old(self).lcd,
            final(self).wf(),
            final(self).io16(IF) == old(self).io16(IF) | mask,
            final(self).cpu.registers == old(self).cpu.registers,
    {
        let f = self.cpu.memory.get_reg(IORegister16(IF));
        self.cpu.memory.set_reg(IORegister16(IF), f | mask);
    }

    /// Sets the V-Counter flag of DISPSTAT when its LYC field matches.
    pub fn check_line_coincidence(&mut self, vcount: u16)
        requires
            old(self).wf(),
        ensures
            final(self).lcd == old(self).lcd,
            final(self).wf(),
            final(self).io16(DISPSTAT) == coincidence(old(self).io16(DISPSTAT), vcount),
            final(self).cpu.memory@ == with_io_half(old(self).cpu.memory@, DISPSTAT - IO_BASE, coincidence(old(self).io16(DISPSTAT), vcount)),
            final(self).cpu.registers == old(self).cpu.registers,
    {
        let dispstat = self.cpu.memory.get_reg(IORegister16(DISPSTAT));
        let v = if dispstat / 256 == vcount { dispstat | 4 } else { dispstat & !4u16 };
        self.cpu.memory.set_reg(IORegister16(DISPSTAT), v);
    }

    fn set_dispstat_bit(&mut self, bit: u16, on: bool)
        requires
            old(self).wf(),
            bit < 16,
        ensures
            final(self).cpu.memory@ == with_io_half(old(self).cpu.memory@, DISPSTAT - IO_BASE, if on { old(self).io16(DISPSTAT) | (1u16 << bit) } else { old(self).io16(DISPSTAT) & !(1u16 << bit) }),
            final(self).lcd == old(self).lcd,
            final(self).wf(),
            final(self).io16(DISPSTAT) == (if on {
                old(self).io16(DISPSTAT) | (1u16 << bit)
            } else {
                old(self).io16(DISPSTAT) & !(1u16 << bit)
            }),
            final(self).cpu.registers == old(self).cpu.registers,
    {
        let d = self.cpu.memory.get_reg(IORegister16(DISPSTAT));
        let v = if on { d | (1u16 << bit) } else { d & !(1u16 << bit) };
        self.cpu.memory.set_reg(IORegister16(DISPSTAT), v);
    }

    /// Requests the V-Blank interrupt when DISPSTAT enables it (bit 3).
    pub fn try_fire_vblank_int(&mut self)
        requires
            old(self).wf(),
        ensures
            final(self).cpu.memory@.io[4] == old(self).cpu.memory@.io[4] && final(self).cpu.memory@.io[6] == old(self).cpu.memory@.io[6] && final(self).cpu.memory@.io[7] == old(self).cpu.memory@.io[7],
            final(self).lcd == old(self).lcd,
            final(self).wf(),
            final(self).io16(IF) == (if (old(self).io16(DISPSTAT) / 8) % 2 == 1 {
                old(self).io16(IF) | INT_VBLANK
            } else {
                old(self).io16(IF)
            }),
    {
        let dispstat = self.cpu.memory.get_reg(IORegister16(DISPSTAT));
        if (dispstat / 8) % 2 == 1 {
            self.hardware_interrupt(INT_VBLANK);
        }
    }

    /// Requests the H-Blank interrupt when DISPSTAT enables it (bit 4).
    pub fn try_fire_hblank_int(&mut self)
        requires
            old(self).wf(),
        ensures
            final(self).cpu.memory@.io[4] == old(self).cpu.memory@.io[4] && final(self).cpu.memory@.io[6] == old(self).cpu.memory@.io[6] && final(self).cpu.memory@.io[7] == old(self).cpu.memory@.io[7],
            final(self).lcd == old(self).lcd,
            final(self).wf(),
            final(self).io16(IF) == (if (old(self).io16(DISPSTAT) / 16) % 2 == 1 {
                old(self).io16(IF) | INT_HBLANK
            } else {
                old(self).io16(IF)
            }),
    {
        let dispstat = self.cpu.memory.get_reg(IORegister16(DISPSTAT));
        if (dispstat / 16) % 2 == 1 {
            self.hardware_interrupt(INT_HBLANK);
        }
    }

    /// DMA channels to start at `timing`: enabled (bit 15 of the control
    /// register) with that start timing. Immediate transfers are looked for
    /// only after a control register was written; the mark is then cleared.
    /// The transfers themselves belong to the DMA engine, which calls this at
    /// its start points (immediate, H-Blank, V-Blank).
    pub fn check_dmas(&mut self, timing: u16) -> (due: Vec<bool>)
        requires
            old(self).wf(),
        ensures
            final(self).lcd == old(self).lcd,
            final(self).wf(),
            final(self).cpu.registers == old(self).cpu.registers,
            final(self).cpu.memory@ == (crate::memory::MemView {
                dma_dirty: if timing != DMA_TIMING_IMMEDIATE || old(self).cpu.memory@.dma_dirty {
                    false
                } else {
                    old(self).cpu.memory@.dma_dirty
                },
                ..old(self).cpu.memory@
            }),
            final(self).cpu.cycles == old(self).cpu.cycles,
            final(self).cpu.branched == old(self).cpu.branched,
            due.len() == 4,
            forall|c: int| 0 <= c < 4 ==> #[trigger] due[c] == ((timing != DMA_TIMING_IMMEDIATE
                || old(self).cpu.memory@.dma_dirty) && (old(self).io16((DMA0CNT_H + 12 * c) as u32)
                / 0x8000 == 1) && (old(self).io16((DMA0CNT_H + 12 * c) as u32) / 0x1000) % 4
                == timing),
    {
        let look = timing != DMA_TIMING_IMMEDIATE || self.cpu.memory.dma_dirty;
        let mut due: Vec<bool> = Vec::with_capacity(4);
        let mut c: u32 = 0;
        while c < 4
            invariant
                c <= 4,
                self.wf(),
                due.len() == c,
                self.cpu.memory@ == old(self).cpu.memory@,
                self.cpu.registers == old(self).cpu.registers,
                self.lcd == old(self).lcd,
                look == (timing != DMA_TIMING_IMMEDIATE || old(self).cpu.memory@.dma_dirty),
                forall|k: int| 0 <= k < c ==> #[trigger] due[k] == (look && (old(self).io16(
                    (DMA0CNT_H + 12 * k) as u32,
                ) / 0x8000 == 1) && (old(self).io16((DMA0CNT_H + 12 * k) as u32) / 0x1000) % 4
                    == timing),
            decreases 4 - c,
        {
            let cnt = self.cpu.memory.get_reg(IORegister16(DMA0CNT_H + 12 * c));
            due.push(look && cnt / 0x8000 == 1 && (cnt / 0x1000) % 4 == timing);
            c = c + 1;
        }
        if look {
            self.cpu.memory.dma_dirty = false;
        }
        due
    }

    /// Cycles run since the timers last took them; the count starts over.
    pub fn take_timer_cycles(&mut self) -> (n: u64)
        ensures
            n == old(self).cpu.timer_cycles,
            final(self).cpu.timer_cycles == 0,
            final(self).cpu.registers == old(self).cpu.registers,
            final(self).cpu.memory@ == old(self).cpu.memory@,
            final(self).cpu.branched == old(self).cpu.branched,
            final(self).lcd == old(self).lcd,
            final(self).wf() == old(self).wf(),
    {
        let n = self.cpu.timer_cycles;
        self.cpu.timer_cycles = 0;
        n
    }

    /// Runs the processor for about `cycles` cycles: single steps, at most
    /// `cycles` of them, each from a PC in a region code can run from. Stops
    /// with the address when the PC leaves those regions.
    pub fn run_cpu_cycles(&mut self, cycles: u64) -> (r: Result<(), u32>)
        requires
            old(self).wf(),
        ensures
            hw_status_kept(old(self).cpu.memory@, final(self).cpu.memory@),
            final(self).wf(),
            final(self).lcd == old(self).lcd,
            exists|trace: Seq<ArmCpu>| #[trigger] runs(old(self).cpu, final(self).cpu, trace)
                && trace.len() <= cycles + 1
                && forall|i: int| 0 <= i < trace.len() - 1 ==> executable_spec(#[trigger] trace[i]),
            r matches Err(a) ==> a == final(self).cpu.pc() && !executable_spec(final(self).cpu),
            r is Ok ==> final(self).cpu.cycles == u64::MAX || final(self).cpu.cycles >= old(self).cpu.cycles + cycles,
    {
        let target = self.cpu.cycles.saturating_add(cycles);
        let mut n: u64 = 0;
        let ghost mut trace: Seq<ArmCpu> = seq![self.cpu];
        while n < cycles && self.cpu.cycles < target
            invariant
                self.wf(),
                self.lcd == old(self).lcd,
                n <= cycles,
                trace.len() == n + 1,
                target == old(self).cpu.cycles.saturating_add(cycles),
                self.cpu.cycles == u64::MAX || self.cpu.cycles >= old(self).cpu.cycles + n,
                runs(old(self).cpu, self.cpu, trace),
                hw_status_kept(old(self).cpu.memory@, self.cpu.memory@),
                forall|i: int| 0 <= i < trace.len() - 1 ==> executable_spec(#[trigger] trace[i]),
            decreases cycles - n,
        {
            if !self.cpu.executable() {
                return Err(self.cpu.get_exec_address());
            }
            let ghost before = self.cpu;
            self.cpu.tick();
            proof {
                let old_trace = trace;
                trace = trace.push(self.cpu);
                assert(step_ok(before, self.cpu));
                let mid = choose|mid: ArmCpu| #[trigger] stepped(before, mid, self.cpu);
                lemma_step_keeps_status(before, mid, self.cpu);
                assert forall|i: int| 0 <= i < trace.len() - 1 implies #[trigger] step_ok(trace[i], trace[i + 1]) by {
                    if i < old_trace.len() - 1 {
                        assert(trace[i] == old_trace[i] && trace[i + 1] == old_trace[i + 1]);
                    }
                }
                assert forall|i: int| 0 <= i < trace.len() - 1 implies executable_spec(#[trigger] trace[i]) by {
                    if i < old_trace.len() - 1 {
                        assert(trace[i] == old_trace[i]);
                    }
                }
            }
            n = n + 1;
        }
        Ok(())
    }

    fn do_hdraw(&mut self) -> (r: Result<(), u32>)
        requires
            old(self).wf(),
        ensures
            final(self).cpu.memory@.io[6] == old(self).cpu.memory@.io[6] && final(self).cpu.memory@.io[7] == old(self).cpu.memory@.io[7],
            final(self).lcd == old(self).lcd,
            final(self).wf(),
            r matches Err(a) ==> a == final(self).cpu.pc() && !executable_spec(final(self).cpu),
    {
        self.set_dispstat_bit(1, false);
        self.run_cpu_cycles(HDRAW_CYCLES)
    }

    fn do_hblank(&mut self) -> (r: Result<(), u32>)
        requires
            old(self).wf(),
        ensures
            final(self).cpu.memory@.io[6] == old(self).cpu.memory@.io[6] && final(self).cpu.memory@.io[7] == old(self).cpu.memory@.io[7],
            final(self).lcd == old(self).lcd,
            final(self).wf(),
            r matches Err(a) ==> a == final(self).cpu.pc() && !executable_spec(final(self).cpu),
    {
        self.set_dispstat_bit(1, true);
        self.try_fire_hblank_int();
        self.run_cpu_cycles(HBLANK_CYCLES)
    }

    fn do_vblank_line(&mut self) -> (r: Result<(), u32>)
        requires
            old(self).wf(),
        ensures
            hw_status_kept(old(self).cpu.memory@, final(self).cpu.memory@),
            final(self).lcd == old(self).lcd,
            final(self).wf(),
            r matches Err(a) ==> a == final(self).cpu.pc() && !executable_spec(final(self).cpu),
    {
        self.run_cpu_cycles(LINE_CYCLES)
    }

    /// One visible line: the CPU runs its visible part, the line is drawn,
    /// then H-Blank begins and the CPU runs on. Returns with the memory map,
    /// line buffers and reference points the line was drawn from.
    fn do_vdraw_line(&mut self, line: u16) -> (r: (Result<(), u32>, Ghost<(MemView, GbaDisplayLines, [i32; 4])>))
        requires
            old(self).wf(),
            line < 160,
        ensures
            final(self).wf(),
            r.0 matches Err(a) ==> a == final(self).cpu.pc() && !executable_spec(final(self).cpu),
            r.0 is Ok ==> row_rendered(&final(self).lcd, line as int, r.1@.0, r.1@.1, r.1@.2),
            r.0 is Ok ==> io_half(r.1@.0, VCOUNT - IO_BASE) == old(self).io16(VCOUNT),
            r.0 is Ok ==> final(self).cpu.memory@.io[6] == old(self).cpu.memory@.io[6]
                && final(self).cpu.memory@.io[7] == old(self).cpu.memory@.io[7],
            forall|y: int| 0 <= y < 160 && y != line ==> #[trigger] final(self).lcd.screen_buffer[y] == old(self).lcd.screen_buffer[y],
    {
        let first = self.do_hdraw();
        if first.is_err() {
            return (first, Ghost(arbitrary()));
        }
        let ghost m = self.cpu.memory@;
        self.lcd.render_line(&mut self.cpu.memory, line);
        let ghost l = self.lcd.lines;
        let ghost refs = self.lcd.line_refs;
        assert(row_rendered(&self.lcd, line as int, m, l, refs));
        let r = self.do_hblank();
        (r, Ghost((m, l, refs)))
    }

    fn start_line(&mut self, vcount: u16)
        requires
            old(self).wf(),
        ensures
            final(self).cpu.memory@.io[4] % 2 == old(self).cpu.memory@.io[4] % 2,
            final(self).lcd == old(self).lcd,
            final(self).wf(),
            final(self).io16(VCOUNT) == vcount,
    {
        self.cpu.memory.set_reg(IORegister16(VCOUNT), vcount);
        let ghost m1 = self.cpu.memory@;
        let ghost d = self.io16(DISPSTAT);
        self.check_line_coincidence(vcount);
        assert(self.cpu.memory@.io[6] == m1.io[6] && self.cpu.memory@.io[7] == m1.io[7]);
        proof {
            assert((d | 4u16) % 2 == d % 2 && (d & !4u16) % 2 == d % 2) by (bit_vector);
            assert(d as int == m1.io[4] as int + m1.io[5] as int * 0x100);
        }
    }

    /// One frame: 160 visible lines, then V-Blank (its interrupt and DMAs at
    /// line 160) through line 227. Each visible row of the screen is drawn
    /// from the memory map as the processor left it when that line began.
    /// Stops with the address when the PC leaves the regions code can run
    /// from.
    pub fn frame(&mut self) -> (r: Result<(), u32>)
        requires
            old(self).wf(),
        ensures
            final(self).wf(),
            r matches Err(a) ==> a == final(self).cpu.pc() && !executable_spec(final(self).cpu),
            r is Ok ==> exists|drawn: Seq<(MemView, GbaDisplayLines, [i32; 4])>| #![trigger drawn.len()] drawn.len() == 160
                && forall|y: int| 0 <= y < 160 ==> #[trigger] row_rendered(&final(self).lcd, y, drawn[y].0, drawn[y].1, drawn[y].2)
                    && io_half(drawn[y].0, VCOUNT - IO_BASE) == y,
            r is Ok ==> final(self).io16(VCOUNT) == 227,
            r is Ok ==> final(self).io16(DISPSTAT) % 2 == 1,
    {
        self.set_dispstat_bit(0, false);
        let mut vcount: u16 = 0;
        let ghost mut drawn: Seq<(MemView, GbaDisplayLines, [i32; 4])> = Seq::empty();
        while vcount < 160
            invariant
                self.wf(),
                vcount <= 160,
                drawn.len() == vcount,
                forall|y: int| 0 <= y < vcount ==> #[trigger] row_rendered(&self.lcd, y, drawn[y].0, drawn[y].1, drawn[y].2)
                    && io_half(drawn[y].0, VCOUNT - IO_BASE) == y,
            decreases 160 - vcount,
        {
            self.start_line(vcount);
            let ghost before = self.lcd;
            let step = self.do_vdraw_line(vcount);
            let res = step.0;
            let ghost line_src = step.1@;
            if res.is_err() {
                return res;
            }
            assert(row_rendered(&self.lcd, vcount as int, line_src.0, line_src.1, line_src.2));
            proof {
                let old_drawn = drawn;
                drawn = drawn.push(line_src);
                assert forall|y: int| 0 <= y < vcount + 1 implies #[trigger] row_rendered(&self.lcd, y, drawn[y].0, drawn[y].1, drawn[y].2)
                    && io_half(drawn[y].0, VCOUNT - IO_BASE) == y by {
                    if y < vcount {
                        assert(row_rendered(&before, y, old_drawn[y].0, old_drawn[y].1, old_drawn[y].2));
                        assert(self.lcd.screen_buffer[y] == before.screen_buffer[y]);
                        assert(drawn[y] == old_drawn[y]);
                    } else {
                        assert(drawn[y] == line_src);
                    }
                }
            }
            vcount = vcount + 1;
        }
        let ghost lcd_done = self.lcd;
        let ghost d = self.io16(DISPSTAT);
        self.set_dispstat_bit(0, true);
        proof {
            assert(((d | 1u16) % 256) % 2 == 1 && (1u16 << 0u16) == 1u16) by (bit_vector);
            assert(self.cpu.memory@.io[4] == crate::memory::byte_of((d | 1u16) as u32, 0));
            assert(self.cpu.memory@.io[4] % 2 == 1);
        }
        self.start_line(160);
        self.try_fire_vblank_int();
        let ghost before_run = self.cpu.memory@;
        self.do_vblank_line()?;
        assert(self.cpu.memory@.io[4] % 8 == before_run.io[4] % 8);
        assert(self.cpu.memory@.io[4] % 2 == 1);
        let mut v: u16 = 161;
        while v < 228
            invariant
                self.wf(),
                161 <= v <= 228,
                self.lcd == lcd_done,
                self.cpu.memory@.io[4] % 2 == 1,
                v > 161 ==> self.io16(VCOUNT) == v - 1,
            decreases 228 - v,
        {
            self.start_line(v);
            self.do_vblank_line()?;
            v = v + 1;
        }
        assert(forall|y: int| 0 <= y < 160 ==> #[trigger] row_rendered(&self.lcd, y, drawn[y].0, drawn[y].1, drawn[y].2)
            && io_half(drawn[y].0, VCOUNT - IO_BASE) == y);
        assert(self.io16(DISPSTAT) % 2 == self.cpu.memory@.io[4] % 2);
        Ok(())
    }
}

/// Front ends implement this to take window and input events once a frame.
pub trait GbaEventPoll {
    fn poll_device_events(&mut self);
}

} // verus!
