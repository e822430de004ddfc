use vstd::prelude::*;
use crate::ioreg::{IORegister8, IORegister16, IORegister32};

verus! {

pub const BIOS_SIZE: usize = 0x4000;
pub const EWRAM_SIZE: usize = 0x40000;
pub const IWRAM_SIZE: usize = 0x8000;
pub const IO_SIZE: usize = 0x400;
pub const PAL_SIZE: usize = 0x400;
pub const VRAM_SIZE: usize = 0x18000;
pub const OAM_SIZE: usize = 0x400;
pub const SRAM_SIZE: usize = 0x10000;
pub const ROM_MAX: usize = 0x200_0000;

pub const IO_BASE: u32 = 0x0400_0000;

/// Region codes of the decoded address space.
pub const REGION_BIOS: u8 = 0;
pub const REGION_EWRAM: u8 = 1;
pub const REGION_IWRAM: u8 = 2;
pub const REGION_IO: u8 = 3;
pub const REGION_PAL: u8 = 4;
pub const REGION_VRAM: u8 = 5;
pub const REGION_OAM: u8 = 6;
pub const REGION_ROM: u8 = 7;
pub const REGION_SRAM: u8 = 8;
pub const REGION_NONE: u8 = 9;

/// Region and offset within it of a bus address; mirrors fold onto their
/// first copy. ROM past the loaded image and the holes of the map decode to
/// `REGION_NONE`.
pub open spec fn locate(addr: u32, rom_len: nat) -> (u8, int) {
    let top = addr / 0x0100_0000;
    if top == 0 {
        if addr < 0x4000 { (REGION_BIOS, addr as int) } else { (REGION_NONE, 0) }
    } else if top == 2 {
        (REGION_EWRAM, (addr % 0x40000) as int)
    } else if top == 3 {
        (REGION_IWRAM, (addr % 0x8000) as int)
    } else if top == 4 {
        if addr - 0x0400_0000 < 0x400 { (REGION_IO, addr - 0x0400_0000) } else { (REGION_NONE, 0) }
    } else if top == 5 {
        (REGION_PAL, (addr % 0x400) as int)
    } else if top == 6 {
        (REGION_VRAM, vram_offset(addr))
    } else if top == 7 {
        (REGION_OAM, (addr % 0x400) as int)
    } else if 8 <= top < 0xe {
        if ((addr % 0x200_0000) as int) < rom_len { (REGION_ROM, (addr % 0x200_0000) as int) } else { (REGION_NONE, 0) }
    } else if top == 0xe || top == 0xf {
        (REGION_SRAM, (addr % 0x10000) as int)
    } else {
        (REGION_NONE, 0)
    }
}

/// VRAM is 96 KiB mirrored in 128 KiB steps, its last 32 KiB repeating the
/// 32 KiB before them.
pub open spec fn vram_offset(addr: u32) -> int {
    let o = addr % 0x20000;
    if o < 0x18000 { o as int } else { o - 0x8000 }
}

/// Bits of the I/O byte at `off` that the CPU reads; write-only bits read 0.
pub open spec fn io_read_mask(off: int) -> u8 {
    if 0x10 <= off < 0x48 || 0x4c <= off < 0x50 || 0x54 <= off < 0x56 || 0xb0 <= off < 0xba
        || 0xbc <= off < 0xc6 || 0xc8 <= off < 0xd2 || 0xd4 <= off < 0xde {
        0
    } else {
        0xff
    }
}

/// Bits of the I/O byte at `off` that a CPU write changes; read-only bits
/// keep their value. (The interrupt-request bytes are handled apart.)
pub open spec fn io_write_mask(off: int) -> u8 {
    if off == 4 {
        0xf8
    } else if off == 6 || off == 7 || off == 0x130 || off == 0x131 {
        0
    } else {
        0xff
    }
}

/// Offsets of the interrupt-request register IF, where writing 1 clears a bit.
pub open spec fn is_irq_flag_byte(off: int) -> bool {
    off == 0x202 || off == 0x203
}

/// High bytes of the four DMA control registers (enable is their bit 7).
pub open spec fn is_dma_control_high(off: int) -> bool {
    off == 0xbb || off == 0xc7 || off == 0xd3 || off == 0xdf
}

/// Low bytes of the four timer control registers.
pub open spec fn is_timer_control(off: int) -> bool {
    off == 0x102 || off == 0x106 || off == 0x10a || off == 0x10e
}

/// Byte `k` (0..3) of a word, least significant first.
pub open spec fn byte_of(v: u32, k: int) -> u8 {
    if k == 0 {
        (v % 0x100) as u8
    } else if k == 1 {
        ((v / 0x100) % 0x100) as u8
    } else if k == 2 {
        ((v / 0x1_0000) % 0x100) as u8
    } else {
        ((v / 0x100_0000) % 0x100) as u8
    }
}

/// The memory map as sequences of bytes.
pub struct MemView {
    pub bios: Seq<u8>,
    pub ewram: Seq<u8>,
    pub iwram: Seq<u8>,
    pub io: Seq<u8>,
    pub pal: Seq<u8>,
    pub vram: Seq<u8>,
    pub oam: Seq<u8>,
    pub rom: Seq<u8>,
    pub sram: Seq<u8>,
    pub open_bus: u32,
    pub dma_dirty: bool,
    pub timers_dirty: bool,
}

impl MemView {
    pub open spec fn loc(self, addr: u32) -> (u8, int) {
        locate(addr, self.rom.len())
    }

    /// Byte of the open bus seen at `addr`.
    pub open spec fn open_bus_byte(self, addr: u32) -> u8 {
        byte_of(self.open_bus, (addr % 4) as int)
    }

    /// What an 8-bit read at `addr` returns.
    pub open spec fn load8(self, addr: u32) -> u8 {
        let (r, i) = self.loc(addr);
        if r == REGION_BIOS {
            self.bios[i]
        } else if r == REGION_EWRAM {
            self.ewram[i]
        } else if r == REGION_IWRAM {
            self.iwram[i]
        } else if r == REGION_IO {
            (self.io[i] & io_read_mask(i)) as u8
        } else if r == REGION_PAL {
            self.pal[i]
        } else if r == REGION_VRAM {
            self.vram[i]
        } else if r == REGION_OAM {
            self.oam[i]
        } else if r == REGION_ROM {
            self.rom[i]
        } else if r == REGION_SRAM {
            self.sram[i]
        } else {
            self.open_bus_byte(addr)
        }
    }

    /// What a 16-bit read at `addr` returns (the address is halfword-aligned).
    pub open spec fn load16(self, addr: u32) -> u16 {
        let a = (addr - addr % 2) as u32;
        (self.load8(a) as int + self.load8((a + 1) as u32) as int * 0x100) as u16
    }

    /// What a 32-bit read at `addr` returns (the address is word-aligned).
    #[verifier::opaque]
    pub open spec fn load32(self, addr: u32) -> u32 {
        let a = (addr - addr % 4) as u32;
        (self.load8(a) as int + self.load8((a + 1) as u32) as int * 0x100 + self.load8(
            (a + 2) as u32,
        ) as int * 0x1_0000 + self.load8((a + 3) as u32) as int * 0x100_0000) as u32
    }

    /// A CPU write of one byte to the I/O page at `off`.
    pub open spec fn io_store(self, off: int, v: u8) -> MemView {
        let prev = self.io[off];
        let new = if is_irq_flag_byte(off) {
            (prev & !v) as u8
        } else {
            ((prev & !io_write_mask(off)) | (v & io_write_mask(off))) as u8
        };
        MemView {
            io: self.io.update(off, new),
            dma_dirty: self.dma_dirty || (is_dma_control_high(off) && prev & 0x80 == 0 && v & 0x80
                != 0),
            timers_dirty: self.timers_dirty || is_timer_control(off),
            ..self
        }
    }

    /// A CPU write of one byte at `addr` as part of a 16- or 32-bit access:
    /// read-only regions and holes ignore it.
    pub open spec fn store_byte(self, addr: u32, v: u8) -> MemView {
        let (r, i) = self.loc(addr);
        if r == REGION_EWRAM {
            MemView { ewram: self.ewram.update(i, v), ..self }
        } else if r == REGION_IWRAM {
            MemView { iwram: self.iwram.update(i, v), ..self }
        } else if r == REGION_IO {
            self.io_store(i, v)
        } else if r == REGION_PAL {
            MemView { pal: self.pal.update(i, v), ..self }
        } else if r == REGION_VRAM {
            MemView { vram: self.vram.update(i, v), ..self }
        } else if r == REGION_OAM {
            MemView { oam: self.oam.update(i, v), ..self }
        } else if r == REGION_SRAM {
            MemView { sram: self.sram.update(i, v), ..self }
        } else {
            self
        }
    }

    /// An 8-bit CPU write: palette and VRAM take the byte in both halves of
    /// its halfword, OAM ignores it.
    pub open spec fn store8(self, addr: u32, v: u8) -> MemView {
        let (r, i) = self.loc(addr);
        let a = (addr - addr % 2) as u32;
        if r == REGION_PAL || r == REGION_VRAM {
            self.store_byte(a, v).store_byte((a + 1) as u32, v)
        } else if r == REGION_OAM {
            self
        } else {
            self.store_byte(addr, v)
        }
    }

    /// A 16-bit CPU write (the address is halfword-aligned).
    pub open spec fn store16(self, addr: u32, v: u16) -> MemView {
        let a = (addr - addr % 2) as u32;
        self.store_byte(a, byte_of(v as u32, 0)).store_byte((a + 1) as u32, byte_of(v as u32, 1))
    }

    /// A 32-bit CPU write (the address is word-aligned).
    pub open spec fn store32(self, addr: u32, v: u32) -> MemView {
        let a = (addr - addr % 4) as u32;
        self.store_byte(a, byte_of(v, 0)).store_byte((a + 1) as u32, byte_of(v, 1)).store_byte(
            (a + 2) as u32,
            byte_of(v, 2),
        ).store_byte((a + 3) as u32, byte_of(v, 3))
    }
}

/// Halfword of the I/O page at offset `off`, as the hardware side sees it.
pub open spec fn io_half(m: MemView, off: int) -> u16 {
    (m.io[off] as int + m.io[off + 1] as int * 0x100) as u16
}

/// Word of the I/O page at offset `off`, as the hardware side sees it.
pub open spec fn io_word(m: MemView, off: int) -> u32 {
    (io_half(m, off) as int + io_half(m, off + 2) as int * 0x1_0000) as u32
}

/// A register address that lies in the I/O page with `width` bytes.
pub open spec fn io_reg_ok(addr: u32, width: int) -> bool {
    addr >= IO_BASE && addr - IO_BASE + width <= IO_SIZE
}

/// The map whose I/O byte at `off` is `v`, nothing else changed.
pub open spec fn with_io_byte(m: MemView, off: int, v: u8) -> MemView {
    MemView { io: m.io.update(off, v), ..m }
}

/// The map after the hardware side writes halfword `v` at offset `off`.
pub open spec fn with_io_half(m: MemView, off: int, v: u16) -> MemView {
    with_io_byte(with_io_byte(m, off, byte_of(v as u32, 0)), off + 1, byte_of(v as u32, 1))
}

/// The map after the hardware side writes word `v` at offset `off`.
pub open spec fn with_io_word(m: MemView, off: int, v: u32) -> MemView {
    with_io_half(with_io_half(m, off, (v % 0x1_0000) as u16), off + 2, (v / 0x1_0000) as u16)
}

/// The console's address space.
pub struct GbaMemory {
    pub bios: Vec<u8>,
    pub ewram: Vec<u8>,
    pub iwram: Vec<u8>,
    pub io: Vec<u8>,
    pub pal: Vec<u8>,
    pub vram: Vec<u8>,
    pub oam: Vec<u8>,
    pub rom: Vec<u8>,
    pub sram: Vec<u8>,
    /// Last value seen on the prefetch bus; read back from unmapped addresses.
    pub open_bus: u32,
    /// Set when a DMA channel's enable bit rises; cleared by the DMA engine.
    pub dma_dirty: bool,
    /// Set when a timer control register is written; cleared by the timers.
    pub timers_dirty: bool,
}

impl View for GbaMemory {
    type V = MemView;

    open spec fn view(&self) -> MemView {
        MemView {
            bios: self.bios@,
            ewram: self.ewram@,
            iwram: self.iwram@,
            io: self.io@,
            pal: self.pal@,
            vram: self.vram@,
            oam: self.oam@,
            rom: self.rom@,
            sram: self.sram@,
            open_bus: self.open_bus,
            dma_dirty: self.dma_dirty,
            timers_dirty: self.timers_dirty,
        }
    }
}

/// Every region has its fixed size; the cartridge fits its 32 MiB window.
pub open spec fn mem_wf(m: MemView) -> bool {
    m.bios.len() == BIOS_SIZE && m.ewram.len() == EWRAM_SIZE && m.iwram.len() == IWRAM_SIZE
        && m.io.len() == IO_SIZE && m.pal.len() == PAL_SIZE && m.vram.len() == VRAM_SIZE
        && m.oam.len() == OAM_SIZE && m.sram.len() == SRAM_SIZE && m.rom.len() <= ROM_MAX
}

/// Regions that CPU writes reach: the work RAMs, palette, VRAM, OAM and
/// cartridge SRAM.
pub open spec fn is_ram_region(r: u8) -> bool {
    r == REGION_EWRAM || r == REGION_IWRAM || r == REGION_PAL || r == REGION_VRAM || r
        == REGION_OAM || r == REGION_SRAM
}

proof fn lemma_loc_step(m: MemView, a: u32, k: u32)
    requires
        mem_wf(m),
        a % 4 == 0,
        k < 4,
        is_ram_region(m.loc(a).0),
    ensures
        m.loc((a + k) as u32).0 == m.loc(a).0,
        m.loc((a + k) as u32).1 == m.loc(a).1 + k,
        m.loc(a).1 + 3 < (if m.loc(a).0 == REGION_EWRAM {
            EWRAM_SIZE
        } else if m.loc(a).0 == REGION_IWRAM {
            IWRAM_SIZE
        } else if m.loc(a).0 == REGION_VRAM {
            VRAM_SIZE
        } else if m.loc(a).0 == REGION_SRAM {
            SRAM_SIZE
        } else {
            PAL_SIZE
        }),
{
    let b = (a + k) as int;
    assert(b / 0x0100_0000 == a / 0x0100_0000) by (nonlinear_arith)
        requires
            a % 4 == 0,
            0 <= k < 4,
            b == a + k,
    ;
    assert(b % 0x40000 == a % 0x40000 + k && a % 0x40000 + 3 < 0x40000) by (nonlinear_arith)
        requires
            a % 4 == 0,
            0 <= k < 4,
            b == a + k,
    ;
    assert(b % 0x8000 == a % 0x8000 + k && a % 0x8000 + 3 < 0x8000) by (nonlinear_arith)
        requires
            a % 4 == 0,
            0 <= k < 4,
            b == a + k,
    ;
    assert(b % 0x400 == a % 0x400 + k && a % 0x400 + 3 < 0x400) by (nonlinear_arith)
        requires
            a % 4 == 0,
            0 <= k < 4,
            b == a + k,
    ;
    assert(b % 0x10000 == a % 0x10000 + k && a % 0x10000 + 3 < 0x10000) by (nonlinear_arith)
        requires
            a % 4 == 0,
            0 <= k < 4,
            b == a + k,
    ;
    assert(b % 0x20000 == a % 0x20000 + k && a % 0x20000 + 3 < 0x20000 && (a % 0x20000 < 0x18000
        ==> a % 0x20000 + 3 < 0x18000)) by (nonlinear_arith)
        requires
            a % 4 == 0,
            0 <= k < 4,
            b == a + k,
    ;
    assert(a + 3 <= 0xffff_ffff) by (nonlinear_arith)
        requires
            a % 4 == 0,
            a <= 0xffff_ffff,
    ;
}

proof fn lemma_bytes_recombine(v: u32)
    ensures
        byte_of(v, 0) as int + byte_of(v, 1) as int * 0x100 + byte_of(v, 2) as int * 0x1_0000
            + byte_of(v, 3) as int * 0x100_0000 == v,
        byte_of(v, 0) as int + byte_of(v, 1) as int * 0x100 == v % 0x1_0000,
{
    assert(v % 0x100 + ((v / 0x100) % 0x100) * 0x100 + ((v / 0x1_0000) % 0x100) * 0x1_0000 + ((v
        / 0x100_0000) % 0x100) * 0x100_0000 == v && v % 0x100 + ((v / 0x100) % 0x100) * 0x100 == v
        % 0x1_0000) by (bit_vector);
}

proof fn lemma_store_byte_load(m: MemView, x: u32, y: u32, v: u8)
    requires
        mem_wf(m),
        is_ram_region(m.loc(x).0),
        m.loc(y).0 == m.loc(x).0,
    ensures
        mem_wf(m.store_byte(x, v)),
        m.store_byte(x, v).rom == m.rom,
        m.loc(y).1 == m.loc(x).1 ==> m.store_byte(x, v).load8(y) == v,
        m.loc(y).1 != m.loc(x).1 ==> m.store_byte(x, v).load8(y) == m.load8(y),
{
    lemma_locate_in_bounds(m, x);
}

/// A write followed by a read of the same width at the same address gives the
/// value back, in every region that CPU writes reach.
pub proof fn lemma_write_read_round_trip(m: MemView, addr: u32, v: u32)
    requires
        mem_wf(m),
        is_ram_region(m.loc(addr).0),
    ensures
        m.store32(addr, v).load32(addr) == v,
        m.store16(addr, v as u16).load16(addr) == v as u16,
{
    lemma_round_trip32(m, addr, v);
    lemma_round_trip16(m, addr, v as u16);
}

/// An 8-bit write followed by an 8-bit read gives the byte back, in every
/// region that CPU writes reach but OAM, which ignores byte writes; palette
/// and VRAM take the byte in both halves of its halfword, and a 16-bit read
/// gives that halfword back.
pub proof fn lemma_write8_read_round_trip(m: MemView, addr: u32, v: u8)
    requires
        mem_wf(m),
        is_ram_region(m.loc(addr).0),
        m.loc(addr).0 != REGION_OAM,
    ensures
        m.store8(addr, v).load8(addr) == v,
        m.loc(addr).0 == REGION_PAL || m.loc(addr).0 == REGION_VRAM ==> m.store8(addr, v).load16(
            addr,
        ) == v as u16 * 0x101,
{
    let a = (addr - addr % 4) as u32;
    let h = (addr - addr % 2) as u32;
    assert(addr == a + addr % 4);
    lemma_loc_step(m, a, addr % 4);
    lemma_loc_step(m, a, 0);
    if m.loc(addr).0 == REGION_PAL || m.loc(addr).0 == REGION_VRAM {
        assert(h == a || h == a + 2);
        lemma_loc_step(m, a, (h - a) as u32);
        lemma_loc_step(m, a, (h - a + 1) as u32);
        lemma_store_byte_load(m, h, h, v);
        lemma_store_byte_load(m, h, (h + 1) as u32, v);
        let m1 = m.store_byte(h, v);
        lemma_store_byte_load(m1, (h + 1) as u32, h, v);
        lemma_store_byte_load(m1, (h + 1) as u32, (h + 1) as u32, v);
        lemma_store_byte_load(m1, (h + 1) as u32, addr, v);
        lemma_store_byte_load(m, h, addr, v);
    } else {
        lemma_store_byte_load(m, addr, addr, v);
    }
}

proof fn lemma_store32_byte_other(m: MemView, a: u32, y: u32, v: u32)
    requires
        mem_wf(m),
        a % 4 == 0,
        is_ram_region(m.loc(a).0),
        m.loc(y).0 == m.loc(a).0,
        m.loc(y).1 < m.loc(a).1 || m.loc(y).1 >= m.loc(a).1 + 4,
    ensures
        m.store32(a, v).load8(y) == m.load8(y),
        mem_wf(m.store32(a, v)),
        m.store32(a, v).rom == m.rom,
{
    lemma_loc_step(m, a, 0);
    lemma_loc_step(m, a, 1);
    lemma_loc_step(m, a, 2);
    lemma_loc_step(m, a, 3);
    let a1 = (a + 1) as u32;
    let a2 = (a + 2) as u32;
    let a3 = (a + 3) as u32;
    let m1 = m.store_byte(a, byte_of(v, 0));
    let m2 = m1.store_byte(a1, byte_of(v, 1));
    let m3 = m2.store_byte(a2, byte_of(v, 2));
    lemma_store_byte_load(m, a, y, byte_of(v, 0));
    lemma_store_byte_load(m1, a1, y, byte_of(v, 1));
    lemma_store_byte_load(m2, a2, y, byte_of(v, 2));
    lemma_store_byte_load(m3, a3, y, byte_of(v, 3));
    assert((a - a % 4) as u32 == a);
}

/// A 32-bit write leaves the other words of its 32 KiB window of work RAM as
/// they were.
pub proof fn lemma_store32_other(m: MemView, a: u32, b: u32, v: u32)
    requires
        mem_wf(m),
        a % 4 == 0,
        b % 4 == 0,
        a != b,
        a / 0x8000 == b / 0x8000,
        m.loc(a).0 == REGION_EWRAM || m.loc(a).0 == REGION_IWRAM,
    ensures
        m.store32(a, v).load32(b) == m.load32(b),
        mem_wf(m.store32(a, v)),
        m.store32(a, v).rom == m.rom,
{
    assert(a / 0x0100_0000 == b / 0x0100_0000) by (nonlinear_arith)
        requires
            a / 0x8000 == b / 0x8000,
    ;
    assert(a % 0x8000 != b % 0x8000 && a % 0x40000 != b % 0x40000 && a % 0x8000 % 4 == 0 && b
        % 0x8000 % 4 == 0 && a % 0x40000 % 4 == 0 && b % 0x40000 % 4 == 0) by (nonlinear_arith)
        requires
            a / 0x8000 == b / 0x8000,
            a != b,
            a % 4 == 0,
            b % 4 == 0,
    ;
    lemma_loc_step(m, b, 0);
    lemma_loc_step(m, b, 1);
    lemma_loc_step(m, b, 2);
    lemma_loc_step(m, b, 3);
    lemma_store32_byte_other(m, a, b, v);
    lemma_store32_byte_other(m, a, (b + 1) as u32, v);
    lemma_store32_byte_other(m, a, (b + 2) as u32, v);
    lemma_store32_byte_other(m, a, (b + 3) as u32, v);
    assert((b - b % 4) as u32 == b);
    reveal(MemView::load32);
}

/// A CPU write keeps every region at its size and the cartridge as it was.
pub proof fn lemma_store32_wf(m: MemView, a: u32, v: u32)
    requires
        mem_wf(m),
    ensures
        mem_wf(m.store32(a, v)),
        m.store32(a, v).rom == m.rom,
{
    let a0 = (a - a % 4) as u32;
    lemma_locate_in_bounds(m, a0);
    let m1 = m.store_byte(a0, byte_of(v, 0));
    lemma_locate_in_bounds(m1, (a0 + 1) as u32);
    let m2 = m1.store_byte((a0 + 1) as u32, byte_of(v, 1));
    lemma_locate_in_bounds(m2, (a0 + 2) as u32);
    let m3 = m2.store_byte((a0 + 2) as u32, byte_of(v, 2));
    lemma_locate_in_bounds(m3, (a0 + 3) as u32);
}

/// The bytes only the hardware side may change are as in `a`: VCOUNT and the
/// three read-only status bits of DISPSTAT. The map stays well formed and
/// keeps its cartridge.
pub open spec fn hw_status_kept(a: MemView, b: MemView) -> bool {
    &&& mem_wf(b)
    &&& b.rom == a.rom
    &&& b.io[6] == a.io[6]
    &&& b.io[7] == a.io[7]
    &&& b.io[4] % 8 == a.io[4] % 8
}

/// A CPU byte write keeps VCOUNT and the read-only bits of DISPSTAT.
pub proof fn lemma_store_byte_keeps_status(m: MemView, addr: u32, v: u8)
    requires
        mem_wf(m),
    ensures
        hw_status_kept(m, m.store_byte(addr, v)),
{
    lemma_locate_in_bounds(m, addr);
    let o = m.io[4];
    let o6 = m.io[6];
    let o7 = m.io[7];
    assert(((o & !0xf8u8) | (v & 0xf8u8)) % 8 == o % 8 && (o6 & !0u8) | (v & 0u8) == o6 && (o7
        & !0u8) | (v & 0u8) == o7) by (bit_vector);
}

pub proof fn lemma_store8_keeps_status(m: MemView, addr: u32, v: u8)
    requires
        mem_wf(m),
    ensures
        hw_status_kept(m, m.store8(addr, v)),
{
    let a = (addr - addr % 2) as u32;
    lemma_store_byte_keeps_status(m, a, v);
    lemma_store_byte_keeps_status(m.store_byte(a, v), (a + 1) as u32, v);
    lemma_store_byte_keeps_status(m, addr, v);
}

pub proof fn lemma_store16_keeps_status(m: MemView, addr: u32, v: u16)
    requires
        mem_wf(m),
    ensures
        hw_status_kept(m, m.store16(addr, v)),
{
    let a = (addr - addr % 2) as u32;
    let m1 = m.store_byte(a, byte_of(v as u32, 0));
    lemma_store_byte_keeps_status(m, a, byte_of(v as u32, 0));
    lemma_store_byte_keeps_status(m1, (a + 1) as u32, byte_of(v as u32, 1));
}

pub proof fn lemma_store32_keeps_status(m: MemView, addr: u32, v: u32)
    requires
        mem_wf(m),
    ensures
        hw_status_kept(m, m.store32(addr, v)),
{
    let a = (addr - addr % 4) as u32;
    let m1 = m.store_byte(a, byte_of(v, 0));
    let m2 = m1.store_byte((a + 1) as u32, byte_of(v, 1));
    let m3 = m2.store_byte((a + 2) as u32, byte_of(v, 2));
    lemma_store_byte_keeps_status(m, a, byte_of(v, 0));
    lemma_store_byte_keeps_status(m1, (a + 1) as u32, byte_of(v, 1));
    lemma_store_byte_keeps_status(m2, (a + 2) as u32, byte_of(v, 2));
    lemma_store_byte_keeps_status(m3, (a + 3) as u32, byte_of(v, 3));
}

proof fn lemma_round_trip16(m: MemView, addr: u32, w: u16)
    requires
        mem_wf(m),
        is_ram_region(m.loc(addr).0),
    ensures
        m.store16(addr, w).load16(addr) == w,
{
    let a = (addr - addr % 4) as u32;
    let h = (addr - addr % 2) as u32;
    assert(addr == a + addr % 4);
    lemma_loc_step(m, a, addr % 4);
    lemma_loc_step(m, a, 0);
    assert(h == a || h == a + 2);
    lemma_loc_step(m, a, (h - a) as u32);
    lemma_loc_step(m, a, (h - a + 1) as u32);
    let b0 = byte_of(w as u32, 0);
    let b1 = byte_of(w as u32, 1);
    lemma_store_byte_load(m, h, h, b0);
    lemma_store_byte_load(m, h, (h + 1) as u32, b0);
    let m1 = m.store_byte(h, b0);
    lemma_store_byte_load(m1, (h + 1) as u32, h, b1);
    lemma_store_byte_load(m1, (h + 1) as u32, (h + 1) as u32, b1);
    lemma_bytes_recombine(w as u32);
    assert((h - h % 2) as u32 == h);
}

pub proof fn lemma_round_trip32(m: MemView, addr: u32, v: u32)
    requires
        mem_wf(m),
        is_ram_region(m.loc(addr).0),
    ensures
        m.store32(addr, v).load32(addr) == v,
{
    let a = (addr - addr % 4) as u32;
    assert(addr == a + addr % 4);
    lemma_loc_step(m, a, addr % 4);
    lemma_loc_step(m, a, 0);
    lemma_loc_step(m, a, 1);
    lemma_loc_step(m, a, 2);
    lemma_loc_step(m, a, 3);
    let a1 = (a + 1) as u32;
    let a2 = (a + 2) as u32;
    let a3 = (a + 3) as u32;
    let m1 = m.store_byte(a, byte_of(v, 0));
    let m2 = m1.store_byte(a1, byte_of(v, 1));
    let m3 = m2.store_byte(a2, byte_of(v, 2));
    lemma_store_byte_load(m, a, a, byte_of(v, 0));
    lemma_store_byte_load(m1, a1, a, byte_of(v, 1));
    lemma_store_byte_load(m1, a1, a1, byte_of(v, 1));
    lemma_store_byte_load(m2, a2, a, byte_of(v, 2));
    lemma_store_byte_load(m2, a2, a1, byte_of(v, 2));
    lemma_store_byte_load(m2, a2, a2, byte_of(v, 2));
    lemma_store_byte_load(m3, a3, a, byte_of(v, 3));
    lemma_store_byte_load(m3, a3, a1, byte_of(v, 3));
    lemma_store_byte_load(m3, a3, a2, byte_of(v, 3));
    lemma_store_byte_load(m3, a3, a3, byte_of(v, 3));
    lemma_bytes_recombine(v);
    assert((a - a % 4) as u32 == a);
    reveal(MemView::load32);
}

proof fn lemma_locate_in_bounds(m: MemView, addr: u32)
    requires
        mem_wf(m),
    ensures
        ({
            let (r, i) = m.loc(addr);
            &&& r == REGION_BIOS ==> 0 <= i < m.bios.len()
            &&& r == REGION_EWRAM ==> 0 <= i < m.ewram.len()
            &&& r == REGION_IWRAM ==> 0 <= i < m.iwram.len()
            &&& r == REGION_IO ==> 0 <= i < m.io.len()
            &&& r == REGION_PAL ==> 0 <= i < m.pal.len()
            &&& r == REGION_VRAM ==> 0 <= i < m.vram.len()
            &&& r == REGION_OAM ==> 0 <= i < m.oam.len()
            &&& r == REGION_ROM ==> 0 <= i < m.rom.len()
            &&& r == REGION_SRAM ==> 0 <= i < m.sram.len()
        }),
{
}

/// Offset of a word's byte `k`, computed as the memory map does.
fn word_byte(v: u32, k: u32) -> (b: u8)
    requires
        k < 4,
    ensures
        b == byte_of(v, k as int),
{
    if k == 0 {
        (v % 0x100) as u8
    } else if k == 1 {
        ((v / 0x100) % 0x100) as u8
    } else if k == 2 {
        ((v / 0x1_0000) % 0x100) as u8
    } else {
        ((v / 0x100_0000) % 0x100) as u8
    }
}

impl GbaMemory {
    pub open spec fn wf(&self) -> bool {
        mem_wf(self@)
    }

    /// An empty map: every region zero, no cartridge.
    pub fn new() -> (m: GbaMemory)
        ensures
            m.wf(),
            m@.rom.len() == 0,
            m@.open_bus == 0,
            !m@.dma_dirty,
            !m@.timers_dirty,
            forall|i: int| 0 <= i < IO_SIZE ==> m@.io[i] == 0,
    {
        GbaMemory {
            bios: vec![0u8; BIOS_SIZE],
            ewram: vec![0u8; EWRAM_SIZE],
            iwram: vec![0u8; IWRAM_SIZE],
            io: vec![0u8; IO_SIZE],
            pal: vec![0u8; PAL_SIZE],
            vram: vec![0u8; VRAM_SIZE],
            oam: vec![0u8; OAM_SIZE],
            rom: Vec::new(),
            sram: vec![0u8; SRAM_SIZE],
            open_bus: 0,
            dma_dirty: false,
            timers_dirty: false,
        }
    }

    /// Region and offset of `addr`, as `locate` states it.
    pub fn decode(&self, addr: u32) -> (r: (u8, usize))
        requires
            self.wf(),
        ensures
            r.0 == self@.loc(addr).0,
            r.0 != REGION_NONE ==> r.1 as int == self@.loc(addr).1,
    {
        let top = addr / 0x0100_0000;
        if top == 0 {
            if addr < 0x4000 { (REGION_BIOS, addr as usize) } else { (REGION_NONE, 0) }
        } else if top == 2 {
            (REGION_EWRAM, (addr % 0x40000) as usize)
        } else if top == 3 {
            (REGION_IWRAM, (addr % 0x8000) as usize)
        } else if top == 4 {
            if addr - 0x0400_0000 < 0x400 {
                (REGION_IO, (addr - 0x0400_0000) as usize)
            } else {
                (REGION_NONE, 0)
            }
        } else if top == 5 {
            (REGION_PAL, (addr % 0x400) as usize)
        } else if top == 6 {
            let o = addr % 0x20000;
            (REGION_VRAM, if o < 0x18000 { o as usize } else { (o - 0x8000) as usize })
        } else if top == 7 {
            (REGION_OAM, (addr % 0x400) as usize)
        } else if 8 <= top && top < 0xe {
            let o = (addr % 0x200_0000) as usize;
            if o < self.rom.len() { (REGION_ROM, o) } else { (REGION_NONE, 0) }
        } else if top == 0xe || top == 0xf {
            (REGION_SRAM, (addr % 0x10000) as usize)
        } else {
            (REGION_NONE, 0)
        }
    }

    /// 8-bit read.
    pub fn read8(&self, addr: u32) -> (v: u8)
        requires
            self.wf(),
        ensures
            v == self@.load8(addr),
    {
        proof {
            lemma_locate_in_bounds(self@, addr);
        }
        let (r, i) = self.decode(addr);
        if r == REGION_BIOS {
            self.bios[i]
        } else if r == REGION_EWRAM {
            self.ewram[i]
        } else if r == REGION_IWRAM {
            self.iwram[i]
        } else if r == REGION_IO {
            self.io[i] & Self::io_read_mask_of(i)
        } else if r == REGION_PAL {
            self.pal[i]
        } else if r == REGION_VRAM {
            self.vram[i]
        } else if r == REGION_OAM {
            self.oam[i]
        } else if r == REGION_ROM {
            self.rom[i]
        } else if r == REGION_SRAM {
            self.sram[i]
        } else {
            word_byte(self.open_bus, addr % 4)
        }
    }

    /// 16-bit read of the halfword holding `addr`.
    pub fn read16(&self, addr: u32) -> (v: u16)
        requires
            self.wf(),
        ensures
            v == self@.load16(addr),
    {
        let a = addr - addr % 2;
        let lo = self.read8(a);
        let hi = self.read8(a + 1);
        lo as u16 + hi as u16 * 0x100
    }

    /// 32-bit read of the word holding `addr`.
    pub fn read32(&self, addr: u32) -> (v: u32)
        requires
            self.wf(),
        ensures
            v == self@.load32(addr),
    {
        proof {
            reveal(MemView::load32);
        }
        let a = addr - addr % 4;
        let b0 = self.read8(a);
        let b1 = self.read8(a + 1);
        let b2 = self.read8(a + 2);
        let b3 = self.read8(a + 3);
        b0 as u32 + b1 as u32 * 0x100 + b2 as u32 * 0x1_0000 + b3 as u32 * 0x100_0000
    }

    fn io_read_mask_of(off: usize) -> (m: u8)
        ensures
            m == io_read_mask(off as int),
    {
        if (0x10 <= off && off < 0x48) || (0x4c <= off && off < 0x50) || (0x54 <= off && off
            < 0x56) || (0xb0 <= off && off < 0xba) || (0xbc <= off && off < 0xc6) || (0xc8 <= off
            && off < 0xd2) || (0xd4 <= off && off < 0xde) {
            0
        } else {
            0xff
        }
    }

    fn io_write_mask_of(off: usize) -> (m: u8)
        ensures
            m == io_write_mask(off as int),
    {
        if off == 4 {
            0xf8
        } else if off == 6 || off == 7 || off == 0x130 || off == 0x131 {
            0
        } else {
            0xff
        }
    }

    fn io_store(&mut self, off: usize, v: u8)
        requires
            old(self).wf(),
            off < IO_SIZE,
        ensures
            final(self)@ == old(self)@.io_store(off as int, v),
            final(self).wf(),
    {
        let prev = self.io[off];
        let new = if off == 0x202 || off == 0x203 {
            prev & !v
        } else {
            let m = Self::io_write_mask_of(off);
            (prev & !m) | (v & m)
        };
        self.io[off] = new;
        if (off == 0xbb || off == 0xc7 || off == 0xd3 || off == 0xdf) && prev & 0x80 == 0 && v
            & 0x80 != 0 {
            self.dma_dirty = true;
        }
        if off == 0x102 || off == 0x106 || off == 0x10a || off == 0x10e {
            self.timers_dirty = true;
        }
        assert(self@ =~= old(self)@.io_store(off as int, v));
    }

    fn store_byte(&mut self, addr: u32, v: u8)
        requires
            old(self).wf(),
        ensures
            final(self)@ == old(self)@.store_byte(addr, v),
            final(self).wf(),
    {
        proof {
            lemma_locate_in_bounds(self@, addr);
        }
        let (r, i) = self.decode(addr);
        if r == REGION_EWRAM {
            self.ewram[i] = v;
        } else if r == REGION_IWRAM {
            self.iwram[i] = v;
        } else if r == REGION_IO {
            self.io_store(i, v);
        } else if r == REGION_PAL {
            self.pal[i] = v;
        } else if r == REGION_VRAM {
            self.vram[i] = v;
        } else if r == REGION_OAM {
            self.oam[i] = v;
        } else if r == REGION_SRAM {
            self.sram[i] = v;
        }
        assert(self@ =~= old(self)@.store_byte(addr, v));
    }

    /// 8-bit write.
    pub fn write8(&mut self, addr: u32, v: u8)
        requires
            old(self).wf(),
        ensures
            final(self)@ == old(self)@.store8(addr, v),
            final(self).wf(),
    {
        let (r, _i) = self.decode(addr);
        if r == REGION_PAL || r == REGION_VRAM {
            let a = addr - addr % 2;
            self.store_byte(a, v);
            self.store_byte(a + 1, v);
        } else if r != REGION_OAM {
            self.store_byte(addr, v);
        }
    }

    /// 16-bit write to the halfword holding `addr`.
    pub fn write16(&mut self, addr: u32, v: u16)
        requires
            old(self).wf(),
        ensures
            final(self)@ == old(self)@.store16(addr, v),
            final(self).wf(),
    {
        let a = addr - addr % 2;
        self.store_byte(a, word_byte(v as u32, 0));
        self.store_byte(a + 1, word_byte(v as u32, 1));
    }

    /// 32-bit write to the word holding `addr`.
    pub fn write32(&mut self, addr: u32, v: u32)
        requires
            old(self).wf(),
        ensures
            final(self)@ == old(self)@.store32(addr, v),
            final(self).wf(),
    {
        let a = addr - addr % 4;
        self.store_byte(a, word_byte(v, 0));
        self.store_byte(a + 1, word_byte(v, 1));
        self.store_byte(a + 2, word_byte(v, 2));
        self.store_byte(a + 3, word_byte(v, 3));
    }

    /// Reads an 8-bit I/O register as the hardware sees it (no read mask).
    pub fn get_reg8(&self, r: IORegister8) -> (v: u8)
        requires
            self.wf(),
            io_reg_ok(r.0, 1),
        ensures
            v == self@.io[r.0 - IO_BASE],
    {
        self.io[(r.0 - IO_BASE) as usize]
    }

    /// Writes an 8-bit I/O register from the hardware side (no write mask, no
    /// side effect).
    pub fn set_reg8(&mut self, r: IORegister8, v: u8)
        requires
            old(self).wf(),
            io_reg_ok(r.0, 1),
        ensures
            final(self)@ == with_io_byte(old(self)@, r.0 - IO_BASE, v),
            final(self).wf(),
    {
        self.io[(r.0 - IO_BASE) as usize] = v;
        assert(self@ =~= with_io_byte(old(self)@, r.0 - IO_BASE, v));
    }

    /// Reads a 16-bit I/O register as the hardware sees it.
    pub fn get_reg(&self, r: IORegister16) -> (v: u16)
        requires
            self.wf(),
            io_reg_ok(r.0, 2),
        ensures
            v == io_half(self@, r.0 - IO_BASE),
    {
        let off = (r.0 - IO_BASE) as usize;
        self.io[off] as u16 + self.io[off + 1] as u16 * 0x100
    }

    /// Writes a 16-bit I/O register from the hardware side.
    pub fn set_reg(&mut self, r: IORegister16, v: u16)
        requires
            old(self).wf(),
            io_reg_ok(r.0, 2),
        ensures
            final(self)@ == with_io_half(old(self)@, r.0 - IO_BASE, v),
            final(self).wf(),
    {
        let off = (r.0 - IO_BASE) as usize;
        self.io[off] = word_byte(v as u32, 0);
        self.io[off + 1] = word_byte(v as u32, 1);
        assert(self@ =~= with_io_half(old(self)@, r.0 - IO_BASE, v));
    }

    /// Reads a 32-bit I/O register as the hardware sees it.
    pub fn get_reg32(&self, r: IORegister32) -> (v: u32)
        requires
            self.wf(),
            io_reg_ok(r.0, 4),
        ensures
            v == io_word(self@, r.0 - IO_BASE),
    {
        let lo = self.get_reg(IORegister16(r.0));
        let hi = self.get_reg(IORegister16(r.0 + 2));
        lo as u32 + hi as u32 * 0x1_0000
    }

    /// Writes a 32-bit I/O register from the hardware side.
    pub fn set_reg32(&mut self, r: IORegister32, v: u32)
        requires
            old(self).wf(),
            io_reg_ok(r.0, 4),
        ensures
            final(self)@ == with_io_word(old(self)@, r.0 - IO_BASE, v),
            final(self).wf(),
    {
        self.set_reg(IORegister16(r.0), (v % 0x1_0000) as u16);
        self.set_reg(IORegister16(r.0 + 2), (v / 0x1_0000) as u16);
    }
}

} // verus!
