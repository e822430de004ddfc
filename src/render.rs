use vstd::prelude::*;
use crate::ioreg::{IORegister16, BG0CNT, BG0HOFS, BG0VOFS, BG2PA, BG2PC, DISPCNT};
use crate::lcd::{GbaBGLine, GbaDisplayLines, Pixel};
use crate::memory::{GbaMemory, MemView, io_half, IO_BASE};
use vstd::arithmetic::div_mod::lemma_mod_multiples_vanish;

verus! {

pub const VRAM_BASE: u32 = 0x0600_0000;
pub const PAL_BASE: u32 = 0x0500_0000;

/// Background palette colour `idx` (0..255) as an opaque pixel.
pub open spec fn bg_color(m: MemView, idx: int) -> Pixel {
    m.load16((PAL_BASE + idx * 2) as u32) | 0x8000
}

/// VRAM byte at offset `off`.
pub open spec fn vram8(m: MemView, off: int) -> u8 {
    m.load8((VRAM_BASE + off) as u32)
}

/// VRAM halfword at offset `off`.
pub open spec fn vram16(m: MemView, off: int) -> u16 {
    m.load16((VRAM_BASE + off) as u32)
}

/// Width and height in pixels of a text background of size field `size`.
pub open spec fn text_dims(size: int) -> (int, int) {
    if size == 0 { (256, 256) } else if size == 1 { (512, 256) } else if size == 2 { (256, 512) } else { (512, 512) }
}

/// Pixel `x` of line `y` of a text-mode background with control `cnt` and
/// scroll offsets `hofs`, `vofs` (transparent pixels have bit 15 clear).
pub open spec fn text_pixel_spec(m: MemView, cnt: u16, hofs: u16, vofs: u16, x: int, y: int) -> Pixel {
    let size = (cnt / 0x4000) as int;
    let (w, h) = text_dims(size);
    let px = (x + (hofs % 512) as int) % w;
    let py = (y + (vofs % 512) as int) % h;
    let tx = px / 8;
    let ty = py / 8;
    let block = if size == 1 { tx / 32 } else if size == 2 { ty / 32 } else if size == 3 { tx / 32 + (ty / 32) * 2 } else { 0 };
    let map_off = ((cnt / 256) % 32) as int * 0x800 + block * 0x800 + ((ty % 32) * 32 + tx % 32) * 2;
    let entry = vram16(m, map_off) as int;
    let tile = entry % 1024;
    let ix = if (entry / 1024) % 2 == 1 { 7 - px % 8 } else { px % 8 };
    let iy = if (entry / 2048) % 2 == 1 { 7 - py % 8 } else { py % 8 };
    let char_base = ((cnt / 4) % 4) as int * 0x4000;
    if (cnt / 128) % 2 == 1 {
        let idx = vram8(m, char_base + tile * 64 + iy * 8 + ix) as int;
        if idx == 0 { 0 } else { bg_color(m, idx) }
    } else {
        let b = vram8(m, char_base + tile * 32 + iy * 4 + ix / 2) as int;
        let nib = if ix % 2 == 1 { b / 16 } else { b % 16 };
        if nib == 0 { 0 } else { bg_color(m, (entry / 4096) * 16 + nib) }
    }
}

fn bg_color_of(memory: &GbaMemory, idx: u32) -> (p: Pixel)
    requires
        memory.wf(),
        idx < 256,
    ensures
        p == bg_color(memory@, idx as int),
{
    memory.read16(PAL_BASE + idx * 2) | 0x8000
}

#[verifier::rlimit(50)]
fn text_pixel(memory: &GbaMemory, cnt: u16, hofs: u16, vofs: u16, x: u32, y: u32) -> (p: Pixel)
    requires
        memory.wf(),
        x < 240,
        y < 160,
    ensures
        p == text_pixel_spec(memory@, cnt, hofs, vofs, x as int, y as int),
{
    let size = (cnt / 0x4000) as u32;
    let (w, h): (u32, u32) = if size == 0 { (256, 256) } else if size == 1 { (512, 256) } else if size == 2 { (256, 512) } else { (512, 512) };
    let px = (x + (hofs % 512) as u32) % w;
    let py = (y + (vofs % 512) as u32) % h;
    let tx = px / 8;
    let ty = py / 8;
    let block = if size == 1 { tx / 32 } else if size == 2 { ty / 32 } else if size == 3 { tx / 32 + (ty / 32) * 2 } else { 0 };
    let map_off = ((cnt / 256) % 32) as u32 * 0x800 + block * 0x800 + ((ty % 32) * 32 + tx % 32) * 2;
    let entry = memory.read16(VRAM_BASE + map_off) as u32;
    let tile = entry % 1024;
    let ix = if (entry / 1024) % 2 == 1 { 7 - px % 8 } else { px % 8 };
    let iy = if (entry / 2048) % 2 == 1 { 7 - py % 8 } else { py % 8 };
    let char_base = ((cnt / 4) % 4) as u32 * 0x4000;
    if (cnt / 128) % 2 == 1 {
        let idx = memory.read8(VRAM_BASE + char_base + tile * 64 + iy * 8 + ix) as u32;
        if idx == 0 { 0 } else { bg_color_of(memory, idx) }
    } else {
        let b = memory.read8(VRAM_BASE + char_base + tile * 32 + iy * 4 + ix / 2) as u32;
        let nib = if ix % 2 == 1 { b / 16 } else { b % 16 };
        if nib == 0 { 0 } else { bg_color_of(memory, (entry / 4096) * 16 + nib) }
    }
}

/// A 16-bit register read as a signed number.
pub open spec fn s16(v: u16) -> int {
    if v >= 0x8000 { v as int - 0x1_0000 } else { v as int }
}

/// Whole part of reference `r` plus `x` steps of the signed 8.8 value `p`.
#[verifier::opaque]
pub open spec fn axis(r: i32, x: int, p: u16) -> int {
    (r as int + x * s16(p)) / 256
}

/// Side in pixels of an affine background of size field `size`.
pub open spec fn affine_size(size: int) -> int {
    if size == 0 { 128 } else if size == 1 { 256 } else if size == 2 { 512 } else { 1024 }
}

/// Pixel `x` of an affine background with control `cnt`, matrix entries
/// `pa`, `pc` (8.8 fixed point) and the line's reference point `(refx,
/// refy)` (20.8 fixed point). Outside the map it is transparent unless the
/// background wraps around (bit 13).
pub open spec fn affine_pixel_spec(m: MemView, cnt: u16, pa: u16, pc: u16, refx: i32, refy: i32, x: int) -> Pixel {
    let size = affine_size((cnt / 0x4000) as int);
    let tx0 = axis(refx, x, pa);
    let ty0 = axis(refy, x, pc);
    if (cnt / 0x2000) % 2 == 0 && !(0 <= tx0 < size && 0 <= ty0 < size) {
        0
    } else {
        affine_texel_spec(m, cnt, tx0 % size, ty0 % size, size)
    }
}

/// Texel coordinate of `v` (8 fractional bits) on a map of side `size`:
/// wrapped, or `size` when outside and not wrapping.
fn texel(v: i64, size: u32, wrap: bool) -> (t: u32)
    requires
        -0x1_0000_0000 < v < 0x1_0000_0000,
        size == 128 || size == 256 || size == 512 || size == 1024,
    ensures
        wrap ==> t as int == (v as int / 256) % (size as int),
        !wrap && 0 <= v as int / 256 < size ==> t as int == v as int / 256,
        !wrap && !(0 <= v as int / 256 < size) ==> t == size,
{
    let q = ((v + 0x100_0000_0000) as u64 / 256) as i64 - 0x1_0000_0000;
    assert(q as int == v as int / 256);
    if wrap {
        let r = ((q + 0x1_0000_0000) as u64 % size as u64) as u32;
        proof {
            let k = 0x1_0000_0000int / (size as int);
            assert(k * (size as int) == 0x1_0000_0000int);
            lemma_mod_multiples_vanish(k, q as int, size as int);
        }
        r
    } else if 0 <= q && q < size as i64 {
        q as u32
    } else {
        size
    }
}

/// Texel coordinate along one axis for pixel `x`: reference `r` plus `x`
/// steps of the signed 8.8 value `p`.
fn coord(r: i32, x: u32, p: u16, size: u32, wrap: bool) -> (t: u32)
    requires
        x < 240,
        size == 128 || size == 256 || size == 512 || size == 1024,
    ensures
        wrap ==> t as int == axis(r, x as int, p) % (size as int),
        !wrap && 0 <= axis(r, x as int, p) < size ==> t as int == axis(r, x as int, p),
        !wrap && !(0 <= axis(r, x as int, p) < size) ==> t == size,
{
    reveal(axis);
    let sp: i64 = if p >= 0x8000 { p as i64 - 0x1_0000 } else { p as i64 };
    assert(-0x8000 * 240 <= x as int * sp as int <= 0x8000 * 240) by (nonlinear_arith)
        requires
            x < 240,
            -0x8000 <= sp <= 0x8000,
    ;
    texel(r as i64 + x as i64 * sp, size, wrap)
}

fn affine_pixel(memory: &GbaMemory, cnt: u16, pa: u16, pc: u16, refx: i32, refy: i32, x: u32) -> (p: Pixel)
    requires
        memory.wf(),
        x < 240,
    ensures
        p == affine_pixel_spec(memory@, cnt, pa, pc, refx, refy, x as int),
{
    let s = (cnt / 0x4000) as u32;
    let size: u32 = if s == 0 { 128 } else if s == 1 { 256 } else if s == 2 { 512 } else { 1024 };
    let wrap = (cnt / 0x2000) % 2 == 1;
    let tx = coord(refx, x, pa, size, wrap);
    let ty = coord(refy, x, pc, size, wrap);
    if tx >= size || ty >= size {
        0
    } else {
        affine_texel(memory, cnt, tx, ty, size)
    }
}

/// Colour of texel `(tx, ty)` of an affine map of side `size`.
#[verifier::opaque]
pub open spec fn affine_texel_spec(m: MemView, cnt: u16, tx: int, ty: int, size: int) -> Pixel {
    let map = ((cnt / 256) % 32) as int * 0x800 + (ty / 8) * (size / 8) + tx / 8;
    let tile = vram8(m, map) as int;
    let idx = vram8(m, ((cnt / 4) % 4) as int * 0x4000 + tile * 64 + (ty % 8) * 8 + tx % 8) as int;
    if idx == 0 { 0 } else { bg_color(m, idx) }
}

fn affine_texel(memory: &GbaMemory, cnt: u16, tx: u32, ty: u32, size: u32) -> (p: Pixel)
    requires
        memory.wf(),
        tx < size,
        ty < size,
        size <= 1024,
    ensures
        p == affine_texel_spec(memory@, cnt, tx as int, ty as int, size as int),
{
    reveal(affine_texel_spec);
    assert((ty / 8) * (size / 8) <= 128 * 128) by (nonlinear_arith)
        requires
            ty < size,
            size <= 1024,
    ;
    let map = ((cnt / 256) % 32) as u32 * 0x800 + (ty / 8) * (size / 8) + tx / 8;
    let tile = memory.read8(VRAM_BASE + map) as u32;
    let idx = memory.read8(VRAM_BASE + ((cnt / 4) % 4) as u32 * 0x4000 + tile * 64 + (ty % 8) * 8 + tx % 8) as u32;
    if idx == 0 { 0 } else { bg_color_of(memory, idx) }
}

/// Line of affine background `bg` (2 or 3) for reference point `(refx,
/// refy)`.
pub open spec fn affine_line_ok(m: MemView, line: GbaBGLine, bg: int, refx: i32, refy: i32) -> bool {
    let cnt = io_half(m, BG0CNT - IO_BASE + 2 * bg);
    let pa = io_half(m, BG2PA - IO_BASE + 0x10 * (bg - 2));
    let pc = io_half(m, BG2PC - IO_BASE + 0x10 * (bg - 2));
    forall|x: int| 0 <= x < 240 ==> #[trigger] line[x] == affine_pixel_spec(m, cnt, pa, pc, refx, refy, x)
}

fn affine_line(memory: &GbaMemory, bg: u32, refx: i32, refy: i32) -> (line: GbaBGLine)
    requires
        memory.wf(),
        bg == 2 || bg == 3,
    ensures
        affine_line_ok(memory@, line, bg as int, refx, refy),
{
    let cnt = memory.get_reg(IORegister16(BG0CNT + 2 * bg));
    let pa = memory.get_reg(IORegister16(BG2PA + 0x10 * (bg - 2)));
    let pc = memory.get_reg(IORegister16(BG2PC + 0x10 * (bg - 2)));
    let mut line: GbaBGLine = [0u16; 240];
    let mut x: u32 = 0;
    while x < 240
        invariant
            x <= 240,
            memory.wf(),
            bg == 2 || bg == 3,
            cnt == io_half(memory@, BG0CNT - IO_BASE + 2 * bg),
            pa == io_half(memory@, BG2PA - IO_BASE + 0x10 * (bg - 2)),
            pc == io_half(memory@, BG2PC - IO_BASE + 0x10 * (bg - 2)),
            forall|i: int| 0 <= i < x ==> #[trigger] line[i] == affine_pixel_spec(memory@, cnt, pa, pc, refx, refy, i),
        decreases 240 - x,
    {
        line[x as usize] = affine_pixel(memory, cnt, pa, pc, refx, refy, x);
        x = x + 1;
    }
    line
}

/// Pixel `x` of line `y` of the 240x160 direct-colour bitmap (mode 3).
pub open spec fn mode3_pixel_spec(m: MemView, x: int, y: int) -> Pixel {
    vram16(m, (y * 240 + x) * 2) | 0x8000
}

/// Pixel `x` of line `y` of the paletted bitmap (mode 4); `page` selects the
/// second frame.
pub open spec fn mode4_pixel_spec(m: MemView, page: bool, x: int, y: int) -> Pixel {
    let idx = vram8(m, (if page { 0xa000int } else { 0int }) + y * 240 + x) as int;
    if idx == 0 { 0 } else { bg_color(m, idx) }
}

/// Pixel `x` of line `y` of the 160x128 direct-colour bitmap (mode 5).
pub open spec fn mode5_pixel_spec(m: MemView, page: bool, x: int, y: int) -> Pixel {
    if x < 160 && y < 128 {
        vram16(m, (if page { 0xa000int } else { 0int }) + (y * 160 + x) * 2) | 0x8000
    } else {
        0
    }
}

/// Line `y` of text background `bg` as the registers in `m` describe it.
pub open spec fn text_line_ok(m: MemView, line: GbaBGLine, bg: int, y: int) -> bool {
    let cnt = io_half(m, BG0CNT - IO_BASE + 2 * bg);
    let hofs = io_half(m, BG0HOFS - IO_BASE + 4 * bg);
    let vofs = io_half(m, BG0VOFS - IO_BASE + 4 * bg);
    forall|x: int| 0 <= x < 240 ==> #[trigger] line[x] == text_pixel_spec(m, cnt, hofs, vofs, x, y)
}

fn text_line(memory: &GbaMemory, bg: u32, y: u32) -> (line: GbaBGLine)
    requires
        memory.wf(),
        bg < 4,
        y < 160,
    ensures
        text_line_ok(memory@, line, bg as int, y as int),
{
    let cnt = memory.get_reg(IORegister16(BG0CNT + 2 * bg));
    let hofs = memory.get_reg(IORegister16(BG0HOFS + 4 * bg));
    let vofs = memory.get_reg(IORegister16(BG0VOFS + 4 * bg));
    let mut line: GbaBGLine = [0u16; 240];
    let mut x: u32 = 0;
    while x < 240
        invariant
            x <= 240,
            memory.wf(),
            y < 160,
            cnt == io_half(memory@, BG0CNT - IO_BASE + 2 * bg),
            hofs == io_half(memory@, BG0HOFS - IO_BASE + 4 * bg),
            vofs == io_half(memory@, BG0VOFS - IO_BASE + 4 * bg),
            forall|i: int| 0 <= i < x ==> #[trigger] line[i] == text_pixel_spec(memory@, cnt, hofs, vofs, i, y as int),
        decreases 240 - x,
    {
        line[x as usize] = text_pixel(memory, cnt, hofs, vofs, x, y);
        x = x + 1;
    }
    line
}

/// Line `y` of the bitmap background of mode `mode` (3, 4 or 5).
pub open spec fn bitmap_line_ok(m: MemView, line: GbaBGLine, mode: int, page: bool, y: int) -> bool {
    forall|x: int| 0 <= x < 240 ==> #[trigger] line[x] == (if mode == 3 {
        mode3_pixel_spec(m, x, y)
    } else if mode == 4 {
        mode4_pixel_spec(m, page, x, y)
    } else {
        mode5_pixel_spec(m, page, x, y)
    })
}

fn bitmap_line(memory: &GbaMemory, mode: u16, page: bool, y: u32) -> (line: GbaBGLine)
    requires
        memory.wf(),
        y < 160,
    ensures
        bitmap_line_ok(memory@, line, mode as int, page, y as int),
{
    let base: u32 = if page { 0xa000 } else { 0 };
    let mut line: GbaBGLine = [0u16; 240];
    let mut x: u32 = 0;
    while x < 240
        invariant
            x <= 240,
            memory.wf(),
            y < 160,
            base == (if page { 0xa000u32 } else { 0u32 }),
            forall|i: int| 0 <= i < x ==> #[trigger] line[i] == (if mode == 3 {
                mode3_pixel_spec(memory@, i, y as int)
            } else if mode == 4 {
                mode4_pixel_spec(memory@, page, i, y as int)
            } else {
                mode5_pixel_spec(memory@, page, i, y as int)
            }),
        decreases 240 - x,
    {
        let p = if mode == 3 {
            memory.read16(VRAM_BASE + (y * 240 + x) * 2) | 0x8000
        } else if mode == 4 {
            let idx = memory.read8(VRAM_BASE + base + y * 240 + x) as u32;
            if idx == 0 { 0 } else { bg_color_of(memory, idx) }
        } else if x < 160 && y < 128 {
            memory.read16(VRAM_BASE + base + (y * 160 + x) * 2) | 0x8000
        } else {
            0
        };
        line[x as usize] = p;
        x = x + 1;
    }
    line
}

/// The backgrounds a mode produces: text BG0..BG3 in mode 0; text BG0 and
/// BG1 and affine BG2 in mode 1; affine BG2 and BG3 in mode 2; the bitmap as
/// BG2 in modes 3..5.
pub open spec fn produces_text(mode: int, bg: int) -> bool {
    mode == 0 || (mode == 1 && bg < 2)
}

pub open spec fn produces_affine(mode: int, bg: int) -> bool {
    (mode == 1 && bg == 2) || (mode == 2 && bg >= 2)
}

/// The line buffers hold line `y` as the registers and VRAM in `m` and the
/// affine reference points `refs` (BG2 x and y, BG3 x and y) describe it.
#[verifier::opaque]
pub open spec fn lines_produced(m: MemView, l: &GbaDisplayLines, y: int, refs: [i32; 4]) -> bool {
    let dispcnt = io_half(m, DISPCNT - IO_BASE);
    let mode = (dispcnt % 8) as int;
    let page = (dispcnt / 16) % 2 == 1;
    &&& l.bg0_enable == produces_text(mode, 0)
    &&& l.bg1_enable == produces_text(mode, 1)
    &&& l.bg2_enable == (produces_text(mode, 2) || produces_affine(mode, 2) || 3 <= mode <= 5)
    &&& l.bg3_enable == (produces_text(mode, 3) || produces_affine(mode, 3))
    &&& produces_affine(mode, 2) ==> affine_line_ok(m, l.bg2, 2, refs[0], refs[1])
    &&& produces_affine(mode, 3) ==> affine_line_ok(m, l.bg3, 3, refs[2], refs[3])
    &&& produces_text(mode, 0) ==> text_line_ok(m, l.bg0, 0, y)
    &&& produces_text(mode, 1) ==> text_line_ok(m, l.bg1, 1, y)
    &&& produces_text(mode, 2) ==> text_line_ok(m, l.bg2, 2, y)
    &&& produces_text(mode, 3) ==> text_line_ok(m, l.bg3, 3, y)
    &&& 3 <= mode <= 5 ==> bitmap_line_ok(m, l.bg2, mode, page, y)
}

/// Whether the background lines were produced depends on the background
/// buffers and their enable flags alone.
pub proof fn lemma_lines_produced_bg_only(m: MemView, l1: &GbaDisplayLines, l2: &GbaDisplayLines, y: int, refs: [i32; 4])
    requires
        l1.bg0 == l2.bg0 && l1.bg1 == l2.bg1 && l1.bg2 == l2.bg2 && l1.bg3 == l2.bg3,
        l1.bg0_enable == l2.bg0_enable && l1.bg1_enable == l2.bg1_enable,
        l1.bg2_enable == l2.bg2_enable && l1.bg3_enable == l2.bg3_enable,
        lines_produced(m, l1, y, refs),
    ensures
        lines_produced(m, l2, y, refs),
{
    reveal(lines_produced);
}

/// Fills the background line buffers of line `y` for the display mode in
/// DISPCNT.
pub fn render_backgrounds(memory: &GbaMemory, y: u16, refs: &[i32; 4], lines: &mut GbaDisplayLines)
    requires
        memory.wf(),
        y < 160,
    ensures
        lines_produced(memory@, final(lines), y as int, *refs),
        final(lines).obj == old(lines).obj,
        final(lines).obj_info == old(lines).obj_info,
{
    reveal(lines_produced);
    let dispcnt = memory.get_reg(IORegister16(DISPCNT));
    let mode = dispcnt % 8;
    let page = (dispcnt / 16) % 2 == 1;
    let yy = y as u32;
    lines.bg0_enable = mode == 0 || mode == 1;
    lines.bg1_enable = mode == 0 || mode == 1;
    lines.bg2_enable = mode <= 5;
    lines.bg3_enable = mode == 0 || mode == 2;
    if mode == 0 || mode == 1 {
        lines.bg0 = text_line(memory, 0, yy);
        lines.bg1 = text_line(memory, 1, yy);
    }
    if mode == 0 {
        lines.bg2 = text_line(memory, 2, yy);
        lines.bg3 = text_line(memory, 3, yy);
    }
    if mode == 1 || mode == 2 {
        lines.bg2 = affine_line(memory, 2, refs[0], refs[1]);
    }
    if mode == 2 {
        lines.bg3 = affine_line(memory, 3, refs[2], refs[3]);
    }
    if 3 <= mode && mode <= 5 {
        lines.bg2 = bitmap_line(memory, mode, page, yy);
    }
}

} // verus!
