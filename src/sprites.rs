use vstd::prelude::*;
use crate::ioreg::{IORegister16, DISPCNT};
use crate::lcd::{GbaDisplayLines, Pixel, obj_priority_of};
use crate::memory::{GbaMemory, MemView, io_half, IO_BASE};

verus! {

pub const OAM_BASE: u32 = 0x0700_0000;
pub const OBJ_TILE_BASE: u32 = 0x0601_0000;
pub const OBJ_PAL_BASE: u32 = 0x0500_0200;

/// Attribute `k` (0..2) of sprite `i` (0..127).
pub open spec fn obj_attr(m: MemView, i: int, k: int) -> int {
    m.load16((OAM_BASE + i * 8 + k * 2) as u32) as int
}

/// Width and height of a sprite of shape `shape` and size `size`.
pub open spec fn obj_dims(shape: int, size: int) -> (int, int) {
    if shape == 0 {
        if size == 0 { (8, 8) } else if size == 1 { (16, 16) } else if size == 2 { (32, 32) } else { (64, 64) }
    } else if shape == 1 {
        if size == 0 { (16, 8) } else if size == 1 { (32, 8) } else if size == 2 { (32, 16) } else { (64, 32) }
    } else {
        if size == 0 { (8, 16) } else if size == 1 { (8, 32) } else if size == 2 { (16, 32) } else { (32, 64) }
    }
}

/// What sprite `i` shows at `(x, y)`: its colour (0 when transparent or
/// not covering the point), its mode field and its priority. Rotated and
/// scaled sprites are not drawn.
#[verifier::opaque]
pub open spec fn sprite_at(m: MemView, one_d: bool, i: int, x: int, y: int) -> (Pixel, int, int) {
    let a0 = obj_attr(m, i, 0);
    let a1 = obj_attr(m, i, 1);
    let a2 = obj_attr(m, i, 2);
    let dims = obj_dims(a0 / 0x4000, a1 / 0x4000);
    let w = dims.0;
    let h = dims.1;
    let row0 = (y - a0 % 256 + 256) % 256;
    let col0 = (x - a1 % 512 + 512) % 512;
    let mode = (a0 / 0x400) % 4;
    let prio = (a2 / 0x400) % 4;
    if (a0 / 0x100) % 4 != 0 || row0 >= h || col0 >= w || shape_bad(a0) {
        (0, mode, prio)
    } else {
        let row = if (a1 / 0x2000) % 2 == 1 { h - 1 - row0 } else { row0 };
        let col = if (a1 / 0x1000) % 2 == 1 { w - 1 - col0 } else { col0 };
        let tile = a2 % 1024;
        if (a0 / 0x2000) % 2 == 1 {
            (obj_color8(m, one_d, tile, row, col, w), mode, prio)
        } else {
            (obj_color4(m, one_d, tile, row, col, w, a2 / 0x1000), mode, prio)
        }
    }
}

/// Colour of texel `(col, row)` of a 256-colour sprite starting at `tile`.
pub open spec fn obj_color8(m: MemView, one_d: bool, tile: int, row: int, col: int, w: int) -> Pixel {
    let t = (tile + (if one_d { (row / 8) * (w / 8) * 2 } else { (row / 8) * 32 }) + (col / 8) * 2) % 1024;
    let idx = m.load8((OBJ_TILE_BASE + t * 32 + (row % 8) * 8 + col % 8) as u32) as int;
    if idx == 0 { 0 } else { m.load16((OBJ_PAL_BASE + idx * 2) as u32) | 0x8000 }
}

/// Colour of texel `(col, row)` of a 16-colour sprite starting at `tile`
/// with palette bank `bank`.
pub open spec fn obj_color4(m: MemView, one_d: bool, tile: int, row: int, col: int, w: int, bank: int) -> Pixel {
    let t = (tile + (if one_d { (row / 8) * (w / 8) } else { (row / 8) * 32 }) + col / 8) % 1024;
    let b = m.load8((OBJ_TILE_BASE + t * 32 + (row % 8) * 4 + (col % 8) / 2) as u32) as int;
    let nib = if col % 2 == 1 { b / 16 } else { b % 16 };
    if nib == 0 { 0 } else { m.load16((OBJ_PAL_BASE + (bank * 16 + nib) * 2) as u32) | 0x8000 }
}

fn color8(memory: &GbaMemory, one_d: bool, tile: u32, row: u32, col: u32, w: u32) -> (p: Pixel)
    requires
        memory.wf(),
        tile < 1024,
        row < 64,
        col < 64,
        w <= 64,
    ensures
        p == obj_color8(memory@, one_d, tile as int, row as int, col as int, w as int),
{
    assert((row / 8) * (w / 8) <= 64) by (nonlinear_arith)
        requires
            row < 64,
            w <= 64,
    ;
    let t = (tile + (if one_d { (row / 8) * (w / 8) * 2 } else { (row / 8) * 32 }) + (col / 8) * 2) % 1024;
    let idx = memory.read8(OBJ_TILE_BASE + t * 32 + (row % 8) * 8 + col % 8) as u32;
    if idx == 0 { 0 } else { memory.read16(OBJ_PAL_BASE + idx * 2) | 0x8000 }
}

fn color4(memory: &GbaMemory, one_d: bool, tile: u32, row: u32, col: u32, w: u32, bank: u32) -> (p: Pixel)
    requires
        memory.wf(),
        tile < 1024,
        row < 64,
        col < 64,
        w <= 64,
        bank < 16,
    ensures
        p == obj_color4(memory@, one_d, tile as int, row as int, col as int, w as int, bank as int),
{
    assert((row / 8) * (w / 8) <= 64) by (nonlinear_arith)
        requires
            row < 64,
            w <= 64,
    ;
    let t = (tile + (if one_d { (row / 8) * (w / 8) } else { (row / 8) * 32 }) + col / 8) % 1024;
    let b = memory.read8(OBJ_TILE_BASE + t * 32 + (row % 8) * 4 + (col % 8) / 2) as u32;
    let nib = if col % 2 == 1 { b / 16 } else { b % 16 };
    if nib == 0 { 0 } else { memory.read16(OBJ_PAL_BASE + (bank * 16 + nib) * 2) | 0x8000 }
}

/// The shape field value 3 is prohibited.
pub open spec fn shape_bad(a0: int) -> bool {
    a0 / 0x4000 == 3
}

/// One sprite drawn over the pixel `p` with metadata `info`: a window sprite
/// only marks the sprite window; another one replaces the pixel where it is
/// opaque and of strictly better priority than what is there.
pub open spec fn obj_merge(p: Pixel, info: u8, c: Pixel, mode: int, prio: int) -> (Pixel, u8) {
    if c & 0x8000 == 0 {
        (p, info)
    } else if mode == 2 {
        (p, info | 0x8)
    } else if obj_priority_of(info) == 0 || prio + 1 < obj_priority_of(info) {
        let semi: u8 = if mode == 1 { 0x10 } else { 0 };
        (c, ((info & 0x8) | semi | (prio + 1) as u8) as u8)
    } else {
        (p, info)
    }
}

/// Pixel `x` of the sprite line of `y` and its metadata after the first `n`
/// sprites in OAM order.
pub open spec fn obj_fold(m: MemView, one_d: bool, x: int, y: int, n: nat) -> (Pixel, u8)
    decreases n,
{
    if n == 0 {
        (0, 0)
    } else {
        let (p, info) = obj_fold(m, one_d, x, y, (n - 1) as nat);
        let (c, mode, prio) = sprite_at(m, one_d, n - 1, x, y);
        obj_merge(p, info, c, mode, prio)
    }
}

/// The sprite line and metadata of line `y` as OAM, VRAM and the palette in
/// `m` describe them (all 128 sprites when DISPCNT enables sprites).
#[verifier::opaque]
pub open spec fn objects_produced(m: MemView, l: &GbaDisplayLines, y: int) -> bool {
    let dispcnt = io_half(m, DISPCNT - IO_BASE);
    let one_d = (dispcnt / 64) % 2 == 1;
    let n: nat = if (dispcnt / 0x1000) % 2 == 1 { 128 } else { 0 };
    forall|x: int| 0 <= x < 240 ==> (#[trigger] l.obj[x], l.obj_info.data[x]) == obj_fold(m, one_d, x, y, n)
}

fn obj_attr_of(memory: &GbaMemory, i: u32, k: u32) -> (v: u32)
    requires
        memory.wf(),
        i < 128,
        k < 3,
    ensures
        v as int == obj_attr(memory@, i as int, k as int),
        v < 0x1_0000,
{
    memory.read16(OAM_BASE + i * 8 + k * 2) as u32
}

fn sprite_pixel(memory: &GbaMemory, one_d: bool, Ghost(i): Ghost<int>, a0: u32, a1: u32, a2: u32, x: u32, y: u32) -> (r: (Pixel, u32, u32))
    requires
        memory.wf(),
        a0 as int == obj_attr(memory@, i, 0),
        a1 as int == obj_attr(memory@, i, 1),
        a2 as int == obj_attr(memory@, i, 2),
        a0 < 0x1_0000,
        a1 < 0x1_0000,
        a2 < 0x1_0000,
        x < 240,
        y < 160,
    ensures
        (r.0, r.1 as int, r.2 as int) == sprite_at(memory@, one_d, i, x as int, y as int),
        r.2 < 4,
{
    proof {
        reveal(sprite_at);
    }
    let shape = a0 / 0x4000;
    let size = a1 / 0x4000;
    let (w, h): (u32, u32) = if shape == 0 {
        if size == 0 { (8, 8) } else if size == 1 { (16, 16) } else if size == 2 { (32, 32) } else { (64, 64) }
    } else if shape == 1 {
        if size == 0 { (16, 8) } else if size == 1 { (32, 8) } else if size == 2 { (32, 16) } else { (64, 32) }
    } else {
        if size == 0 { (8, 16) } else if size == 1 { (8, 32) } else if size == 2 { (16, 32) } else { (32, 64) }
    };
    let row0 = (y + 256 - a0 % 256) % 256;
    let col0 = (x + 512 - a1 % 512) % 512;
    let mode = (a0 / 0x400) % 4;
    let prio = (a2 / 0x400) % 4;
    if (a0 / 0x100) % 4 != 0 || row0 >= h || col0 >= w || shape == 3 {
        (0, mode, prio)
    } else {
        let row = if (a1 / 0x2000) % 2 == 1 { h - 1 - row0 } else { row0 };
        let col = if (a1 / 0x1000) % 2 == 1 { w - 1 - col0 } else { col0 };
        let tile = a2 % 1024;
        if (a0 / 0x2000) % 2 == 1 {
            (color8(memory, one_d, tile, row, col, w), mode, prio)
        } else {
            (color4(memory, one_d, tile, row, col, w, a2 / 0x1000), mode, prio)
        }
    }
}

fn merge(p: Pixel, info: u8, c: Pixel, mode: u32, prio: u32) -> (r: (Pixel, u8))
    requires
        prio < 4,
    ensures
        r == obj_merge(p, info, c, mode as int, prio as int),
{
    if c & 0x8000 == 0 {
        (p, info)
    } else if mode == 2 {
        (p, info | 0x8)
    } else if info & 0x7 == 0 || (prio + 1) < (info & 0x7) as u32 {
        let semi: u8 = if mode == 1 { 0x10 } else { 0 };
        (c, (info & 0x8) | semi | (prio + 1) as u8)
    } else {
        (p, info)
    }
}

fn draw_sprite(memory: &GbaMemory, one_d: bool, i: u32, a0: u32, a1: u32, a2: u32, y: u32, lines: &mut GbaDisplayLines)
    requires
        memory.wf(),
        i < 128,
        y < 160,
        a0 as int == obj_attr(memory@, i as int, 0),
        a1 as int == obj_attr(memory@, i as int, 1),
        a2 as int == obj_attr(memory@, i as int, 2),
        a0 < 0x1_0000 && a1 < 0x1_0000 && a2 < 0x1_0000,
        forall|k: int| 0 <= k < 240 ==> (#[trigger] old(lines).obj[k], old(lines).obj_info.data[k]) == obj_fold(memory@, one_d, k, y as int, i as nat),
    ensures
        forall|k: int| 0 <= k < 240 ==> (#[trigger] final(lines).obj[k], final(lines).obj_info.data[k]) == obj_fold(memory@, one_d, k, y as int, (i + 1) as nat),
        final(lines).bg0 == old(lines).bg0 && final(lines).bg1 == old(lines).bg1,
        final(lines).bg2 == old(lines).bg2 && final(lines).bg3 == old(lines).bg3,
        final(lines).bg0_enable == old(lines).bg0_enable && final(lines).bg1_enable == old(lines).bg1_enable,
        final(lines).bg2_enable == old(lines).bg2_enable && final(lines).bg3_enable == old(lines).bg3_enable,
{
    let mut x: u32 = 0;
    while x < 240
        invariant
            x <= 240,
            i < 128,
            memory.wf(),
            y < 160,
            a0 as int == obj_attr(memory@, i as int, 0),
            a1 as int == obj_attr(memory@, i as int, 1),
            a2 as int == obj_attr(memory@, i as int, 2),
            a0 < 0x1_0000 && a1 < 0x1_0000 && a2 < 0x1_0000,
            forall|k: int| 0 <= k < x ==> (#[trigger] lines.obj[k], lines.obj_info.data[k]) == obj_fold(memory@, one_d, k, y as int, (i + 1) as nat),
            forall|k: int| x <= k < 240 ==> (#[trigger] lines.obj[k], lines.obj_info.data[k]) == obj_fold(memory@, one_d, k, y as int, i as nat),
            lines.bg0 == old(lines).bg0 && lines.bg1 == old(lines).bg1,
            lines.bg2 == old(lines).bg2 && lines.bg3 == old(lines).bg3,
            lines.bg0_enable == old(lines).bg0_enable && lines.bg1_enable == old(lines).bg1_enable,
            lines.bg2_enable == old(lines).bg2_enable && lines.bg3_enable == old(lines).bg3_enable,
        decreases 240 - x,
    {
        let (c, mode, prio) = sprite_pixel(memory, one_d, Ghost(i as int), a0, a1, a2, x, y);
        let xi = x as usize;
        let (p, info) = merge(lines.obj[xi], lines.obj_info.data[xi], c, mode, prio);
        lines.obj[xi] = p;
        lines.obj_info.data[xi] = info;
        x = x + 1;
    }
}

/// Fills the sprite line and its metadata for line `y` (the buffers are
/// expected clear).
#[verifier::rlimit(60)]
pub fn render_objects(memory: &GbaMemory, y: u16, lines: &mut GbaDisplayLines)
    requires
        memory.wf(),
        y < 160,
        forall|x: int| 0 <= x < 240 ==> old(lines).obj[x] == 0 && old(lines).obj_info.data[x] == 0,
    ensures
        objects_produced(memory@, final(lines), y as int),
        final(lines).bg0 == old(lines).bg0,
        final(lines).bg1 == old(lines).bg1,
        final(lines).bg2 == old(lines).bg2,
        final(lines).bg3 == old(lines).bg3,
        final(lines).bg0_enable == old(lines).bg0_enable,
        final(lines).bg1_enable == old(lines).bg1_enable,
        final(lines).bg2_enable == old(lines).bg2_enable,
        final(lines).bg3_enable == old(lines).bg3_enable,
{
    reveal(objects_produced);
    let dispcnt = memory.get_reg(IORegister16(DISPCNT));
    let one_d = (dispcnt / 64) % 2 == 1;
    let count: u32 = if (dispcnt / 0x1000) % 2 == 1 { 128 } else { 0 };
    let yy = y as u32;
    let ghost l0 = *lines;
    let mut i: u32 = 0;
    while i < count
        invariant
            i <= count,
            count <= 128,
            memory.wf(),
            yy == y,
            y < 160,
            one_d == ((io_half(memory@, DISPCNT - IO_BASE) / 64) % 2 == 1),
            count == (if (io_half(memory@, DISPCNT - IO_BASE) / 0x1000) % 2 == 1 { 128u32 } else { 0u32 }),
            forall|x: int| 0 <= x < 240 ==> (#[trigger] lines.obj[x], lines.obj_info.data[x]) == obj_fold(memory@, one_d, x, y as int, i as nat),
            lines.bg0 == l0.bg0 && lines.bg1 == l0.bg1 && lines.bg2 == l0.bg2 && lines.bg3 == l0.bg3,
            lines.bg0_enable == l0.bg0_enable && lines.bg1_enable == l0.bg1_enable,
            lines.bg2_enable == l0.bg2_enable && lines.bg3_enable == l0.bg3_enable,
        decreases count - i,
    {
        let a0 = obj_attr_of(memory, i, 0);
        let a1 = obj_attr_of(memory, i, 1);
        let a2 = obj_attr_of(memory, i, 2);
        draw_sprite(memory, one_d, i, a0, a1, a2, yy, lines);
        i = i + 1;
    }
}

} // verus!
