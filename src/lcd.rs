use vstd::prelude::*;
use crate::ioreg::{
    IORegister16, IORegister32, BG0CNT, BG1CNT, BG2CNT, BG3CNT, BLDALPHA, BLDCNT, BLDY, DISPCNT, WIN0H, WIN0V,
    WIN1H, WIN1V, WININ, WINOUT,
};
use crate::memory::{GbaMemory, MemView, io_half, io_word, IO_BASE};
use crate::render::{lines_produced, render_backgrounds};
use crate::sprites::{objects_produced, render_objects};

verus! {

/// Internal pixel: 5 bits each of red, green and blue, bit 15 set when opaque.
pub type Pixel = u16;

/// Output pixel: 8 bits each of red, green and blue.
pub type GbaPixel = (u8, u8, u8);

pub type GbaLcdLine = Vec<GbaPixel>;

pub type GbaBGLine = [Pixel; 240];

pub const SCREEN_WIDTH: usize = 240;
pub const SCREEN_HEIGHT: usize = 160;

/// Per-pixel sprite metadata of one scanline: bits 0..2 the priority plus one
/// (0 when no sprite pixel), bit 3 the sprite-window flag, bit 4 the
/// semi-transparent flag.
pub struct ObjLineInfo {
    pub data: [u8; 240],
}

pub open spec fn obj_priority_of(b: u8) -> u8 {
    b & 0x7
}

pub open spec fn obj_window_of(b: u8) -> bool {
    b & 0x8 != 0
}

pub open spec fn obj_semi_of(b: u8) -> bool {
    b & 0x10 != 0
}

impl ObjLineInfo {
    pub fn get_priority(&self, idx: usize) -> (p: u8)
        requires
            idx < 240,
        ensures
            p == obj_priority_of(self.data[idx as int]),
    {
        self.data[idx] & 0x7
    }

    /// Replaces the priority field at `idx`; the flags stay.
    pub fn set_priority(&mut self, idx: usize, priority: u8)
        requires
            idx < 240,
        ensures
            final(self).data@ == old(self).data@.update(
                idx as int,
                ((old(self).data[idx as int] & !0x7u8) | (priority & 0x7)) as u8,
            ),
            obj_priority_of(final(self).data[idx as int]) == priority & 0x7,
            obj_window_of(final(self).data[idx as int]) == obj_window_of(old(self).data[idx as int]),
            obj_semi_of(final(self).data[idx as int]) == obj_semi_of(old(self).data[idx as int]),
    {
        let b = self.data[idx];
        self.data[idx] = (b & !0x7u8) | (priority & 0x7);
        assert(((b & !0x7u8) | (priority & 0x7)) & 0x7 == priority & 0x7 && (((b & !0x7u8) | (
        priority & 0x7)) & 0x8 != 0) == (b & 0x8 != 0) && (((b & !0x7u8) | (priority & 0x7)) & 0x10
            != 0) == (b & 0x10 != 0)) by (bit_vector);
    }

    pub fn is_window(&self, idx: usize) -> (b: bool)
        requires
            idx < 240,
        ensures
            b == obj_window_of(self.data[idx as int]),
    {
        (self.data[idx] & 0x8) != 0
    }

    pub fn set_window(&mut self, idx: usize)
        requires
            idx < 240,
        ensures
            final(self).data@ == old(self).data@.update(idx as int, old(self).data[idx as int] | 0x8),
    {
        self.data[idx] = self.data[idx] | 0x8;
    }

    pub fn is_transparent(&self, idx: usize) -> (b: bool)
        requires
            idx < 240,
        ensures
            b == obj_semi_of(self.data[idx as int]),
    {
        (self.data[idx] & 0x10) != 0
    }

    pub fn set_transparent(&mut self, idx: usize)
        requires
            idx < 240,
        ensures
            final(self).data@ == old(self).data@.update(
                idx as int,
                old(self).data[idx as int] | 0x10,
            ),
    {
        self.data[idx] = self.data[idx] | 0x10;
    }

    pub fn clear_transparent(&mut self, idx: usize)
        requires
            idx < 240,
        ensures
            final(self).data@ == old(self).data@.update(
                idx as int,
                old(self).data[idx as int] & !0x10u8,
            ),
    {
        self.data[idx] = self.data[idx] & !0x10u8;
    }
}

/// The five line buffers of one scanline, which backgrounds were produced,
/// and the sprite metadata.
pub struct GbaDisplayLines {
    pub bg0: GbaBGLine,
    pub bg1: GbaBGLine,
    pub bg2: GbaBGLine,
    pub bg3: GbaBGLine,
    pub obj: GbaBGLine,
    pub bg0_enable: bool,
    pub bg1_enable: bool,
    pub bg2_enable: bool,
    pub bg3_enable: bool,
    pub obj_info: ObjLineInfo,
}

/// The I/O registers that the compositor reads, and the backdrop colour
/// (palette entry 0).
#[derive(Clone, Copy)]
pub struct LcdRegs {
    pub dispcnt: u16,
    pub bg0cnt: u16,
    pub bg1cnt: u16,
    pub bg2cnt: u16,
    pub bg3cnt: u16,
    pub bldcnt: u16,
    pub bldalpha: u16,
    pub bldy: u16,
    pub win0h: u16,
    pub win1h: u16,
    pub win0v: u16,
    pub win1v: u16,
    pub winin: u16,
    pub winout: u16,
    pub backdrop: u16,
}

/// The compositor's registers as they stand in a memory map.
pub open spec fn lcd_regs_of(m: MemView) -> LcdRegs {
    LcdRegs {
        dispcnt: io_half(m, DISPCNT - IO_BASE),
        bg0cnt: io_half(m, BG0CNT - IO_BASE),
        bg1cnt: io_half(m, BG1CNT - IO_BASE),
        bg2cnt: io_half(m, BG2CNT - IO_BASE),
        bg3cnt: io_half(m, BG3CNT - IO_BASE),
        bldcnt: io_half(m, BLDCNT - IO_BASE),
        bldalpha: io_half(m, BLDALPHA - IO_BASE),
        bldy: io_half(m, BLDY - IO_BASE),
        win0h: io_half(m, WIN0H - IO_BASE),
        win1h: io_half(m, WIN1H - IO_BASE),
        win0v: io_half(m, WIN0V - IO_BASE),
        win1v: io_half(m, WIN1V - IO_BASE),
        winin: io_half(m, WININ - IO_BASE),
        winout: io_half(m, WINOUT - IO_BASE),
        backdrop: m.load16(0x0500_0000),
    }
}

/// Reads the compositor's registers.
pub fn read_lcd_regs(memory: &GbaMemory) -> (r: LcdRegs)
    requires
        memory.wf(),
    ensures
        r == lcd_regs_of(memory@),
{
    LcdRegs {
        dispcnt: memory.get_reg(IORegister16(DISPCNT)),
        bg0cnt: memory.get_reg(IORegister16(BG0CNT)),
        bg1cnt: memory.get_reg(IORegister16(BG1CNT)),
        bg2cnt: memory.get_reg(IORegister16(BG2CNT)),
        bg3cnt: memory.get_reg(IORegister16(BG3CNT)),
        bldcnt: memory.get_reg(IORegister16(BLDCNT)),
        bldalpha: memory.get_reg(IORegister16(BLDALPHA)),
        bldy: memory.get_reg(IORegister16(BLDY)),
        win0h: memory.get_reg(IORegister16(WIN0H)),
        win1h: memory.get_reg(IORegister16(WIN1H)),
        win0v: memory.get_reg(IORegister16(WIN0V)),
        win1v: memory.get_reg(IORegister16(WIN1V)),
        winin: memory.get_reg(IORegister16(WININ)),
        winout: memory.get_reg(IORegister16(WINOUT)),
        backdrop: memory.read16(0x0500_0000),
    }
}

/// Bit `n` of a 16-bit register.
pub open spec fn bit16(v: u16, n: u16) -> bool {
    (v >> n) & 1 == 1
}

pub open spec fn is_transparent_spec(p: Pixel) -> bool {
    p & 0x8000 == 0
}

/// A 5-bit channel widened to 8 bits.
pub open spec fn expand_channel(c: int) -> u8 {
    ((c * 527 + 23) / 64) as u8
}

pub open spec fn expand_color_spec(p: u16) -> GbaPixel {
    (
        expand_channel((p % 32) as int),
        expand_channel(((p / 32) % 32) as int),
        expand_channel(((p / 1024) % 32) as int),
    )
}

/// Alpha blend of one channel: `min(255, s*eva/16 + t*evb/16)`.
pub open spec fn alpha_channel(s: u8, t: u8, eva: int, evb: int) -> u8 {
    let v = (t as int * evb) / 16 + (s as int * eva) / 16;
    if v > 255 { 255 } else { v as u8 }
}

pub open spec fn brighten_channel(c: u8, evy: int) -> u8 {
    (c as int + ((255 - c as int) * evy) / 16) as u8
}

pub open spec fn darken_channel(c: u8, evy: int) -> u8 {
    (c as int - (c as int * evy) / 16) as u8
}

/// Blend coefficient from a 5-bit field, at most 16.
pub open spec fn coeff(v: u16) -> int {
    let c = (v % 32) as int;
    if c > 16 { 16 } else { c }
}

pub open spec fn blend_mode(r: LcdRegs) -> u16 {
    (r.bldcnt / 64) % 4
}

/// Priority (0..3) of background `bg`.
pub open spec fn bg_priority(r: LcdRegs, bg: int) -> u16 {
    (if bg == 0 { r.bg0cnt } else if bg == 1 { r.bg1cnt } else if bg == 2 { r.bg2cnt } else { r.bg3cnt }) % 4
}

pub open spec fn bg_line(l: &GbaDisplayLines, bg: int) -> GbaBGLine {
    if bg == 0 { l.bg0 } else if bg == 1 { l.bg1 } else if bg == 2 { l.bg2 } else { l.bg3 }
}

/// Background `bg` takes part: its producer ran and DISPCNT enables it.
pub open spec fn bg_enabled(r: LcdRegs, l: &GbaDisplayLines, bg: int) -> bool {
    let produced = if bg == 0 {
        l.bg0_enable
    } else if bg == 1 {
        l.bg1_enable
    } else if bg == 2 {
        l.bg2_enable
    } else {
        l.bg3_enable
    };
    produced && bit16(r.dispcnt, (8 + bg) as u16)
}

pub open spec fn obj_enabled(r: LcdRegs) -> bool {
    bit16(r.dispcnt, 12)
}

pub open spec fn windows_off(r: LcdRegs) -> bool {
    !bit16(r.dispcnt, 13) && !bit16(r.dispcnt, 14) && !bit16(r.dispcnt, 15)
}

/// Whether `(x, y)` lies in the window of horizontal register `h` and vertical
/// register `v` (left/top inclusive, right/bottom exclusive, clipped to the
/// screen).
pub open spec fn window_contains_spec(h: u16, v: u16, x: int, y: int) -> bool {
    let left = (h / 256) as int;
    let right = if h % 256 > 240 { 240 } else { (h % 256) as int };
    let top = (v / 256) as int;
    let bottom = if v % 256 > 160 { 160 } else { (v % 256) as int };
    left <= x < right && top <= y < bottom
}

/// Layer mask and blend-enable flag of the window that holds `(x, y)`: WIN0,
/// then WIN1, then the sprite window, then the outside; with no window
/// enabled every layer shows and blending is allowed.
pub open spec fn window_at(r: LcdRegs, l: &GbaDisplayLines, x: int, y: int) -> (u16, bool) {
    if windows_off(r) {
        (0x1f, true)
    } else if bit16(r.dispcnt, 13) && window_contains_spec(r.win0h, r.win0v, x, y) {
        (r.winin % 32, bit16(r.winin, 5))
    } else if bit16(r.dispcnt, 14) && window_contains_spec(r.win1h, r.win1v, x, y) {
        ((r.winin / 256) % 32, bit16(r.winin, 13))
    } else if bit16(r.dispcnt, 15) && obj_window_of(l.obj_info.data[x]) {
        ((r.winout / 256) % 32, bit16(r.winout, 13))
    } else {
        (r.winout % 32, bit16(r.winout, 5))
    }
}

/// Blend state of one pixel.
#[derive(Clone, Copy)]
pub struct BlendState {
    pub out: Pixel,
    pub target_drawn: bool,
    pub source_on_top: bool,
    pub target_overwritten: bool,
    pub source_pixel: Pixel,
    pub target_pixel: Pixel,
    pub force_obj_blend: bool,
}

/// Blend bookkeeping when `layer` (0..3 backgrounds, 4 sprites, 5 backdrop)
/// draws `p`.
pub open spec fn on_drawn(r: LcdRegs, st: BlendState, layer: u16, p: Pixel, force_source: bool, blend_ok: bool) -> BlendState {
    if !is_transparent_spec(p) && blend_ok {
        if force_source || bit16(r.bldcnt, layer) {
            BlendState { source_on_top: true, source_pixel: p, ..st }
        } else if bit16(r.bldcnt, (8 + layer) as u16) {
            if st.target_drawn {
                BlendState { target_overwritten: true, source_on_top: false, ..st }
            } else {
                BlendState { target_drawn: true, target_pixel: p, source_on_top: false, ..st }
            }
        } else {
            st
        }
    } else {
        st
    }
}

/// State of a pixel before any layer: the backdrop drawn.
pub open spec fn seed_state(r: LcdRegs, blend_ok: bool) -> BlendState {
    let b = r.backdrop | 0x8000;
    on_drawn(
        r,
        BlendState {
            out: b,
            target_drawn: false,
            source_on_top: false,
            target_overwritten: false,
            source_pixel: 0,
            target_pixel: 0,
            force_obj_blend: false,
        },
        5,
        b,
        false,
        blend_ok,
    )
}

/// Step `k` (0..19) of the walk over the layers: priorities 3 down to 0, and
/// within one priority BG3, BG2, BG1, BG0 and then the sprites, so that the
/// lower index and the sprites end on top.
pub open spec fn apply_step(r: LcdRegs, l: &GbaDisplayLines, x: int, mask: u16, blend_ok: bool, st: BlendState, k: int) -> BlendState {
    let prio = 3 - k / 5;
    let slot = k % 5;
    if slot < 4 {
        let bg = 3 - slot;
        if bg_enabled(r, l, bg) && bg_priority(r, bg) == prio && bit16(mask, bg as u16) {
            let p = bg_line(l, bg)[x];
            let s = on_drawn(r, st, bg as u16, p, false, blend_ok);
            BlendState { out: if is_transparent_spec(p) { st.out } else { p }, ..s }
        } else {
            st
        }
    } else {
        let info = l.obj_info.data[x];
        if obj_enabled(r) && obj_priority_of(info) > 0 && obj_priority_of(info) - 1 == prio
            && bit16(mask, 4) {
            let p = l.obj[x];
            let s = on_drawn(r, st, 4, p, obj_semi_of(info), blend_ok);
            BlendState {
                out: if is_transparent_spec(p) { st.out } else { p },
                force_obj_blend: s.force_obj_blend || obj_semi_of(info),
                ..s
            }
        } else {
            st
        }
    }
}

/// The first `n` steps of the walk.
pub open spec fn run_steps(r: LcdRegs, l: &GbaDisplayLines, x: int, mask: u16, blend_ok: bool, st: BlendState, n: nat) -> BlendState
    decreases n,
{
    if n == 0 {
        st
    } else {
        apply_step(r, l, x, mask, blend_ok, run_steps(r, l, x, mask, blend_ok, st, (n - 1) as nat), n - 1)
    }
}

/// The colour emitted once every layer is drawn.
pub open spec fn finish_pixel(r: LcdRegs, st: BlendState, blend_ok: bool) -> GbaPixel {
    let mode = blend_mode(r);
    if blend_ok && (mode == 1 || (st.force_obj_blend && mode > 0)) && st.target_drawn
        && !st.target_overwritten && st.source_on_top {
        let t = expand_color_spec(st.target_pixel);
        let s = expand_color_spec(st.source_pixel);
        let eva = coeff(r.bldalpha);
        let evb = coeff(r.bldalpha / 256);
        (alpha_channel(s.0, t.0, eva, evb), alpha_channel(s.1, t.1, eva, evb), alpha_channel(s.2, t.2, eva, evb))
    } else {
        let e = expand_color_spec(st.out);
        let evy = coeff(r.bldy);
        if st.source_on_top && blend_ok && mode == 2 {
            (brighten_channel(e.0, evy), brighten_channel(e.1, evy), brighten_channel(e.2, evy))
        } else if st.source_on_top && blend_ok && mode == 3 {
            (darken_channel(e.0, evy), darken_channel(e.1, evy), darken_channel(e.2, evy))
        } else {
            e
        }
    }
}

/// The output colour of pixel `x` of scanline `y`.
pub open spec fn compose_pixel_spec(r: LcdRegs, l: &GbaDisplayLines, x: int, y: int) -> GbaPixel {
    let (mask, blend_ok) = window_at(r, l, x, y);
    finish_pixel(r, run_steps(r, l, x, mask, blend_ok, seed_state(r, blend_ok), 20), blend_ok)
}

/// `a` where it is opaque, else `b`.
fn blend_pixels(a: Pixel, b: Pixel) -> (p: Pixel)
    ensures
        p == if is_transparent_spec(a) { b } else { a },
{
    if is_transparent(a) { b } else { a }
}

/// Widens a 5-5-5 colour to 8 bits per channel.
pub fn expand_color(rgb5: u16) -> (r: (u8, u8, u8))
    ensures
        r == expand_color_spec(rgb5),
{
    let r5 = rgb5 % 32;
    let g5 = (rgb5 / 32) % 32;
    let b5 = (rgb5 / 1024) % 32;
    (((r5 * 527 + 23) / 64) as u8, ((g5 * 527 + 23) / 64) as u8, ((b5 * 527 + 23) / 64) as u8)
}

/// A palette colour as an internal pixel: the opaque bit forced.
pub fn convert_rgb5_to_rgb8(rgb5: u16) -> (p: Pixel)
    ensures
        p == rgb5 | 0x8000,
{
    rgb5 | 0x8000
}

/// A palette colour with its opaque bit set.
pub fn convert_rgb5_to_rgba8(rgb5: u16) -> (p: u16)
    ensures
        p == rgb5 | 0x8000,
{
    rgb5 | 0x8000
}

pub fn is_transparent(pixel: Pixel) -> (b: bool)
    ensures
        b == is_transparent_spec(pixel),
{
    (pixel & 0x8000) == 0
}

/// Whether `(x, y)` lies in a window rectangle (right and bottom exclusive).
fn window_contains(x: u16, y: u16, w_left: u16, w_right: u16, w_top: u16, w_bottom: u16) -> (b: bool)
    ensures
        b == (w_left <= x < w_right && w_top <= y < w_bottom),
{
    (x >= w_left) && (x < w_right) && (y >= w_top) && (y < w_bottom)
}

fn in_window(h: u16, v: u16, x: u16, y: u16) -> (b: bool)
    ensures
        b == window_contains_spec(h, v, x as int, y as int),
{
    let right = if h % 256 > 240 { 240 } else { h % 256 };
    let bottom = if v % 256 > 160 { 160 } else { v % 256 };
    window_contains(x, y, h / 256, right, v / 256, bottom)
}

/// `c * e / 16` for a coefficient `e` of at most 16.
fn scale16(c: u8, e: u16) -> (r: u8)
    requires
        e <= 16,
    ensures
        r as int == (c as int * e as int) / 16,
        r <= c,
{
    proof {
        assert(0 <= (c as int * e as int) / 16 <= c) by (nonlinear_arith)
            requires
                e <= 16,
        ;
        assert(c as int * e as int <= 255 * 16) by (nonlinear_arith)
            requires
                e <= 16,
                c <= 255,
        ;
    }
    (((c as u16) * e) / 16) as u8
}

/// `c + (255 - c) * evy / 16` per channel.
fn brighten_pixel(blend_evy: u16, color: GbaPixel) -> (r: GbaPixel)
    requires
        blend_evy <= 16,
    ensures
        r == (
            brighten_channel(color.0, blend_evy as int),
            brighten_channel(color.1, blend_evy as int),
            brighten_channel(color.2, blend_evy as int),
        ),
{
    (
        color.0 + scale16(255 - color.0, blend_evy),
        color.1 + scale16(255 - color.1, blend_evy),
        color.2 + scale16(255 - color.2, blend_evy),
    )
}

/// `c - c * evy / 16` per channel.
fn darken_pixel(blend_evy: u16, color: GbaPixel) -> (r: GbaPixel)
    requires
        blend_evy <= 16,
    ensures
        r == (
            darken_channel(color.0, blend_evy as int),
            darken_channel(color.1, blend_evy as int),
            darken_channel(color.2, blend_evy as int),
        ),
{
    (
        color.0 - scale16(color.0, blend_evy),
        color.1 - scale16(color.1, blend_evy),
        color.2 - scale16(color.2, blend_evy),
    )
}

/// Leaves the colour as it is.
fn pixel_lum_nop(_evy: u16, color: GbaPixel) -> (r: GbaPixel)
    ensures
        r == color,
{
    color
}

fn alpha_blend_channel(s: u8, t: u8, eva: u16, evb: u16) -> (r: u8)
    requires
        eva <= 16,
        evb <= 16,
    ensures
        r == alpha_channel(s, t, eva as int, evb as int),
{
    let v = scale16(t, evb) as u16 + scale16(s, eva) as u16;
    if v > 255 { 255 } else { v as u8 }
}

fn coeff_of(v: u16) -> (c: u16)
    ensures
        c as int == coeff(v),
        c <= 16,
{
    let c = v % 32;
    if c > 16 { 16 } else { c }
}

fn flag16(v: u16, n: u16) -> (b: bool)
    requires
        n < 16,
    ensures
        b == bit16(v, n),
{
    (v >> n) & 1 == 1
}

fn on_pixel_drawn(r: &LcdRegs, st: BlendState, layer: u16, p: Pixel, force_source: bool, blend_ok: bool) -> (s: BlendState)
    requires
        layer < 8,
    ensures
        s == on_drawn(*r, st, layer, p, force_source, blend_ok),
{
    if !is_transparent(p) && blend_ok {
        if force_source || flag16(r.bldcnt, layer) {
            BlendState { source_on_top: true, source_pixel: p, ..st }
        } else if flag16(r.bldcnt, 8 + layer) {
            if st.target_drawn {
                BlendState { target_overwritten: true, source_on_top: false, ..st }
            } else {
                BlendState { target_drawn: true, target_pixel: p, source_on_top: false, ..st }
            }
        } else {
            st
        }
    } else {
        st
    }
}

/// Window layer mask and blend-enable flag at `(x, y)`.
fn window_of(r: &LcdRegs, l: &GbaDisplayLines, x: usize, y: u16) -> (w: (u16, bool))
    requires
        x < 240,
    ensures
        w == window_at(*r, l, x as int, y as int),
{
    let d = r.dispcnt;
    if !flag16(d, 13) && !flag16(d, 14) && !flag16(d, 15) {
        (0x1f, true)
    } else if flag16(d, 13) && in_window(r.win0h, r.win0v, x as u16, y) {
        (r.winin % 32, flag16(r.winin, 5))
    } else if flag16(d, 14) && in_window(r.win1h, r.win1v, x as u16, y) {
        ((r.winin / 256) % 32, flag16(r.winin, 13))
    } else if flag16(d, 15) && l.obj_info.is_window(x) {
        ((r.winout / 256) % 32, flag16(r.winout, 13))
    } else {
        (r.winout % 32, flag16(r.winout, 5))
    }
}

fn step_pixel(r: &LcdRegs, l: &GbaDisplayLines, x: usize, mask: u16, blend_ok: bool, st: BlendState, k: usize) -> (s: BlendState)
    requires
        x < 240,
        k < 20,
    ensures
        s == apply_step(*r, l, x as int, mask, blend_ok, st, k as int),
{
    let prio = (3 - k / 5) as u16;
    let slot = k % 5;
    if slot < 4 {
        let bg = 3 - slot;
        let (produced, cnt, p) = if bg == 0 {
            (l.bg0_enable, r.bg0cnt, l.bg0[x])
        } else if bg == 1 {
            (l.bg1_enable, r.bg1cnt, l.bg1[x])
        } else if bg == 2 {
            (l.bg2_enable, r.bg2cnt, l.bg2[x])
        } else {
            (l.bg3_enable, r.bg3cnt, l.bg3[x])
        };
        if produced && flag16(r.dispcnt, (8 + bg) as u16) && cnt % 4 == prio && flag16(mask, bg as u16) {
            let s = on_pixel_drawn(r, st, bg as u16, p, false, blend_ok);
            BlendState { out: blend_pixels(p, st.out), ..s }
        } else {
            st
        }
    } else {
        let op = l.obj_info.get_priority(x);
        if flag16(r.dispcnt, 12) && op > 0 && (op - 1) as u16 == prio && flag16(mask, 4) {
            let p = l.obj[x];
            let semi = l.obj_info.is_transparent(x);
            let s = on_pixel_drawn(r, st, 4, p, semi, blend_ok);
            BlendState { out: blend_pixels(p, st.out), force_obj_blend: s.force_obj_blend || semi, ..s }
        } else {
            st
        }
    }
}

fn finish(r: &LcdRegs, st: BlendState, blend_ok: bool) -> (px: GbaPixel)
    ensures
        px == finish_pixel(*r, st, blend_ok),
{
    let mode = (r.bldcnt / 64) % 4;
    if blend_ok && (mode == 1 || (st.force_obj_blend && mode > 0)) && st.target_drawn
        && !st.target_overwritten && st.source_on_top {
        let t = expand_color(st.target_pixel);
        let s = expand_color(st.source_pixel);
        let eva = coeff_of(r.bldalpha);
        let evb = coeff_of(r.bldalpha / 256);
        (
            alpha_blend_channel(s.0, t.0, eva, evb),
            alpha_blend_channel(s.1, t.1, eva, evb),
            alpha_blend_channel(s.2, t.2, eva, evb),
        )
    } else {
        let e = expand_color(st.out);
        let evy = coeff_of(r.bldy);
        if st.source_on_top && blend_ok && mode == 2 {
            brighten_pixel(evy, e)
        } else if st.source_on_top && blend_ok && mode == 3 {
            darken_pixel(evy, e)
        } else {
            pixel_lum_nop(evy, e)
        }
    }
}

/// The output colour of pixel `x` of scanline `y`.
pub fn compose_pixel(r: &LcdRegs, l: &GbaDisplayLines, x: usize, y: u16) -> (px: GbaPixel)
    requires
        x < 240,
    ensures
        px == compose_pixel_spec(*r, l, x as int, y as int),
{
    let (mask, blend_ok) = window_of(r, l, x, y);
    let b = r.backdrop | 0x8000;
    let init = BlendState {
        out: b,
        target_drawn: false,
        source_on_top: false,
        target_overwritten: false,
        source_pixel: 0,
        target_pixel: 0,
        force_obj_blend: false,
    };
    let st0 = on_pixel_drawn(r, init, 5, b, false, blend_ok);
    let mut st = st0;
    let mut k: usize = 0;
    while k < 20
        invariant
            k <= 20,
            x < 240,
            st0 == seed_state(*r, blend_ok),
            st == run_steps(*r, l, x as int, mask, blend_ok, st0, k as nat),
        decreases 20 - k,
    {
        st = step_pixel(r, l, x, mask, blend_ok, st, k);
        k = k + 1;
    }
    finish(r, st, blend_ok)
}

/// The output row of scanline `y`: each pixel as `compose_pixel_spec` gives it.
pub fn compose_line(r: &LcdRegs, l: &GbaDisplayLines, y: u16) -> (row: Vec<GbaPixel>)
    ensures
        row.len() == 240,
        forall|x: int| 0 <= x < 240 ==> row[x] == compose_pixel_spec(*r, l, x, y as int),
{
    let mut row: Vec<GbaPixel> = Vec::with_capacity(240);
    let mut x: usize = 0;
    while x < 240
        invariant
            x <= 240,
            row.len() == x,
            forall|i: int| 0 <= i < x ==> row[i] == compose_pixel_spec(*r, l, i, y as int),
        decreases 240 - x,
    {
        let px = compose_pixel(r, l, x, y);
        row.push(px);
        x = x + 1;
    }
    row
}

/// The screen: 160 rows of 240 output pixels, and the line buffers of the
/// scanline being built.
pub struct GbaLcd {
    pub screen_buffer: Vec<GbaLcdLine>,
    pub lines: GbaDisplayLines,
    /// Affine reference points (BG2 x, BG2 y, BG3 x, BG3 y) for the next
    /// line: latched from BG2X..BG3Y at line 0, then moved by PB and PD
    /// after each line.
    pub affine_ref: [i32; 4],
    /// The reference points the last line was drawn with.
    pub line_refs: [i32; 4],
}

/// A 28-bit signed fixed-point register value.
pub open spec fn s28(v: u32) -> i32 {
    let w = (v % 0x1000_0000) as int;
    (if w >= 0x800_0000 { w - 0x1000_0000 } else { w }) as i32
}

/// I/O offset of reference register `k` (BG2X, BG2Y, BG3X, BG3Y).
pub open spec fn ref_reg_offset(k: int) -> int {
    0x28 + 4 * (k % 2) + 0x10 * (k / 2)
}

/// I/O offset of the per-line step of reference `k` (BG2PB, BG2PD, BG3PB,
/// BG3PD).
pub open spec fn ref_step_offset(k: int) -> int {
    0x22 + 4 * (k % 2) + 0x10 * (k / 2)
}

/// Reference point `k` that line `line` is drawn with.
pub open spec fn line_ref(m: MemView, next: [i32; 4], line: int, k: int) -> i32 {
    if line == 0 { s28(io_word(m, ref_reg_offset(k))) } else { next[k] }
}

fn latch_ref(memory: &GbaMemory, k: u32) -> (r: i32)
    requires
        memory.wf(),
        k < 4,
    ensures
        r == s28(io_word(memory@, ref_reg_offset(k as int))),
{
    let v = memory.get_reg32(IORegister32(IO_BASE + 0x28 + 4 * (k % 2) + 0x10 * (k / 2)));
    let w = v % 0x1000_0000;
    if w >= 0x800_0000 { (w as i64 - 0x1000_0000) as i32 } else { w as i32 }
}

fn ref_step(memory: &GbaMemory, k: u32) -> (r: i32)
    requires
        memory.wf(),
        k < 4,
    ensures
        r as int == crate::render::s16(io_half(memory@, ref_step_offset(k as int))),
{
    let v = memory.get_reg(IORegister16(IO_BASE + 0x22 + 4 * (k % 2) + 0x10 * (k / 2)));
    if v >= 0x8000 { v as i32 - 0x1_0000 } else { v as i32 }
}

fn black_row() -> (row: GbaLcdLine)
    ensures
        row@ == Seq::new(240, |_j: int| (0u8, 0u8, 0u8)),
{
    let mut row: GbaLcdLine = Vec::with_capacity(240);
    let mut j: usize = 0;
    while j < 240
        invariant
            j <= 240,
            row@ == Seq::new(j as nat, |_j: int| (0u8, 0u8, 0u8)),
        decreases 240 - j,
    {
        row.push((0u8, 0u8, 0u8));
        j = j + 1;
        assert(row@ =~= Seq::new(j as nat, |_j: int| (0u8, 0u8, 0u8)));
    }
    row
}

/// Offsets in the I/O page of the registers the compositor reads.
pub open spec fn is_compositor_offset(off: int) -> bool {
    0 <= off < 2 || 8 <= off < 0x10 || 0x40 <= off < 0x4c || 0x50 <= off < 0x56
}

impl GbaLcd {
    pub open spec fn wf(&self) -> bool {
        &&& self.screen_buffer.len() == 160
        &&& forall|i: int| 0 <= i < 160 ==> #[trigger] self.screen_buffer[i].len() == 240
    }

    /// A black screen and empty line buffers.
    pub fn new() -> (lcd: GbaLcd)
        ensures
            lcd.wf(),
            forall|i: int, j: int| 0 <= i < 160 && 0 <= j < 240 ==> lcd.screen_buffer[i][j] == (
                0u8,
                0u8,
                0u8,
            ),
            !lcd.lines.bg0_enable && !lcd.lines.bg1_enable && !lcd.lines.bg2_enable
                && !lcd.lines.bg3_enable,
            forall|x: int| 0 <= x < 240 ==> lcd.lines.bg0[x] == 0 && lcd.lines.bg1[x] == 0
                && lcd.lines.bg2[x] == 0 && lcd.lines.bg3[x] == 0 && lcd.lines.obj[x] == 0
                && lcd.lines.obj_info.data[x] == 0,
            forall|k: int| 0 <= k < 4 ==> lcd.affine_ref[k] == 0 && lcd.line_refs[k] == 0,
    {
        let mut screen_buffer: Vec<GbaLcdLine> = Vec::with_capacity(160);
        let mut i: usize = 0;
        while i < 160
            invariant
                i <= 160,
                screen_buffer.len() == i,
                forall|k: int| 0 <= k < i ==> #[trigger] screen_buffer[k].len() == 240,
                forall|k: int| 0 <= k < i ==> #[trigger] screen_buffer[k]@ == Seq::new(
                    240,
                    |_j: int| (0u8, 0u8, 0u8),
                ),
            decreases 160 - i,
        {
            let row = black_row();
            screen_buffer.push(row);
            i = i + 1;
        }
        assert forall|k: int, j: int| 0 <= k < 160 && 0 <= j < 240 implies screen_buffer[k][j] == (
            0u8,
            0u8,
            0u8,
        ) by {
            assert(screen_buffer[k]@ == Seq::new(240, |_j: int| (0u8, 0u8, 0u8)));
        }
        GbaLcd {
            screen_buffer,
            affine_ref: [0i32; 4],
            line_refs: [0i32; 4],
            lines: GbaDisplayLines {
                bg0: [0u16; 240],
                bg1: [0u16; 240],
                bg2: [0u16; 240],
                bg3: [0u16; 240],
                obj: [0u16; 240],
                bg0_enable: false,
                bg1_enable: false,
                bg2_enable: false,
                bg3_enable: false,
                obj_info: ObjLineInfo { data: [0u8; 240] },
            },
        }
    }

    /// Empties the sprite line and its metadata.
    pub fn clear_obj_line(&mut self)
        ensures
            forall|i: int| 0 <= i < 240 ==> final(self).lines.obj[i] == 0,
            forall|i: int| 0 <= i < 240 ==> final(self).lines.obj_info.data[i] == 0,
            final(self).screen_buffer == old(self).screen_buffer,
            final(self).affine_ref == old(self).affine_ref,
            final(self).lines.bg0 == old(self).lines.bg0,
            final(self).lines.bg1 == old(self).lines.bg1,
            final(self).lines.bg2 == old(self).lines.bg2,
            final(self).lines.bg3 == old(self).lines.bg3,
            final(self).lines.bg0_enable == old(self).lines.bg0_enable,
            final(self).lines.bg1_enable == old(self).lines.bg1_enable,
            final(self).lines.bg2_enable == old(self).lines.bg2_enable,
            final(self).lines.bg3_enable == old(self).lines.bg3_enable,
    {
        self.lines.obj = [0u16; 240];
        self.lines.obj_info.data = [0u8; 240];
    }

    /// Produces scanline `line` for the display mode in DISPCNT (backgrounds
    /// and sprites) and composes it into row `line` of the screen.
    pub fn render_line(&mut self, memory: &mut GbaMemory, line: u16)
        requires
            old(self).wf(),
            old(memory).wf(),
            line < 160,
        ensures
            final(self).wf(),
            final(memory)@ == old(memory)@,
            forall|k: int| 0 <= k < 4 ==> #[trigger] final(self).line_refs[k] == line_ref(old(memory)@, old(self).affine_ref, line as int, k),
            forall|k: int| 0 <= k < 4 ==> #[trigger] final(self).affine_ref[k] == final(self).line_refs[k].wrapping_add(
                crate::render::s16(io_half(old(memory)@, ref_step_offset(k))) as i32,
            ),
            lines_produced(old(memory)@, &final(self).lines, line as int, final(self).line_refs),
            objects_produced(old(memory)@, &final(self).lines, line as int),
            forall|x: int| 0 <= x < 240 ==> final(self).screen_buffer[line as int][x]
                == compose_pixel_spec(lcd_regs_of(old(memory)@), &final(self).lines, x, line as int),
            forall|i: int| 0 <= i < 160 && i != line ==> final(self).screen_buffer[i] == old(self).screen_buffer[i],
    {
        self.clear_obj_line();
        if line == 0 {
            self.affine_ref = [latch_ref(memory, 0), latch_ref(memory, 1), latch_ref(memory, 2), latch_ref(memory, 3)];
        }
        self.line_refs = self.affine_ref;
        render_backgrounds(memory, line, &self.line_refs, &mut self.lines);
        let ghost with_bgs = self.lines;
        assert(lines_produced(memory@, &with_bgs, line as int, self.line_refs));
        render_objects(memory, line, &mut self.lines);
        self.blend_line(line, memory);
        proof {
            crate::render::lemma_lines_produced_bg_only(memory@, &with_bgs, &self.lines, line as int, self.line_refs);
        }
        let r = self.line_refs;
        self.affine_ref = [
            r[0].wrapping_add(ref_step(memory, 0)),
            r[1].wrapping_add(ref_step(memory, 1)),
            r[2].wrapping_add(ref_step(memory, 2)),
            r[3].wrapping_add(ref_step(memory, 3)),
        ];
    }

    /// Composes scanline `line` from the line buffers and the registers in
    /// `memory` into row `line` of the screen.
    pub fn blend_line(&mut self, line: u16, memory: &GbaMemory)
        requires
            old(self).wf(),
            memory.wf(),
            line < 160,
        ensures
            final(self).wf(),
            final(self).lines == old(self).lines,
            final(self).affine_ref == old(self).affine_ref,
            final(self).line_refs == old(self).line_refs,
            final(self).screen_buffer@ == old(self).screen_buffer@.update(
                line as int,
                final(self).screen_buffer[line as int],
            ),
            forall|x: int| 0 <= x < 240 ==> final(self).screen_buffer[line as int][x]
                == compose_pixel_spec(lcd_regs_of(memory@), &old(self).lines, x, line as int),
    {
        let regs = read_lcd_regs(memory);
        let row = compose_line(&regs, &self.lines, line);
        self.screen_buffer.set(line as usize, row);
        assert forall|i: int| 0 <= i < 160 implies #[trigger] self.screen_buffer[i].len() == 240 by {
            if i != line as int {
                assert(self.screen_buffer[i] == old(self).screen_buffer[i]);
            }
        }
    }
}

proof fn lemma_no_layer_steps(r: LcdRegs, l: &GbaDisplayLines, x: int, mask: u16, blend_ok: bool, st: BlendState, n: nat)
    requires
        n <= 20,
        forall|bg: int| 0 <= bg < 4 ==> !bg_enabled(r, l, bg),
        !obj_enabled(r),
    ensures
        run_steps(r, l, x, mask, blend_ok, st, n) == st,
    decreases n,
{
    if n > 0 {
        lemma_no_layer_steps(r, l, x, mask, blend_ok, st, (n - 1) as nat);
        let k = n - 1;
        assert(k % 5 < 4 ==> 0 <= 3 - k % 5 < 4);
    }
}

/// With blending off, no window enabled and no background or sprite layer
/// shown, every output pixel is the backdrop colour widened to 8 bits.
pub proof fn lemma_backdrop_only(r: LcdRegs, l: &GbaDisplayLines, x: int, y: int)
    requires
        0 <= x < 240,
        blend_mode(r) == 0,
        windows_off(r),
        forall|bg: int| 0 <= bg < 4 ==> !bg_enabled(r, l, bg),
        !obj_enabled(r),
    ensures
        compose_pixel_spec(r, l, x, y) == expand_color_spec(r.backdrop),
{
    let st = seed_state(r, true);
    lemma_no_layer_steps(r, l, x, 0x1f, true, st, 20);
    let b = r.backdrop;
    assert((b | 0x8000) % 32 == b % 32 && ((b | 0x8000) / 32) % 32 == (b / 32) % 32 && ((b
        | 0x8000) / 1024) % 32 == (b / 1024) % 32) by (bit_vector);
}

/// The compositor reads no hidden state: two memory maps that agree on the
/// display, background-control, window and blend registers and on palette
/// entry 0 give every scanline the same output.
pub proof fn lemma_compositor_inputs(m1: MemView, m2: MemView, l: &GbaDisplayLines, x: int, y: int)
    requires
        crate::memory::mem_wf(m1),
        crate::memory::mem_wf(m2),
        forall|off: int| is_compositor_offset(off) ==> m1.io[off] == m2.io[off],
        m1.pal[0] == m2.pal[0],
        m1.pal[1] == m2.pal[1],
    ensures
        compose_pixel_spec(lcd_regs_of(m1), l, x, y) == compose_pixel_spec(lcd_regs_of(m2), l, x, y),
{
    assert forall|off: int| is_compositor_offset(off) && is_compositor_offset(off + 1) implies
        io_half(m1, off) == io_half(m2, off) by {
        assert(m1.io[off] == m2.io[off] && m1.io[off + 1] == m2.io[off + 1]);
    }
    assert(is_compositor_offset(0) && is_compositor_offset(1));
    assert(is_compositor_offset(8) && is_compositor_offset(9) && is_compositor_offset(10)
        && is_compositor_offset(11) && is_compositor_offset(12) && is_compositor_offset(13)
        && is_compositor_offset(14) && is_compositor_offset(15));
    assert(forall|o: int| 0x40 <= o < 0x4c ==> is_compositor_offset(o));
    assert(forall|o: int| 0x50 <= o < 0x56 ==> is_compositor_offset(o));
    assert(m1.load8(0x0500_0000) == m2.load8(0x0500_0000));
    assert(m1.load8(0x0500_0001) == m2.load8(0x0500_0001));
    assert(lcd_regs_of(m1) == lcd_regs_of(m2));
}

} // verus!
