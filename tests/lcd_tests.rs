use pyrite::ioreg::{IORegister16, BG0CNT, BG1CNT, BLDALPHA, BLDCNT, BLDY, DISPCNT, WIN0H, WIN0V, WININ, WINOUT};
use pyrite::lcd::{
    compose_line, convert_rgb5_to_rgb8, convert_rgb5_to_rgba8, expand_color, is_transparent, read_lcd_regs,
    GbaLcd, ObjLineInfo,
};
use pyrite::memory::GbaMemory;

fn setup(dispcnt: u16, backdrop: u16) -> (GbaLcd, GbaMemory) {
    let mut m = GbaMemory::new();
    m.set_reg(IORegister16(DISPCNT), dispcnt);
    m.write16(0x0500_0000, backdrop);
    (GbaLcd::new(), m)
}

#[test]
fn backdrop_white_when_nothing_enabled() {
    let (mut lcd, m) = setup(0, 0x7FFF);
    lcd.blend_line(0, &m);
    for x in 0..240 {
        assert_eq!(lcd.screen_buffer[0][x], (255, 255, 255));
    }
}

#[test]
fn backdrop_only_for_any_colour() {
    let (mut lcd, m) = setup(0, 0x1234);
    lcd.lines.bg0 = [0x801F; 240];
    lcd.blend_line(5, &m);
    let e = expand_color(0x1234);
    for x in 0..240 {
        assert_eq!(lcd.screen_buffer[5][x], e);
    }
    assert_eq!(lcd.screen_buffer[4][0], (0, 0, 0));
}

#[test]
fn lower_index_wins_priority_tie() {
    let (mut lcd, mut m) = setup(0x0300, 0);
    m.set_reg(IORegister16(BG0CNT), 0);
    m.set_reg(IORegister16(BG1CNT), 0);
    lcd.lines.bg0 = [0x801F; 240];
    lcd.lines.bg1 = [0xFC00; 240];
    lcd.lines.bg0_enable = true;
    lcd.lines.bg1_enable = true;
    lcd.blend_line(10, &m);
    for x in 0..240 {
        assert_eq!(lcd.screen_buffer[10][x], (255, 0, 0));
    }
}

#[test]
fn higher_priority_background_on_top() {
    let (mut lcd, mut m) = setup(0x0300, 0);
    m.set_reg(IORegister16(BG0CNT), 1);
    m.set_reg(IORegister16(BG1CNT), 0);
    lcd.lines.bg0 = [0x801F; 240];
    lcd.lines.bg1 = [0xFC00; 240];
    lcd.lines.bg0_enable = true;
    lcd.lines.bg1_enable = true;
    lcd.blend_line(0, &m);
    assert_eq!(lcd.screen_buffer[0][0], (0, 0, 255));
}

#[test]
fn transparent_pixels_show_what_is_below() {
    let (mut lcd, mut m) = setup(0x0300, 0);
    m.set_reg(IORegister16(BG1CNT), 1);
    lcd.lines.bg0 = [0x001F; 240];
    lcd.lines.bg1 = [0xFC00; 240];
    lcd.lines.bg0_enable = true;
    lcd.lines.bg1_enable = true;
    lcd.blend_line(0, &m);
    assert_eq!(lcd.screen_buffer[0][100], (0, 0, 255));
}

#[test]
fn alpha_blend_sprite_over_background() {
    let (mut lcd, mut m) = setup(0x1100, 0);
    m.set_reg(IORegister16(BLDCNT), 0x0150);
    m.set_reg(IORegister16(BLDALPHA), 0x0808);
    lcd.lines.bg0 = [0x83E0; 240];
    lcd.lines.bg0_enable = true;
    lcd.lines.obj = [0x801F; 240];
    for x in 0..240 {
        lcd.lines.obj_info.set_priority(x, 1);
    }
    lcd.blend_line(0, &m);
    for x in 0..240 {
        assert_eq!(lcd.screen_buffer[0][x], (127, 127, 0));
    }
}

#[test]
fn semi_transparent_sprite_forces_blend() {
    let (mut lcd, mut m) = setup(0x1100, 0);
    m.set_reg(IORegister16(BLDCNT), 0x0100 | (2 << 6));
    m.set_reg(IORegister16(BLDALPHA), 0x0808);
    lcd.lines.bg0 = [0x83E0; 240];
    lcd.lines.bg0_enable = true;
    lcd.lines.obj = [0x801F; 240];
    lcd.lines.obj_info.set_priority(0, 1);
    lcd.lines.obj_info.set_transparent(0);
    lcd.lines.obj_info.set_priority(1, 1);
    lcd.blend_line(0, &m);
    assert_eq!(lcd.screen_buffer[0][0], (127, 127, 0));
    assert_eq!(lcd.screen_buffer[0][1], (255, 0, 0));
}

#[test]
fn brighten_and_darken() {
    let (mut lcd, mut m) = setup(0, 0x0010);
    m.set_reg(IORegister16(BLDCNT), 0x0020 | (2 << 6));
    m.set_reg(IORegister16(BLDY), 8);
    lcd.blend_line(0, &m);
    let c = expand_color(0x0010).0 as u16;
    assert_eq!(lcd.screen_buffer[0][0].0 as u16, c + (255 - c) * 8 / 16);
    m.set_reg(IORegister16(BLDCNT), 0x0020 | (3 << 6));
    m.set_reg(IORegister16(BLDY), 31);
    lcd.blend_line(0, &m);
    assert_eq!(lcd.screen_buffer[0][0], (0, 0, 0));
}

#[test]
fn window_zero_hides_layer() {
    let (mut lcd, mut m) = setup(0x2100, 0);
    m.set_reg(IORegister16(WIN0H), (10 << 8) | 20);
    m.set_reg(IORegister16(WIN0V), 160);
    m.set_reg(IORegister16(WININ), 0);
    m.set_reg(IORegister16(WINOUT), 0x01);
    lcd.lines.bg0 = [0x801F; 240];
    lcd.lines.bg0_enable = true;
    lcd.blend_line(0, &m);
    assert_eq!(lcd.screen_buffer[0][5], (255, 0, 0));
    assert_eq!(lcd.screen_buffer[0][10], (0, 0, 0));
    assert_eq!(lcd.screen_buffer[0][19], (0, 0, 0));
    assert_eq!(lcd.screen_buffer[0][20], (255, 0, 0));
}

#[test]
fn output_ignores_other_memory() {
    let (lcd, mut m) = setup(0x0100, 0x0421);
    let mut lcd = lcd;
    lcd.lines.bg0 = [0x0000; 240];
    lcd.lines.bg0_enable = true;
    lcd.blend_line(0, &m);
    let first = lcd.screen_buffer[0].clone();
    m.write32(0x0600_0000, 0xFFFF_FFFF);
    m.write32(0x0200_0000, 0x1234_5678);
    m.write16(0x0500_0010, 0x7FFF);
    lcd.blend_line(0, &m);
    assert_eq!(lcd.screen_buffer[0], first);
    let regs = read_lcd_regs(&m);
    assert_eq!(compose_line(&regs, &lcd.lines, 0), first);
}

#[test]
fn colour_helpers() {
    assert_eq!(expand_color(0x7FFF), (255, 255, 255));
    assert_eq!(expand_color(0), (0, 0, 0));
    assert_eq!(expand_color(0x0010), (132, 0, 0));
    assert_eq!(convert_rgb5_to_rgb8(0x1234), 0x9234);
    assert_eq!(convert_rgb5_to_rgba8(0x0001), 0x8001);
    assert!(is_transparent(0x7FFF));
    assert!(!is_transparent(0x8000));
}

#[test]
fn sprite_metadata_fields() {
    let mut info = ObjLineInfo { data: [0u8; 240] };
    info.set_priority(3, 4);
    info.set_window(3);
    info.set_transparent(3);
    assert_eq!(info.get_priority(3), 4);
    assert!(info.is_window(3));
    assert!(info.is_transparent(3));
    info.set_priority(3, 2);
    info.clear_transparent(3);
    assert_eq!(info.get_priority(3), 2);
    assert!(info.is_window(3));
    assert!(!info.is_transparent(3));
    assert_eq!(info.data[3], 0x0A);
}

#[test]
fn bitmap_mode_three_line() {
    let (mut lcd, mut m) = setup(0x0403, 0);
    m.write16(0x0600_0000 + (2 * 240 + 7) * 2, 0x03E0);
    lcd.render_line(&mut m, 2);
    assert_eq!(lcd.screen_buffer[2][7], (0, 255, 0));
    assert_eq!(lcd.screen_buffer[2][8], (0, 0, 0));
    assert!(lcd.lines.bg2_enable);
    assert!(!lcd.lines.bg0_enable);
}

#[test]
fn bitmap_mode_four_uses_palette() {
    let (mut lcd, mut m) = setup(0x0404, 0x7C00);
    m.write16(0x0500_0002, 0x001F);
    m.write16(0x0600_0000 + 3 * 240 + 10, 0x0101);
    lcd.render_line(&mut m, 3);
    assert_eq!(lcd.screen_buffer[3][10], (255, 0, 0));
    assert_eq!(lcd.screen_buffer[3][11], (255, 0, 0));
    assert_eq!(lcd.screen_buffer[3][12], (0, 0, 255));
}

#[test]
fn text_background_tile() {
    let (mut lcd, mut m) = setup(0x0100, 0);
    // BG0: char base 0, screen base block 8, 16 colours.
    m.set_reg(IORegister16(BG0CNT), 8 << 8);
    // Tile 1, palette bank 0, at map position (0, 0).
    m.write16(0x0600_4000, 1);
    // Tile 1, row 0: texel 0 = colour 1, texel 1 = 2.
    m.write16(0x0600_0020, 0x0021);
    m.write16(0x0500_0002, 0x001F);
    m.write16(0x0500_0004, 0x03E0);
    lcd.render_line(&mut m, 0);
    assert_eq!(lcd.screen_buffer[0][0], (255, 0, 0));
    assert_eq!(lcd.screen_buffer[0][1], (0, 255, 0));
    assert_eq!(lcd.screen_buffer[0][2], (0, 0, 0));
}

#[test]
fn sprite_drawn_with_priority() {
    let (mut lcd, mut m) = setup(0x1040, 0);
    // Sprite 0: y 0, x 4, 8x8, 16 colours, tile 0, priority 0.
    m.write16(0x0700_0000, 0);
    m.write16(0x0700_0002, 4);
    m.write16(0x0700_0004, 0);
    // Every other sprite off screen (y 160).
    for i in 1..128u32 {
        m.write16(0x0700_0000 + i * 8, 160);
    }
    m.write16(0x0601_0000, 0x0011);
    m.write16(0x0500_0202, 0x7C00);
    lcd.render_line(&mut m, 0);
    assert_eq!(lcd.screen_buffer[0][4], (0, 0, 255));
    assert_eq!(lcd.screen_buffer[0][5], (0, 0, 255));
    assert_eq!(lcd.screen_buffer[0][6], (0, 0, 0));
    assert_eq!(lcd.lines.obj_info.get_priority(4), 1);
}

#[test]
fn affine_background_identity_matrix() {
    let (mut lcd, mut m) = setup(0x0401, 0x7C00);
    // BG2: 128x128 map at screen block 8, tiles at char block 0.
    m.set_reg(IORegister16(pyrite::ioreg::BG2CNT), 8 << 8);
    m.set_reg(IORegister16(pyrite::ioreg::BG2PA), 0x100);
    m.set_reg(IORegister16(pyrite::ioreg::BG2PD), 0x100);
    m.write16(0x0600_4000, 0x0001);
    m.write16(0x0600_0040, 0x0001);
    m.write16(0x0500_0002, 0x001F);
    lcd.render_line(&mut m, 0);
    assert_eq!(lcd.screen_buffer[0][0], (255, 0, 0));
    assert_eq!(lcd.screen_buffer[0][1], (0, 0, 255));
    assert_eq!(lcd.affine_ref[1], 0x100);
    lcd.render_line(&mut m, 1);
    assert_eq!(lcd.screen_buffer[1][0], (0, 0, 255));
    assert_eq!(lcd.line_refs[1], 0x100);
}

#[test]
fn affine_background_outside_map_is_transparent() {
    let (mut lcd, mut m) = setup(0x0401, 0x7C00);
    m.set_reg(IORegister16(pyrite::ioreg::BG2CNT), 8 << 8);
    m.set_reg(IORegister16(pyrite::ioreg::BG2PA), 0x100);
    // Reference x = 127.0: pixel 0 is the last column, pixel 1 is off the map.
    m.set_reg32(pyrite::ioreg::IORegister32(pyrite::ioreg::BG2X), 127 << 8);
    m.write16(0x0600_400E, 0x0100);
    m.write16(0x0600_0046, 0x0100);
    m.write16(0x0500_0002, 0x001F);
    lcd.render_line(&mut m, 0);
    assert_eq!(lcd.screen_buffer[0][0], (255, 0, 0));
    assert_eq!(lcd.screen_buffer[0][1], (0, 0, 255));
    // With wrap-around the map repeats: pixel 128 is column 127 again.
    m.set_reg(IORegister16(pyrite::ioreg::BG2CNT), (8 << 8) | 0x2000);
    lcd.render_line(&mut m, 0);
    assert_eq!(lcd.screen_buffer[0][128], (255, 0, 0));
}

#[test]
fn new_screen_and_buffers_are_zero() {
    let lcd = GbaLcd::new();
    assert_eq!(lcd.screen_buffer.len(), 160);
    assert!(lcd.screen_buffer.iter().all(|row| row.len() == 240 && row.iter().all(|p| *p == (0, 0, 0))));
    assert_eq!(lcd.lines.bg0, [0u16; 240]);
    assert_eq!(lcd.lines.bg3, [0u16; 240]);
    assert_eq!(lcd.lines.obj, [0u16; 240]);
    assert_eq!(lcd.lines.obj_info.data, [0u8; 240]);
    assert!(!lcd.lines.bg0_enable && !lcd.lines.bg1_enable && !lcd.lines.bg2_enable && !lcd.lines.bg3_enable);
}
