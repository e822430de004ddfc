use pyrite::ioreg::{IORegister16, IORegister32, IORegister8, DISPSTAT, DMA0CNT_H, HALTCNT, IF, KEYINPUT, BG2X, VCOUNT};
use pyrite::memory::GbaMemory;

#[test]
fn word_round_trip_in_every_ram_region() {
    let mut m = GbaMemory::new();
    for base in [0x0200_0000u32, 0x0300_0000, 0x0500_0000, 0x0600_0000, 0x0700_0000, 0x0E00_0000] {
        m.write32(base + 0x40, 0x1234_5678);
        assert_eq!(m.read32(base + 0x40), 0x1234_5678);
        m.write16(base + 0x82, 0xBEEF);
        assert_eq!(m.read16(base + 0x82), 0xBEEF);
    }
}

#[test]
fn byte_round_trip_and_quirks() {
    let mut m = GbaMemory::new();
    m.write8(0x0200_0001, 0xAB);
    assert_eq!(m.read8(0x0200_0001), 0xAB);
    m.write8(0x0300_7FFF, 0xCD);
    assert_eq!(m.read8(0x0300_7FFF), 0xCD);
    m.write8(0x0E00_0010, 0x5A);
    assert_eq!(m.read8(0x0E00_0010), 0x5A);
    // Palette and VRAM take the byte in both halves of the halfword.
    m.write8(0x0500_0003, 0x12);
    assert_eq!(m.read16(0x0500_0002), 0x1212);
    m.write8(0x0600_0100, 0x34);
    assert_eq!(m.read16(0x0600_0100), 0x3434);
    // OAM ignores byte writes.
    m.write8(0x0700_0000, 0x77);
    assert_eq!(m.read8(0x0700_0000), 0);
}

#[test]
fn little_endian_and_alignment() {
    let mut m = GbaMemory::new();
    m.write32(0x0300_0000, 0x1122_3344);
    assert_eq!(m.read8(0x0300_0000), 0x44);
    assert_eq!(m.read8(0x0300_0003), 0x11);
    assert_eq!(m.read16(0x0300_0002), 0x1122);
    assert_eq!(m.read16(0x0300_0003), 0x1122);
    assert_eq!(m.read32(0x0300_0002), 0x1122_3344);
}

#[test]
fn mirrors_fold_onto_first_copy() {
    let mut m = GbaMemory::new();
    m.write32(0x0200_0000, 7);
    assert_eq!(m.read32(0x0204_0000), 7);
    m.write32(0x0300_0010, 9);
    assert_eq!(m.read32(0x03FF_8010), 9);
    m.write16(0x0601_0000, 0x4242);
    assert_eq!(m.read16(0x0601_8000), 0x4242);
}

#[test]
fn rom_and_bios_are_read_only() {
    let mut m = GbaMemory::new();
    m.rom = vec![1, 2, 3, 4, 5, 6, 7, 8];
    m.write32(0x0800_0000, 0);
    assert_eq!(m.read32(0x0800_0000), 0x0403_0201);
    assert_eq!(m.read32(0x0A00_0004), 0x0807_0605);
    assert_eq!(m.read32(0x0C00_0000), 0x0403_0201);
    m.write8(0x0000_0010, 9);
    assert_eq!(m.read8(0x0000_0010), 0);
}

#[test]
fn unmapped_reads_open_bus() {
    let mut m = GbaMemory::new();
    m.open_bus = 0xAABB_CCDD;
    assert_eq!(m.read32(0x1000_0000), 0xAABB_CCDD);
    assert_eq!(m.read8(0x1000_0001), 0xCC);
    assert_eq!(m.read32(0x0800_0000), 0xAABB_CCDD);
    m.write32(0x1000_0000, 5);
    assert_eq!(m.read32(0x1000_0000), 0xAABB_CCDD);
}

#[test]
fn io_register_masks() {
    let mut m = GbaMemory::new();
    m.set_reg(IORegister16(VCOUNT), 100);
    m.write16(0x0400_0006, 5);
    assert_eq!(m.read16(0x0400_0006), 100);
    m.set_reg(IORegister16(DISPSTAT), 0x0001);
    m.write16(0x0400_0004, 0xFF3E);
    assert_eq!(m.get_reg(IORegister16(DISPSTAT)), 0xFF39);
    m.write16(0x0400_0130, 0);
    assert_eq!(m.read16(0x0400_0130), 0);
    m.set_reg(IORegister16(KEYINPUT), 0x03FF);
    m.write16(0x0400_0130, 0);
    assert_eq!(m.read16(0x0400_0130), 0x03FF);
    // Scroll registers are write-only.
    m.write16(0x0400_0010, 0x0123);
    assert_eq!(m.read16(0x0400_0010), 0);
    assert_eq!(m.get_reg(IORegister16(0x0400_0010)), 0x0123);
}

#[test]
fn interrupt_flags_clear_on_write() {
    let mut m = GbaMemory::new();
    m.set_reg(IORegister16(IF), 0x0007);
    m.write16(0x0400_0202, 0x0002);
    assert_eq!(m.get_reg(IORegister16(IF)), 0x0005);
}

#[test]
fn dma_enable_marks_dirty() {
    let mut m = GbaMemory::new();
    assert!(!m.dma_dirty);
    m.write16(0x0400_00BA, 0x0000);
    assert!(!m.dma_dirty);
    m.write16(0x0400_00BA, 0x8000);
    assert!(m.dma_dirty);
    assert_eq!(m.get_reg(IORegister16(DMA0CNT_H)), 0x8000);
    assert!(!m.timers_dirty);
    m.write16(0x0400_0102, 0x0080);
    assert!(m.timers_dirty);
}

#[test]
fn raw_register_access() {
    let mut m = GbaMemory::new();
    m.set_reg32(IORegister32(BG2X), 0x0102_0304);
    assert_eq!(m.get_reg32(IORegister32(BG2X)), 0x0102_0304);
    assert_eq!(m.get_reg(IORegister16(BG2X + 2)), 0x0102);
    m.set_reg8(IORegister8(HALTCNT), 0x80);
    assert_eq!(m.get_reg8(IORegister8(HALTCNT)), 0x80);
}
