use pyrite::gba::{Gba, GbaExtras, DMA_TIMING_HBLANK, DMA_TIMING_IMMEDIATE, INT_VBLANK};
use pyrite::ioreg::{IORegister16, DISPSTAT, DMA1CNT_H, IF, KEYINPUT, VCOUNT};
use pyrite::registers::{FLAG_F, FLAG_I, MODE_SVC};

#[test]
fn init_boots_through_bios() {
    let mut g = Gba::new();
    g.init();
    assert_eq!(g.cpu.get_pc(), 0);
    assert_eq!(g.cpu.registers.get_mode(), MODE_SVC);
    assert!(g.cpu.get_flag(FLAG_I));
    assert!(g.cpu.get_flag(FLAG_F));
    assert_eq!(g.cpu.memory.get_reg(IORegister16(KEYINPUT)), 0xFFFF);
}

#[test]
fn cartridge_is_mapped() {
    let mut g = Gba::new();
    g.load_cartridge(vec![0x78, 0x56, 0x34, 0x12]);
    assert_eq!(g.cpu.memory.read32(0x0800_0000), 0x1234_5678);
}

#[test]
fn line_coincidence_flag() {
    let mut g = Gba::new();
    g.cpu.memory.set_reg(IORegister16(DISPSTAT), 0x2A00);
    g.check_line_coincidence(0x2A);
    assert_eq!(g.cpu.memory.get_reg(IORegister16(DISPSTAT)), 0x2A04);
    g.check_line_coincidence(0x2B);
    assert_eq!(g.cpu.memory.get_reg(IORegister16(DISPSTAT)), 0x2A00);
}

#[test]
fn vblank_interrupt_only_when_enabled() {
    let mut g = Gba::new();
    g.try_fire_vblank_int();
    assert_eq!(g.cpu.memory.get_reg(IORegister16(IF)), 0);
    g.cpu.memory.set_reg(IORegister16(DISPSTAT), 0x0008);
    g.try_fire_vblank_int();
    assert_eq!(g.cpu.memory.get_reg(IORegister16(IF)), INT_VBLANK);
    g.hardware_interrupt(0x0040);
    assert_eq!(g.cpu.memory.get_reg(IORegister16(IF)), 0x0041);
}

#[test]
fn dma_channels_due() {
    let mut g = Gba::new();
    g.cpu.memory.set_reg(IORegister16(DMA1CNT_H), 0x8000 | (2 << 12));
    assert_eq!(g.check_dmas(DMA_TIMING_HBLANK), vec![false, true, false, false]);
    assert_eq!(g.check_dmas(DMA_TIMING_IMMEDIATE), vec![false, false, false, false]);
    g.cpu.memory.write16(0x0400_00D2, 0x8000);
    assert!(g.cpu.memory.dma_dirty);
    assert_eq!(g.check_dmas(DMA_TIMING_IMMEDIATE), vec![false, false, true, false]);
    assert!(!g.cpu.memory.dma_dirty);
}

#[test]
fn unexecutable_address_stops() {
    let mut g = Gba::new();
    g.cpu.set_pc(0x1000_0000);
    assert_eq!(g.run_cpu_cycles(10), Err(0x1000_0000));
    assert_eq!(g.frame(), Err(0x1000_0000));
}

#[test]
fn frame_runs_a_loop_in_iwram() {
    let mut g = Gba::new();
    g.cpu.memory.write32(0x0300_0000, 0xEAFF_FFFE); // B . (spin)
    g.cpu.set_pc(0x0300_0000);
    g.cpu.branched = false;
    assert_eq!(g.frame(), Ok(()));
    assert_eq!(g.cpu.get_pc(), 0x0300_0000);
    assert_eq!(g.cpu.memory.get_reg(IORegister16(VCOUNT)), 227);
    assert_eq!(g.cpu.memory.get_reg(IORegister16(DISPSTAT)) & 1, 1);
}

#[test]
fn pause_request_taken_over() {
    let mut e = GbaExtras::new();
    assert!(!e.apply_pause_request());
    e.request_pause = true;
    assert!(e.apply_pause_request());
    assert!(e.paused);
    assert!(!e.apply_pause_request());
}

#[test]
fn timer_cycles_drain() {
    let mut g = Gba::new();
    g.cpu.memory.write32(0x0300_0000, 0xE1A0_0000); // MOV r0, r0
    g.cpu.set_pc(0x0300_0000);
    g.cpu.branched = false;
    g.cpu.tick();
    let n = g.take_timer_cycles();
    assert!(n > 0);
    assert_eq!(g.take_timer_cycles(), 0);
}

#[test]
fn init_selects_arm_state() {
    let mut g = Gba::new();
    g.cpu.registers.put_flag(pyrite::registers::FLAG_T, true);
    g.init();
    assert!(!g.cpu.get_flag(pyrite::registers::FLAG_T));
    assert_eq!(g.cpu.registers.cpsr & 0xFF, 0xD3);
}

#[test]
fn run_cpu_cycles_spends_the_budget() {
    let mut g = Gba::new();
    g.cpu.memory.write32(0x0300_0000, 0xEAFF_FFFE); // B .
    g.cpu.set_pc(0x0300_0000);
    g.cpu.branched = false;
    let start = g.cpu.cycles;
    assert_eq!(g.run_cpu_cycles(100), Ok(()));
    assert!(g.cpu.cycles >= start + 100);
}

#[test]
fn check_dmas_clears_mark_only() {
    let mut g = Gba::new();
    g.cpu.memory.write16(0x0400_00BA, 0x8000);
    assert!(g.cpu.memory.dma_dirty);
    let io_before = g.cpu.memory.io.clone();
    let _ = g.check_dmas(DMA_TIMING_HBLANK);
    assert!(!g.cpu.memory.dma_dirty);
    assert_eq!(g.cpu.memory.io, io_before);
}
