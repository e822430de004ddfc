use pyrite::arm::{arm_execute, arm_class_of, arm_decode_index, ArmClass};
use pyrite::cpu::{ArmCpu, ExceptionKind};
use pyrite::memory::GbaMemory;
use pyrite::registers::{FLAG_C, FLAG_F, FLAG_I, FLAG_N, FLAG_T, FLAG_V, FLAG_Z, MODE_IRQ, MODE_SVC, MODE_SYS, MODE_USR};
use pyrite::thumb::{run_instr, run_instr_dp, to_index, to_index_dp, thumb_push, thumb_pop};

fn cpu() -> ArmCpu {
    ArmCpu::new(GbaMemory::new())
}

fn flags(c: &ArmCpu) -> (bool, bool, bool, bool) {
    (c.get_flag(FLAG_N), c.get_flag(FLAG_Z), c.get_flag(FLAG_C), c.get_flag(FLAG_V))
}

#[test]
fn adds_signed_overflow() {
    let mut c = cpu();
    c.rset(1, 0x7FFF_FFFF);
    c.rset(2, 1);
    arm_execute(&mut c, 0xE091_0002); // ADDS r0, r1, r2
    assert_eq!(c.rget(0), 0x8000_0000);
    assert_eq!(flags(&c), (true, false, false, true));
}

#[test]
fn adds_through_fetch_and_step() {
    let mut c = cpu();
    c.memory.write32(0x0300_0000, 0xE091_0002);
    c.set_pc(0x0300_0000);
    c.branched = false;
    c.rset(1, 0x7FFF_FFFF);
    c.rset(2, 1);
    c.tick();
    assert_eq!(c.rget(0), 0x8000_0000);
    assert_eq!(flags(&c), (true, false, false, true));
    assert_eq!(c.get_pc(), 0x0300_0004);
    assert!(!c.branched);
}

#[test]
fn thumb_lsl_zero_keeps_carry() {
    let mut c = cpu();
    c.rset(1, 0xDEAD_BEEF);
    c.registers.put_flag(FLAG_C, false);
    run_instr(&mut c, 0x00, 0x0008); // LSL r0, r1, #0
    assert_eq!(c.rget(0), 0xDEAD_BEEF);
    assert_eq!(flags(&c).0, true);
    assert_eq!(flags(&c).1, false);
    assert_eq!(flags(&c).2, false);
}

#[test]
fn bx_to_thumb() {
    let mut c = cpu();
    c.rset(0, 0x0800_0101);
    arm_execute(&mut c, 0xE12F_FF10); // BX r0
    assert_eq!(c.get_pc(), 0x0800_0100);
    assert!(c.get_flag(FLAG_T));
}

#[test]
fn subs_carry_is_not_borrow() {
    let mut c = cpu();
    c.rset(1, 5);
    c.rset(2, 7);
    arm_execute(&mut c, 0xE051_0002); // SUBS r0, r1, r2
    assert_eq!(c.rget(0), 0xFFFF_FFFE);
    assert_eq!(flags(&c), (true, false, false, false));
    c.rset(1, 7);
    c.rset(2, 7);
    arm_execute(&mut c, 0xE151_0002); // CMP r1, r2
    assert_eq!(flags(&c), (false, true, true, false));
    assert_eq!(c.rget(0), 0xFFFF_FFFE);
}

#[test]
fn logical_op_takes_shifter_carry() {
    let mut c = cpu();
    c.rset(1, 0x8000_0001);
    arm_execute(&mut c, 0xE1B0_0081); // MOVS r0, r1, LSL #1
    assert_eq!(c.rget(0), 2);
    assert_eq!(flags(&c).2, true);
    arm_execute(&mut c, 0xE1B0_00A1); // MOVS r0, r1, LSR #1
    assert_eq!(c.rget(0), 0x4000_0000);
    assert_eq!(flags(&c).2, true);
    arm_execute(&mut c, 0xE1B0_0021); // MOVS r0, r1, LSR #32
    assert_eq!(c.rget(0), 0);
    assert_eq!(flags(&c), (false, true, true, false));
}

#[test]
fn condition_fails_leaves_state() {
    let mut c = cpu();
    c.rset(1, 3);
    arm_execute(&mut c, 0x03A0_0005); // MOVEQ r0, #5 with Z clear
    assert_eq!(c.rget(0), 0);
    c.registers.put_flag(FLAG_Z, true);
    arm_execute(&mut c, 0x03A0_0005);
    assert_eq!(c.rget(0), 5);
}

#[test]
fn rotated_immediate_operand() {
    let mut c = cpu();
    arm_execute(&mut c, 0xE3A0_04FF); // MOV r0, #0xFF000000
    assert_eq!(c.rget(0), 0xFF00_0000);
}

#[test]
fn pc_reads_eight_ahead() {
    let mut c = cpu();
    c.set_pc(0x0300_0100);
    arm_execute(&mut c, 0xE1A0_000F); // MOV r0, pc
    assert_eq!(c.rget(0), 0x0300_0108);
}

#[test]
fn multiply_and_long_multiply() {
    let mut c = cpu();
    c.rset(1, 6);
    c.rset(2, 7);
    arm_execute(&mut c, 0xE010_0291); // MULS r0, r1, r2
    assert_eq!(c.rget(0), 42);
    c.rset(1, 0xFFFF_FFFF);
    c.rset(2, 2);
    arm_execute(&mut c, 0xE084_3291); // UMULL r3, r4, r1, r2
    assert_eq!(c.rget(3), 0xFFFF_FFFE);
    assert_eq!(c.rget(4), 1);
    arm_execute(&mut c, 0xE0C4_3291); // SMULL r3, r4, r1, r2 (-1 * 2)
    assert_eq!(c.rget(3), 0xFFFF_FFFE);
    assert_eq!(c.rget(4), 0xFFFF_FFFF);
}

#[test]
fn single_transfer_pre_and_post_index() {
    let mut c = cpu();
    c.rset(1, 0x0300_0010);
    c.rset(2, 0xCAFE_BABE);
    arm_execute(&mut c, 0xE5A1_2004); // STR r2, [r1, #4]!
    assert_eq!(c.rget(1), 0x0300_0014);
    assert_eq!(c.memory.read32(0x0300_0014), 0xCAFE_BABE);
    arm_execute(&mut c, 0xE491_3004); // LDR r3, [r1], #4
    assert_eq!(c.rget(3), 0xCAFE_BABE);
    assert_eq!(c.rget(1), 0x0300_0018);
    arm_execute(&mut c, 0xE551_4004); // LDRB r4, [r1, #-4]
    assert_eq!(c.rget(4), 0xBE);
    assert_eq!(c.rget(1), 0x0300_0018);
}

#[test]
fn halfword_and_signed_loads() {
    let mut c = cpu();
    c.memory.write16(0x0300_0020, 0x80F0);
    c.rset(1, 0x0300_0020);
    arm_execute(&mut c, 0xE1D1_00B0); // LDRH r0, [r1]
    assert_eq!(c.rget(0), 0x80F0);
    arm_execute(&mut c, 0xE1D1_00F0); // LDRSH r0, [r1]
    assert_eq!(c.rget(0), 0xFFFF_80F0);
    arm_execute(&mut c, 0xE1D1_00D0); // LDRSB r0, [r1]
    assert_eq!(c.rget(0), 0xFFFF_FFF0);
}

#[test]
fn block_transfer_round_trip() {
    let mut c = cpu();
    c.rset(13, 0x0300_7F00);
    c.rset(0, 11);
    c.rset(1, 22);
    c.rset(2, 33);
    arm_execute(&mut c, 0xE92D_0007); // STMDB sp!, {r0-r2}
    assert_eq!(c.rget(13), 0x0300_7EF4);
    assert_eq!(c.memory.read32(0x0300_7EF4), 11);
    assert_eq!(c.memory.read32(0x0300_7EFC), 33);
    c.rset(0, 0);
    c.rset(1, 0);
    c.rset(2, 0);
    arm_execute(&mut c, 0xE8BD_0007); // LDMIA sp!, {r0-r2}
    assert_eq!((c.rget(0), c.rget(1), c.rget(2)), (11, 22, 33));
    assert_eq!(c.rget(13), 0x0300_7F00);
}

#[test]
fn branch_and_link() {
    let mut c = cpu();
    c.set_pc(0x0800_0000);
    arm_execute(&mut c, 0xEB00_0002); // BL +8 (to PC + 8 + 8)
    assert_eq!(c.get_pc(), 0x0800_0010);
    assert_eq!(c.rget(14), 0x0800_0004);
    arm_execute(&mut c, 0xEAFF_FFFE); // B to itself
    assert_eq!(c.get_pc(), 0x0800_0010);
}

#[test]
fn swi_then_movs_pc_lr_restores() {
    let mut c = cpu();
    c.registers.switch_mode(MODE_SYS);
    c.registers.put_flag(FLAG_C, true);
    c.registers.put_flag(FLAG_I, false);
    let before = c.registers.cpsr;
    c.memory.write32(0x0300_0000, 0xEF00_0000); // SWI 0
    c.set_pc(0x0300_0000);
    c.branched = false;
    c.tick();
    assert_eq!(c.get_pc(), 0x08);
    assert_eq!(c.registers.get_mode(), MODE_SVC);
    assert!(c.get_flag(FLAG_I));
    assert_eq!(c.rget(14), 0x0300_0004);
    assert_eq!(c.registers.get_spsr(), before);
    arm_execute(&mut c, 0xE1B0_F00E); // MOVS pc, lr
    assert_eq!(c.registers.cpsr, before);
    assert_eq!(c.get_pc(), 0x0300_0004);
}

#[test]
fn irq_entry_and_return() {
    let mut c = cpu();
    c.registers.switch_mode(MODE_SYS);
    c.registers.put_flag(FLAG_I, false);
    let before = c.registers.cpsr;
    c.set_pc(0x0300_0040);
    c.branched = false;
    c.memory.set_reg(pyrite::ioreg::IORegister16(pyrite::ioreg::IE), 1);
    c.memory.set_reg(pyrite::ioreg::IORegister16(pyrite::ioreg::IF), 1);
    c.memory.set_reg(pyrite::ioreg::IORegister16(pyrite::ioreg::IME), 1);
    assert!(c.irq_pending());
    c.tick();
    assert_eq!(c.registers.get_mode(), MODE_IRQ);
    assert_eq!(c.get_pc(), 0x18);
    assert_eq!(c.rget(14), 0x0300_0044);
    assert!(!c.irq_pending());
    arm_execute(&mut c, 0xE25E_F004); // SUBS pc, lr, #4
    assert_eq!(c.registers.cpsr, before);
    assert_eq!(c.get_pc(), 0x0300_0040);
}

#[test]
fn exception_entry_fields() {
    let mut c = cpu();
    c.registers.switch_mode(MODE_USR);
    c.registers.put_flag(FLAG_T, true);
    c.enter_exception(ExceptionKind::Undefined, 0x1234);
    assert_eq!(c.registers.get_mode(), 0x1b);
    assert_eq!(c.get_pc(), 0x04);
    assert!(!c.get_flag(FLAG_T));
    assert!(c.get_flag(FLAG_I));
    assert!(c.get_flag(FLAG_F));
    assert_eq!(c.rget(14), 0x1234);
}

#[test]
fn fiq_mask_stays_set_after_msr() {
    let mut c = cpu();
    c.rset(0, 0x0000_001F);
    arm_execute(&mut c, 0xE129_F000); // MSR cpsr_fc, r0
    assert!(c.get_flag(FLAG_F));
    assert_eq!(c.registers.get_mode(), MODE_SYS);
    c.rset(0, 0x0000_0005); // no such mode
    arm_execute(&mut c, 0xE129_F000);
    assert_eq!(c.registers.get_mode(), MODE_SYS);
    assert!(c.get_flag(FLAG_F));
}

#[test]
fn mrs_reads_cpsr() {
    let mut c = cpu();
    arm_execute(&mut c, 0xE10F_0000); // MRS r0, cpsr
    assert_eq!(c.rget(0), c.registers.cpsr);
    assert_eq!(c.rget(0) & 0x1F, MODE_SVC);
}

#[test]
fn switch_mode_round_trip() {
    let mut c = cpu();
    for r in 0..15u32 {
        c.rset(r, 0x100 + r);
    }
    let saved = c.registers.phys;
    let saved_cpsr = c.registers.cpsr;
    c.registers.switch_mode(MODE_IRQ);
    assert_eq!(c.rget(13), 0);
    assert_eq!(c.rget(12), 0x10C);
    c.registers.switch_mode(MODE_SVC);
    assert_eq!(c.registers.phys, saved);
    assert_eq!(c.registers.cpsr, saved_cpsr);
    assert_eq!(c.rget(13), 0x10D);
}

#[test]
fn fiq_banks_high_registers() {
    let mut c = cpu();
    c.registers.set_with_mode(0x11, 8, 77);
    c.rset(8, 5);
    assert_eq!(c.registers.get_with_mode(0x11, 8), 77);
    assert_eq!(c.registers.get_with_mode(MODE_USR, 8), 5);
}

#[test]
fn thumb_push_pop_round_trip() {
    let mut c = cpu();
    c.rset(13, 0x0300_7F00);
    c.rset(0, 1);
    c.rset(1, 2);
    c.rset(2, 3);
    thumb_push(&mut c, 0xB407, false); // PUSH {r0-r2}
    assert_eq!(c.rget(13), 0x0300_7EF4);
    c.rset(0, 9);
    c.rset(1, 9);
    c.rset(2, 9);
    thumb_pop(&mut c, 0xBC07, false); // POP {r0-r2}
    assert_eq!((c.rget(0), c.rget(1), c.rget(2)), (1, 2, 3));
    assert_eq!(c.rget(13), 0x0300_7F00);
}

#[test]
fn thumb_data_processing_ops() {
    let mut c = cpu();
    c.rset(0, 0xF0);
    c.rset(1, 0x3C);
    run_instr_dp(&mut c, 0, 0x4008); // AND r0, r1
    assert_eq!(c.rget(0), 0x30);
    run_instr_dp(&mut c, 9, 0x4248); // NEG r0, r1
    assert_eq!(c.rget(0), 0u32.wrapping_sub(0x3C));
    c.rset(0, 5);
    run_instr_dp(&mut c, 13, 0x4348); // MUL r0, r1
    assert_eq!(c.rget(0), 5 * 0x3C);
    run_instr_dp(&mut c, 15, 0x43C8); // MVN r0, r1
    assert_eq!(c.rget(0), !0x3Cu32);
}

#[test]
fn thumb_immediates_and_branches() {
    let mut c = cpu();
    c.registers.put_flag(FLAG_T, true);
    c.set_pc(0x0800_0000);
    run_instr(&mut c, 0x20, 0x2042); // MOV r0, #0x42
    assert_eq!(c.rget(0), 0x42);
    run_instr(&mut c, 0x28, 0x2842); // CMP r0, #0x42
    assert!(c.get_flag(FLAG_Z));
    run_instr(&mut c, 0xD0, 0xD002); // BEQ +4
    assert_eq!(c.get_pc(), 0x0800_0008);
    run_instr(&mut c, 0xF0, 0xF000); // BL, first half
    run_instr(&mut c, 0xF8, 0xF804); // BL, second half (+8)
    assert_eq!(c.get_pc(), 0x0800_0014);
    assert_eq!(c.rget(14), 0x0800_000B);
}

#[test]
fn thumb_swi_enters_supervisor() {
    let mut c = cpu();
    c.registers.switch_mode(MODE_USR);
    c.registers.put_flag(FLAG_T, true);
    c.set_pc(0x0800_0100);
    run_instr(&mut c, 0xDF, 0xDF05);
    assert_eq!(c.registers.get_mode(), MODE_SVC);
    assert_eq!(c.get_pc(), 0x08);
    assert_eq!(c.rget(14), 0x0800_0102);
    assert!(!c.get_flag(FLAG_T));
}

#[test]
fn table_indices() {
    assert_eq!(to_index(3, 5), 53);
    assert_eq!(to_index_dp(3, 2), 14);
    assert_eq!(arm_decode_index(0xE091_0002), 0x090);
    assert_eq!(arm_class_of(arm_decode_index(0xE091_0002)), ArmClass::DataProcessing);
    assert_eq!(arm_class_of(arm_decode_index(0xE12F_FF10)), ArmClass::BranchExchange);
    assert_eq!(arm_class_of(arm_decode_index(0xE000_0291)), ArmClass::Multiply);
    assert_eq!(arm_class_of(arm_decode_index(0xEF00_0000)), ArmClass::SoftwareInterrupt);
    assert_eq!(arm_class_of(arm_decode_index(0xEE00_0000)), ArmClass::Undefined);
}

fn thumb_cpu(pc: u32) -> ArmCpu {
    let mut c = cpu();
    c.registers.put_flag(FLAG_T, true);
    c.set_pc(pc);
    c
}

fn thumb(c: &mut ArmCpu, instr: u32) {
    run_instr(c, instr >> 8, instr);
}

#[test]
fn thumb_add_sub_and_high_registers() {
    let mut c = thumb_cpu(0x0300_0000);
    c.rset(1, 10);
    thumb(&mut c, 0x1CC8); // ADD r0, r1, #3
    assert_eq!(c.rget(0), 13);
    thumb(&mut c, 0x1A0A); // SUB r2, r1, r0
    assert_eq!(c.rget(2), 0xFFFF_FFFD);
    assert!(c.get_flag(FLAG_N));
    assert!(!c.get_flag(FLAG_C));
    thumb(&mut c, 0x4680); // MOV r8, r0
    assert_eq!(c.rget(8), 13);
    thumb(&mut c, 0x4440); // ADD r0, r8
    assert_eq!(c.rget(0), 26);
}

#[test]
fn thumb_loads_and_stores() {
    let mut c = thumb_cpu(0x0300_0000);
    c.memory.write32(0x0300_0008, 0x1234_5678);
    thumb(&mut c, 0x4801); // LDR r0, [pc, #4]
    assert_eq!(c.rget(0), 0x1234_5678);
    c.rset(1, 0xA1B2_C3D4);
    c.rset(2, 0x0300_0100);
    thumb(&mut c, 0x6051); // STR r1, [r2, #4]
    assert_eq!(c.memory.read32(0x0300_0104), 0xA1B2_C3D4);
    thumb(&mut c, 0x7913); // LDRB r3, [r2, #4]
    assert_eq!(c.rget(3), 0xD4);
    thumb(&mut c, 0x8051); // STRH r1, [r2, #2]
    thumb(&mut c, 0x8854); // LDRH r4, [r2, #2]
    assert_eq!(c.rget(4), 0xC3D4);
    c.rset(0, 0x10);
    thumb(&mut c, 0x5011); // STR r1, [r2, r0]
    assert_eq!(c.memory.read32(0x0300_0110), 0xA1B2_C3D4);
    thumb(&mut c, 0x5613); // LDRSB r3, [r2, r0]
    assert_eq!(c.rget(3), 0xFFFF_FFD4);
}

#[test]
fn thumb_stack_and_address_forms() {
    let mut c = thumb_cpu(0x0300_0000);
    c.rset(13, 0x0300_7F00);
    c.rset(1, 77);
    thumb(&mut c, 0x9102); // STR r1, [sp, #8]
    thumb(&mut c, 0x9D02); // LDR r5, [sp, #8]
    assert_eq!(c.rget(5), 77);
    thumb(&mut c, 0xAE04); // ADD r6, sp, #16
    assert_eq!(c.rget(6), 0x0300_7F10);
    thumb(&mut c, 0xA702); // ADD r7, pc, #8
    assert_eq!(c.rget(7), 0x0300_000C);
    thumb(&mut c, 0xB082); // SUB sp, #8
    assert_eq!(c.rget(13), 0x0300_7EF8);
    c.rset(0, 5);
    c.rset(1, 6);
    c.rset(2, 0x0300_0200);
    thumb(&mut c, 0xC203); // STMIA r2!, {r0, r1}
    assert_eq!(c.rget(2), 0x0300_0208);
    c.rset(2, 0x0300_0200);
    thumb(&mut c, 0xCA18); // LDMIA r2!, {r3, r4}
    assert_eq!((c.rget(3), c.rget(4)), (5, 6));
    assert_eq!(c.rget(2), 0x0300_0208);
    thumb(&mut c, 0xE7FE); // B .
    assert_eq!(c.get_pc(), 0x0300_0000);
}

#[test]
fn thumb_step_advances_by_two() {
    let mut c = thumb_cpu(0x0300_0000);
    c.branched = false;
    c.memory.write16(0x0300_0000, 0x2005); // MOV r0, #5
    c.tick();
    assert_eq!(c.rget(0), 5);
    assert_eq!(c.get_pc(), 0x0300_0002);
    assert_eq!(c.memory.open_bus, 0x2005);
}
