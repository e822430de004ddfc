use pyrite::alu::{
    alu_adc, alu_add, alu_rsb, alu_rsc, alu_sbc, alu_sub, barrel_shift_imm, barrel_shift_reg,
};

const X: u32 = 0x8000_0003;

#[test]
fn lsl_cases() {
    assert_eq!(barrel_shift_imm(0, X, 0, true), (X, true));
    assert_eq!(barrel_shift_imm(0, X, 0, false), (X, false));
    assert_eq!(barrel_shift_imm(0, X, 1, false), (6, true));
    assert_eq!(barrel_shift_imm(0, X, 31, false), (0x8000_0000, true));
    assert_eq!(barrel_shift_reg(0, X, 32, false), (0, true));
    assert_eq!(barrel_shift_reg(0, X, 33, true), (0, false));
    assert_eq!(barrel_shift_reg(0, X, 0x100, true), (X, true));
}

#[test]
fn lsr_cases() {
    assert_eq!(barrel_shift_imm(1, X, 0, false), (0, true));
    assert_eq!(barrel_shift_reg(1, X, 0, false), (X, false));
    assert_eq!(barrel_shift_imm(1, X, 1, false), (0x4000_0001, true));
    assert_eq!(barrel_shift_imm(1, X, 2, false), (0x2000_0000, true));
    assert_eq!(barrel_shift_reg(1, X, 32, false), (0, true));
    assert_eq!(barrel_shift_reg(1, X, 40, true), (0, false));
}

#[test]
fn asr_cases() {
    assert_eq!(barrel_shift_imm(2, X, 0, false), (0xFFFF_FFFF, true));
    assert_eq!(barrel_shift_imm(2, 0x7000_0000, 0, true), (0, false));
    assert_eq!(barrel_shift_reg(2, X, 0, true), (X, true));
    assert_eq!(barrel_shift_imm(2, X, 1, false), (0xC000_0001, true));
    assert_eq!(barrel_shift_imm(2, X, 4, false), (0xF800_0000, false));
    assert_eq!(barrel_shift_reg(2, X, 200, false), (0xFFFF_FFFF, true));
}

#[test]
fn ror_cases() {
    assert_eq!(barrel_shift_imm(3, X, 0, true), (0xC000_0001, true));
    assert_eq!(barrel_shift_imm(3, X, 0, false), (0x4000_0001, true));
    assert_eq!(barrel_shift_reg(3, X, 0, false), (X, false));
    assert_eq!(barrel_shift_imm(3, X, 1, false), (0xC000_0001, true));
    assert_eq!(barrel_shift_reg(3, X, 32, false), (X, true));
    assert_eq!(barrel_shift_reg(3, X, 33, false), (0xC000_0001, true));
    assert_eq!(barrel_shift_imm(3, 0x0000_0010, 4, false), (1, false));
}

#[test]
fn arithmetic_primitives() {
    let r = alu_add(0xFFFF_FFFF, 1);
    assert_eq!((r.value, r.carry, r.overflow), (0, true, false));
    let r = alu_adc(1, 1, true);
    assert_eq!((r.value, r.carry, r.overflow), (3, false, false));
    let r = alu_sub(0x8000_0000, 1);
    assert_eq!((r.value, r.carry, r.overflow), (0x7FFF_FFFF, true, true));
    let r = alu_sbc(5, 5, false);
    assert_eq!((r.value, r.carry, r.overflow), (0xFFFF_FFFF, false, false));
    let r = alu_rsb(1, 3);
    assert_eq!((r.value, r.carry, r.overflow), (2, true, false));
    let r = alu_rsc(3, 3, true);
    assert_eq!((r.value, r.carry, r.overflow), (0, true, false));
}
