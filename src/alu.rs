use vstd::prelude::*;

verus! {

/// Value of bit `i` of `x`.
pub open spec fn bit(x: u32, i: u32) -> bool {
    (x >> i) & 1 == 1
}

/// LSL of `x` by `n` with carry-in `c` (register form; the immediate form
/// differs only in that its amount is never above 31).
pub open spec fn lsl_spec(x: u32, n: u32, c: bool) -> (u32, bool) {
    if n == 0 {
        (x, c)
    } else if n < 32 {
        (x << n, bit(x, (32 - n) as u32))
    } else if n == 32 {
        (0, x & 1 == 1)
    } else {
        (0, false)
    }
}

/// LSR of `x` by `n` when the amount comes from a register: 0 passes through.
pub open spec fn lsr_spec(x: u32, n: u32, c: bool) -> (u32, bool) {
    if n == 0 {
        (x, c)
    } else if n < 32 {
        (x >> n, bit(x, (n - 1) as u32))
    } else if n == 32 {
        (0, bit(x, 31))
    } else {
        (0, false)
    }
}

/// Arithmetic shift right of a 32-bit word by 1..31.
pub open spec fn asr_value(x: u32, n: u32) -> u32 {
    if bit(x, 31) {
        !((!x) >> n)
    } else {
        x >> n
    }
}

/// ASR of `x` by `n` when the amount comes from a register: 0 passes through.
pub open spec fn asr_spec(x: u32, n: u32, c: bool) -> (u32, bool) {
    if n == 0 {
        (x, c)
    } else if n < 32 {
        (asr_value(x, n), bit(x, (n - 1) as u32))
    } else {
        (if bit(x, 31) { 0xffff_ffffu32 } else { 0u32 }, bit(x, 31))
    }
}

/// Rotation of `x` right by 1..31.
pub open spec fn rotr(x: u32, n: u32) -> u32 {
    (x >> n) | (x << (32 - n) as u32)
}

/// ROR of `x` by `n` when the amount comes from a register: 0 passes through,
/// multiples of 32 leave the value and give bit 31 as carry.
pub open spec fn ror_spec(x: u32, n: u32, c: bool) -> (u32, bool) {
    if n == 0 {
        (x, c)
    } else if n % 32 == 0 {
        (x, bit(x, 31))
    } else {
        (rotr(x, n % 32), bit(x, ((n - 1) % 32) as u32))
    }
}

/// RRX: rotate right by one through the carry flag.
pub open spec fn rrx_spec(x: u32, c: bool) -> (u32, bool) {
    ((if c { 0x8000_0000u32 } else { 0u32 }) | (x >> 1), x & 1 == 1)
}

/// The four shift kinds of the barrel shifter, in encoding order.
pub open spec fn shift_reg_spec(kind: u32, x: u32, n: u32, c: bool) -> (u32, bool) {
    if kind == 0 {
        lsl_spec(x, n, c)
    } else if kind == 1 {
        lsr_spec(x, n, c)
    } else if kind == 2 {
        asr_spec(x, n, c)
    } else {
        ror_spec(x, n, c)
    }
}

/// The immediate-amount form: LSR #0 and ASR #0 mean 32, ROR #0 means RRX.
pub open spec fn shift_imm_spec(kind: u32, x: u32, n: u32, c: bool) -> (u32, bool) {
    if n == 0 && kind == 1 {
        lsr_spec(x, 32, c)
    } else if n == 0 && kind == 2 {
        asr_spec(x, 32, c)
    } else if n == 0 && kind == 3 {
        rrx_spec(x, c)
    } else {
        shift_reg_spec(kind, x, n, c)
    }
}

/// Logical shift left; `n` may be any amount (only its value matters).
pub fn shift_lsl(x: u32, n: u32, c: bool) -> (r: (u32, bool))
    ensures
        r == lsl_spec(x, n, c),
{
    if n == 0 {
        (x, c)
    } else if n < 32 {
        (x << n, (x >> (32 - n)) & 1 == 1)
    } else if n == 32 {
        (0, x & 1 == 1)
    } else {
        (0, false)
    }
}

/// Logical shift right, register form.
pub fn shift_lsr(x: u32, n: u32, c: bool) -> (r: (u32, bool))
    ensures
        r == lsr_spec(x, n, c),
{
    if n == 0 {
        (x, c)
    } else if n < 32 {
        (x >> n, (x >> (n - 1)) & 1 == 1)
    } else if n == 32 {
        (0, (x >> 31) & 1 == 1)
    } else {
        (0, false)
    }
}

/// Arithmetic shift right, register form.
pub fn shift_asr(x: u32, n: u32, c: bool) -> (r: (u32, bool))
    ensures
        r == asr_spec(x, n, c),
{
    let sign = (x >> 31) & 1 == 1;
    if n == 0 {
        (x, c)
    } else if n < 32 {
        let v = if sign { !((!x) >> n) } else { x >> n };
        (v, (x >> (n - 1)) & 1 == 1)
    } else {
        (if sign { 0xffff_ffffu32 } else { 0u32 }, sign)
    }
}

/// Rotate right, register form.
pub fn shift_ror(x: u32, n: u32, c: bool) -> (r: (u32, bool))
    ensures
        r == ror_spec(x, n, c),
{
    if n == 0 {
        (x, c)
    } else if n % 32 == 0 {
        (x, (x >> 31) & 1 == 1)
    } else {
        let m = n % 32;
        ((x >> m) | (x << (32 - m)), (x >> ((n - 1) % 32)) & 1 == 1)
    }
}

/// Rotate right extended through the carry flag.
pub fn shift_rrx(x: u32, c: bool) -> (r: (u32, bool))
    ensures
        r == rrx_spec(x, c),
{
    ((if c { 0x8000_0000u32 } else { 0u32 }) | (x >> 1), x & 1 == 1)
}

/// Barrel shift whose amount came from a register (its low byte is used).
pub fn barrel_shift_reg(kind: u32, x: u32, amount: u32, c: bool) -> (r: (u32, bool))
    requires
        kind < 4,
    ensures
        r == shift_reg_spec(kind, x, amount & 0xff, c),
{
    let n = amount & 0xff;
    if kind == 0 {
        shift_lsl(x, n, c)
    } else if kind == 1 {
        shift_lsr(x, n, c)
    } else if kind == 2 {
        shift_asr(x, n, c)
    } else {
        shift_ror(x, n, c)
    }
}

/// Barrel shift by a 5-bit immediate amount, with the encodings of 0.
pub fn barrel_shift_imm(kind: u32, x: u32, n: u32, c: bool) -> (r: (u32, bool))
    requires
        kind < 4,
        n < 32,
    ensures
        r == shift_imm_spec(kind, x, n, c),
{
    if n == 0 && kind == 1 {
        shift_lsr(x, 32, c)
    } else if n == 0 && kind == 2 {
        shift_asr(x, 32, c)
    } else if n == 0 && kind == 3 {
        shift_rrx(x, c)
    } else if kind == 0 {
        shift_lsl(x, n, c)
    } else if kind == 1 {
        shift_lsr(x, n, c)
    } else if kind == 2 {
        shift_asr(x, n, c)
    } else {
        shift_ror(x, n, c)
    }
}

/// Result of an arithmetic primitive: value, carry-out and overflow.
pub struct AluResult {
    pub value: u32,
    pub carry: bool,
    pub overflow: bool,
}

/// Sign bit of a word, as a mathematical test.
pub open spec fn negative(x: u32) -> bool {
    x >= 0x8000_0000
}

/// `a + b + cin` with unsigned carry-out and signed overflow.
pub open spec fn add_with_carry_spec(a: u32, b: u32, cin: bool) -> (u32, bool, bool) {
    let sum = a as int + b as int + (if cin { 1int } else { 0int });
    let v = (sum % 0x1_0000_0000) as u32;
    (v, sum >= 0x1_0000_0000, negative(a) == negative(b) && negative(v) != negative(a))
}

/// Adds with carry-in; carry-out is the unsigned overflow, overflow the
/// signed one (both inputs of one sign, the result of the other).
pub fn add_with_carry(a: u32, b: u32, cin: bool) -> (r: AluResult)
    ensures
        (r.value, r.carry, r.overflow) == add_with_carry_spec(a, b, cin),
{
    let sum: u64 = a as u64 + b as u64 + if cin { 1u64 } else { 0u64 };
    let v = (sum % 0x1_0000_0000) as u32;
    let na = a >= 0x8000_0000;
    let nb = b >= 0x8000_0000;
    let nv = v >= 0x8000_0000;
    AluResult { value: v, carry: sum >= 0x1_0000_0000, overflow: na == nb && nv != na }
}

/// ADD: `a + b`.
pub fn alu_add(a: u32, b: u32) -> (r: AluResult)
    ensures
        (r.value, r.carry, r.overflow) == add_with_carry_spec(a, b, false),
{
    add_with_carry(a, b, false)
}

/// ADC: `a + b + C`.
pub fn alu_adc(a: u32, b: u32, c: bool) -> (r: AluResult)
    ensures
        (r.value, r.carry, r.overflow) == add_with_carry_spec(a, b, c),
{
    add_with_carry(a, b, c)
}

/// SUB: `a - b`, carry set when no borrow occurs.
pub fn alu_sub(a: u32, b: u32) -> (r: AluResult)
    ensures
        (r.value, r.carry, r.overflow) == add_with_carry_spec(a, !b, true),
        r.value as int == (a as int - b as int) % 0x1_0000_0000,
        r.carry == (a >= b),
{
    let r = add_with_carry(a, !b, true);
    assert(!b == 0xffff_ffff - b) by (bit_vector);
    r
}

/// SBC: `a - b - (1 - C)`.
pub fn alu_sbc(a: u32, b: u32, c: bool) -> (r: AluResult)
    ensures
        (r.value, r.carry, r.overflow) == add_with_carry_spec(a, !b, c),
        r.carry == (a as int >= b as int + (if c { 0int } else { 1int })),
{
    let r = add_with_carry(a, !b, c);
    assert(!b == 0xffff_ffff - b) by (bit_vector);
    r
}

/// RSB: `b - a`.
pub fn alu_rsb(a: u32, b: u32) -> (r: AluResult)
    ensures
        (r.value, r.carry, r.overflow) == add_with_carry_spec(b, !a, true),
        r.carry == (b >= a),
{
    alu_sub(b, a)
}

/// RSC: `b - a - (1 - C)`.
pub fn alu_rsc(a: u32, b: u32, c: bool) -> (r: AluResult)
    ensures
        (r.value, r.carry, r.overflow) == add_with_carry_spec(b, !a, c),
{
    alu_sbc(b, a, c)
}

} // verus!
