use vstd::prelude::*;

verus! {

pub const MODE_USR: u32 = 0x10;
pub const MODE_FIQ: u32 = 0x11;
pub const MODE_IRQ: u32 = 0x12;
pub const MODE_SVC: u32 = 0x13;
pub const MODE_ABT: u32 = 0x17;
pub const MODE_UND: u32 = 0x1b;
pub const MODE_SYS: u32 = 0x1f;

pub const REG_SP: u32 = 13;
pub const REG_LR: u32 = 14;
pub const REG_PC: u32 = 15;

/// Bit positions of the status-word fields.
pub const FLAG_N: u32 = 31;
pub const FLAG_Z: u32 = 30;
pub const FLAG_C: u32 = 29;
pub const FLAG_V: u32 = 28;
pub const FLAG_I: u32 = 7;
pub const FLAG_F: u32 = 6;
pub const FLAG_T: u32 = 5;

/// Number of physical registers: sixteen of user/system mode, r8..r14 of
/// FIQ mode and r13/r14 of the four other privileged modes.
pub const PHYS_REGS: usize = 31;

pub open spec fn is_valid_mode(m: u32) -> bool {
    m == MODE_USR || m == MODE_FIQ || m == MODE_IRQ || m == MODE_SVC || m == MODE_ABT
        || m == MODE_UND || m == MODE_SYS
}

/// Mode field (bits 4..0) of a status word.
pub open spec fn mode_of(psr: u32) -> u32 {
    psr & 0x1f
}

/// Value of the status-word bit `b`.
pub open spec fn psr_flag(psr: u32, b: u32) -> bool {
    (psr >> b) & 1 == 1
}

/// `psr` with bit `b` set to `v`.
pub open spec fn psr_with_flag(psr: u32, b: u32, v: bool) -> u32 {
    if v {
        psr | (1u32 << b)
    } else {
        psr & !(1u32 << b)
    }
}

/// `psr` with its mode field replaced by `m`.
pub open spec fn psr_with_mode(psr: u32, m: u32) -> u32 {
    (psr & !0x1fu32) | m
}

/// Where register `r` of mode `m` is stored. User and system mode share one
/// bank; FIQ banks r8..r14; the other privileged modes bank r13 and r14.
pub open spec fn phys_index(m: u32, r: int) -> int {
    if r < 8 || r == 15 {
        r
    } else if m == MODE_FIQ {
        16 + (r - 8)
    } else if r < 13 {
        r
    } else if m == MODE_IRQ {
        23 + (r - 13)
    } else if m == MODE_SVC {
        25 + (r - 13)
    } else if m == MODE_ABT {
        27 + (r - 13)
    } else if m == MODE_UND {
        29 + (r - 13)
    } else {
        r
    }
}

/// Slot of the saved status word of a privileged mode; user and system mode
/// have none.
pub open spec fn spsr_slot(m: u32) -> int {
    if m == MODE_FIQ {
        0
    } else if m == MODE_IRQ {
        1
    } else if m == MODE_SVC {
        2
    } else if m == MODE_ABT {
        3
    } else if m == MODE_UND {
        4
    } else {
        -1
    }
}

/// The banked register file with the current and saved status words.
pub struct ArmRegisters {
    pub phys: [u32; 31],
    pub cpsr: u32,
    pub spsr: [u32; 5],
}

/// A status word as the register file keeps it: F always set, and the mode
/// field left as it was where `psr` names no valid mode.
pub open spec fn normalized_psr(psr: u32, cur: u32) -> u32 {
    if is_valid_mode(mode_of(psr)) {
        psr | 0x40
    } else {
        psr_with_mode(psr, mode_of(cur)) | 0x40
    }
}

impl ArmRegisters {
    /// The mode field is valid and the FIQ mask is set (the console has no FIQ
    /// source).
    pub open spec fn wf(&self) -> bool {
        is_valid_mode(self.mode()) && psr_flag(self.cpsr, FLAG_F)
    }

    pub open spec fn mode(&self) -> u32 {
        mode_of(self.cpsr)
    }

    /// Register `r` as mode `m` sees it.
    pub open spec fn reg_in(&self, m: u32, r: int) -> u32 {
        self.phys[phys_index(m, r)]
    }

    /// Register `r` as the current mode sees it.
    pub open spec fn reg(&self, r: int) -> u32 {
        self.reg_in(self.mode(), r)
    }

    /// The same file with another mode selected; nothing is copied.
    pub open spec fn with_mode(self, m: u32) -> ArmRegisters {
        ArmRegisters { cpsr: psr_with_mode(self.cpsr, m), ..self }
    }

    /// Saved status word of the current mode; user and system mode read the
    /// current one.
    pub open spec fn spsr_value(&self) -> u32 {
        if spsr_slot(self.mode()) >= 0 {
            self.spsr[spsr_slot(self.mode())]
        } else {
            self.cpsr
        }
    }

    /// The state at reset: supervisor mode, IRQ and FIQ masked, ARM state,
    /// every register zero.
    pub fn new() -> (r: ArmRegisters)
        ensures
            r.wf(),
            r.mode() == MODE_SVC,
            r.cpsr == 0xd3,
            forall|i: int| 0 <= i < 31 ==> r.phys[i] == 0,
            forall|i: int| 0 <= i < 5 ==> r.spsr[i] == 0,
    {
        let r = ArmRegisters { phys: [0u32; 31], cpsr: 0xd3, spsr: [0u32; 5] };
        assert(mode_of(0xd3) == MODE_SVC && psr_flag(0xd3, FLAG_F)) by (bit_vector);
        r
    }

    pub fn get_mode(&self) -> (m: u32)
        ensures
            m == self.mode(),
    {
        self.cpsr & 0x1f
    }

    /// Register `r` (0..15) of mode `m`.
    pub fn get_with_mode(&self, m: u32, r: u32) -> (v: u32)
        requires
            r < 16,
            is_valid_mode(m),
        ensures
            v == self.reg_in(m, r as int),
    {
        let i = Self::index_of(m, r);
        self.phys[i]
    }

    /// Writes register `r` (0..15) of mode `m`, whatever the current mode.
    pub fn set_with_mode(&mut self, m: u32, r: u32, v: u32)
        requires
            r < 16,
            is_valid_mode(m),
        ensures
            final(self).cpsr == old(self).cpsr,
            final(self).spsr == old(self).spsr,
            final(self).phys@ == old(self).phys@.update(phys_index(m, r as int), v),
    {
        let i = Self::index_of(m, r);
        self.phys[i] = v;
    }

    /// Register `r` (0..15) of the current mode.
    pub fn get(&self, r: u32) -> (v: u32)
        requires
            r < 16,
            self.wf(),
        ensures
            v == self.reg(r as int),
    {
        let m = self.get_mode();
        self.get_with_mode(m, r)
    }

    /// Writes register `r` (0..15) of the current mode.
    pub fn set(&mut self, r: u32, v: u32)
        requires
            r < 16,
            old(self).wf(),
        ensures
            final(self).cpsr == old(self).cpsr,
            final(self).spsr == old(self).spsr,
            final(self).phys@ == old(self).phys@.update(phys_index(old(self).mode(), r as int), v),
    {
        let m = self.get_mode();
        self.set_with_mode(m, r, v);
    }

    fn index_of(m: u32, r: u32) -> (i: usize)
        requires
            r < 16,
        ensures
            i as int == phys_index(m, r as int),
            i < 31,
    {
        if r < 8 || r == 15 {
            r as usize
        } else if m == MODE_FIQ {
            (16 + (r - 8)) as usize
        } else if r < 13 {
            r as usize
        } else if m == MODE_IRQ {
            (23 + (r - 13)) as usize
        } else if m == MODE_SVC {
            (25 + (r - 13)) as usize
        } else if m == MODE_ABT {
            (27 + (r - 13)) as usize
        } else if m == MODE_UND {
            (29 + (r - 13)) as usize
        } else {
            r as usize
        }
    }

    /// Selects mode `m`: from now on r8..r14 read the banks of `m`. No
    /// register's content changes, nor the flags, masks or T bit.
    pub fn switch_mode(&mut self, m: u32)
        requires
            old(self).wf(),
            is_valid_mode(m),
        ensures
            *final(self) == old(self).with_mode(m),
            final(self).wf(),
            final(self).mode() == m,
            final(self).cpsr & !0x1fu32 == old(self).cpsr & !0x1fu32,
            forall|r: int| 0 <= r < 16 ==> final(self).reg(r) == old(self).reg_in(m, r),
    {
        let c = self.cpsr;
        proof {
            lemma_psr_with_mode(c, m);
        }
        self.cpsr = (c & !0x1fu32) | m;
    }

    /// Status-word bit `b`.
    pub fn get_flag(&self, b: u32) -> (v: bool)
        requires
            b < 32,
        ensures
            v == psr_flag(self.cpsr, b),
    {
        (self.cpsr >> b) & 1 == 1
    }

    /// Sets or clears one of the bits N, Z, C, V, I and T (the F bit stays
    /// set, the mode field is not a flag).
    pub fn put_flag(&mut self, b: u32, v: bool)
        requires
            old(self).wf(),
            b == FLAG_N || b == FLAG_Z || b == FLAG_C || b == FLAG_V || b == FLAG_I || b
                == FLAG_T,
        ensures
            final(self).cpsr == psr_with_flag(old(self).cpsr, b, v),
            final(self).phys == old(self).phys,
            final(self).spsr == old(self).spsr,
            final(self).wf(),
            final(self).mode() == old(self).mode(),
            psr_flag(final(self).cpsr, b) == v,
            forall|k: u32| k < 32 && k != b ==> psr_flag(final(self).cpsr, k) == psr_flag(
                old(self).cpsr,
                k,
            ),
    {
        let c = self.cpsr;
        proof {
            lemma_psr_with_flag(c, b, v);
        }
        if v {
            self.cpsr = c | (1u32 << b);
        } else {
            self.cpsr = c & !(1u32 << b);
        }
    }

    /// Sets the four condition flags at once.
    pub fn set_nzcv(&mut self, n: bool, z: bool, c: bool, v: bool)
        requires
            old(self).wf(),
        ensures
            final(self).cpsr == psr_with_flag(
                psr_with_flag(
                    psr_with_flag(psr_with_flag(old(self).cpsr, FLAG_N, n), FLAG_Z, z),
                    FLAG_C,
                    c,
                ),
                FLAG_V,
                v,
            ),
            final(self).phys == old(self).phys,
            final(self).spsr == old(self).spsr,
            final(self).wf(),
            final(self).mode() == old(self).mode(),
            psr_flag(final(self).cpsr, FLAG_N) == n,
            psr_flag(final(self).cpsr, FLAG_Z) == z,
            psr_flag(final(self).cpsr, FLAG_C) == c,
            psr_flag(final(self).cpsr, FLAG_V) == v,
            forall|k: u32| k < 28 ==> psr_flag(final(self).cpsr, k) == psr_flag(old(self).cpsr, k),
    {
        self.put_flag(FLAG_N, n);
        self.put_flag(FLAG_Z, z);
        self.put_flag(FLAG_C, c);
        self.put_flag(FLAG_V, v);
    }

    /// Replaces the current status word. The F bit stays set, and a word
    /// whose mode field is invalid keeps the current mode.
    pub fn set_cpsr(&mut self, psr: u32)
        requires
            old(self).wf(),
        ensures
            final(self).cpsr == normalized_psr(psr, old(self).cpsr),
            final(self).phys == old(self).phys,
            final(self).spsr == old(self).spsr,
            final(self).wf(),
    {
        let cur = self.cpsr;
        proof {
            lemma_normalized_psr(psr, cur);
        }
        if Self::valid_mode(psr & 0x1f) {
            self.cpsr = psr | 0x40;
        } else {
            self.cpsr = ((psr & !0x1fu32) | (cur & 0x1f)) | 0x40;
        }
    }

    pub fn valid_mode(m: u32) -> (b: bool)
        ensures
            b == is_valid_mode(m),
    {
        m == MODE_USR || m == MODE_FIQ || m == MODE_IRQ || m == MODE_SVC || m == MODE_ABT || m
            == MODE_UND || m == MODE_SYS
    }

    /// Saved status word of the current mode (the current one in user and
    /// system mode, which have none).
    pub fn get_spsr(&self) -> (v: u32)
        requires
            self.wf(),
        ensures
            v == self.spsr_value(),
    {
        let m = self.get_mode();
        match Self::spsr_index(m) {
            Some(i) => self.spsr[i],
            None => self.cpsr,
        }
    }

    /// Writes the saved status word of the current mode; ignored in user and
    /// system mode.
    pub fn set_spsr(&mut self, v: u32)
        requires
            old(self).wf(),
        ensures
            final(self).cpsr == old(self).cpsr,
            final(self).phys == old(self).phys,
            spsr_slot(old(self).mode()) >= 0 ==> final(self).spsr@ == old(self).spsr@.update(
                spsr_slot(old(self).mode()),
                v,
            ),
            spsr_slot(old(self).mode()) < 0 ==> final(self).spsr == old(self).spsr,
    {
        let m = self.get_mode();
        match Self::spsr_index(m) {
            Some(i) => self.spsr[i] = v,
            None => {},
        }
    }

    fn spsr_index(m: u32) -> (r: Option<usize>)
        ensures
            match r {
                Some(i) => i as int == spsr_slot(m) && i < 5,
                None => spsr_slot(m) < 0,
            },
    {
        if m == MODE_FIQ {
            Some(0)
        } else if m == MODE_IRQ {
            Some(1)
        } else if m == MODE_SVC {
            Some(2)
        } else if m == MODE_ABT {
            Some(3)
        } else if m == MODE_UND {
            Some(4)
        } else {
            None
        }
    }
}

pub proof fn lemma_psr_with_mode(c: u32, m: u32)
    requires
        m < 32,
    ensures
        mode_of(psr_with_mode(c, m)) == m,
        psr_with_mode(c, m) & !0x1fu32 == c & !0x1fu32,
        psr_with_mode(psr_with_mode(c, m), mode_of(c)) == c,
        forall|k: u32| 5 <= k < 32 ==> psr_flag(psr_with_mode(c, m), k) == psr_flag(c, k),
{
    assert(mode_of(psr_with_mode(c, m)) == m && psr_with_mode(c, m) & !0x1fu32 == c & !0x1fu32
        && psr_with_mode(psr_with_mode(c, m), mode_of(c)) == c) by (bit_vector)
        requires
            m < 32,
    ;
    assert forall|k: u32| 5 <= k < 32 implies psr_flag(psr_with_mode(c, m), k) == psr_flag(
        c,
        k,
    ) by {
        assert(5 <= k < 32 && m < 32 ==> psr_flag(psr_with_mode(c, m), k) == psr_flag(c, k))
            by (bit_vector);
    }
}

pub proof fn lemma_psr_with_flag(c: u32, b: u32, v: bool)
    requires
        5 <= b < 32,
    ensures
        mode_of(psr_with_flag(c, b, v)) == mode_of(c),
        psr_flag(psr_with_flag(c, b, v), b) == v,
        forall|k: u32| k < 32 && k != b ==> psr_flag(psr_with_flag(c, b, v), k) == psr_flag(c, k),
{
    assert(5 <= b < 32 ==> mode_of(psr_with_flag(c, b, v)) == mode_of(c) && psr_flag(
        psr_with_flag(c, b, v),
        b,
    ) == v) by (bit_vector);
    assert forall|k: u32| k < 32 && k != b implies psr_flag(psr_with_flag(c, b, v), k)
        == psr_flag(c, k) by {
        assert(k < 32 && k != b && b < 32 ==> psr_flag(psr_with_flag(c, b, v), k) == psr_flag(
            c,
            k,
        )) by (bit_vector);
    }
}

pub proof fn lemma_normalized_psr(psr: u32, cur: u32)
    requires
        is_valid_mode(mode_of(cur)),
    ensures
        is_valid_mode(mode_of(normalized_psr(psr, cur))),
        psr_flag(normalized_psr(psr, cur), FLAG_F),
        is_valid_mode(mode_of(psr)) ==> mode_of(normalized_psr(psr, cur)) == mode_of(psr),
        forall|k: u32| 5 <= k < 32 && k != FLAG_F ==> psr_flag(normalized_psr(psr, cur), k)
            == psr_flag(psr, k),
{
    let m = mode_of(cur);
    assert(m < 32) by (bit_vector)
        requires
            m == cur & 0x1f,
    ;
    assert(((psr & !0x1fu32) | (m & 0x1f)) | 0x40 == psr_with_mode(psr, m) | 0x40
        && (psr | 0x40) & 0x1f == psr & 0x1f
        && ((psr_with_mode(psr, m) | 0x40) & 0x1f == m & 0x1f)
        && psr_flag(psr | 0x40, 6) && psr_flag(psr_with_mode(psr, m) | 0x40, 6)) by (bit_vector)
        requires
            m < 32,
    ;
    assert(m & 0x1f == m) by (bit_vector)
        requires
            m == cur & 0x1f,
    ;
    assert forall|k: u32| 5 <= k < 32 && k != FLAG_F implies psr_flag(
        normalized_psr(psr, cur),
        k,
    ) == psr_flag(psr, k) by {
        assert(5 <= k < 32 && k != 6 ==> psr_flag(psr | 0x40, k) == psr_flag(psr, k) && psr_flag(
            psr_with_mode(psr, m) | 0x40,
            k,
        ) == psr_flag(psr, k)) by (bit_vector)
            requires
                m < 32,
        ;
    }
}

/// Selecting a mode and then the previous one leaves the register file
/// exactly as it was.
pub proof fn lemma_switch_mode_round_trip(regs: ArmRegisters, m: u32)
    requires
        regs.wf(),
        is_valid_mode(m),
    ensures
        regs.with_mode(m).with_mode(regs.mode()) == regs,
{
    lemma_psr_with_mode(regs.cpsr, m);
}

/// Every well-formed register file, and so every state the processor can
/// reach, has the FIQ mask set.
pub proof fn lemma_fiq_always_masked(regs: ArmRegisters)
    requires
        regs.wf(),
    ensures
        psr_flag(regs.cpsr, FLAG_F),
{
}

} // verus!
