//! The SM83 register file, its flag rules and the arithmetic and logic
//! primitives that the instruction handlers share.
use vstd::prelude::*;

use vstd::string::StringSliceAdditionalSpecFns;

use crate::utils::{word_of, high_byte, low_byte};

verus! {

/// A count of T-cycles of the 4,194,304 Hz master clock.
pub type Cycles = usize;

/// One of the four flags held in the upper nibble of F.
#[derive(Clone, Copy, Debug, PartialEq, Eq, Structural)]
pub enum CpuFlags {
    Z,
    N,
    H,
    C,
}

#[derive(Debug, PartialEq, Eq, Structural)]
pub enum CpuFlagError {
    ParseError,
}

impl CpuFlags {
    /// The bit of F that holds the flag.
    pub open spec fn spec_mask(self) -> u8 {
        match self {
            CpuFlags::Z => 0x80u8,
            CpuFlags::N => 0x40u8,
            CpuFlags::H => 0x20u8,
            CpuFlags::C => 0x10u8,
        }
    }

    pub fn mask(self) -> (r: u8)
        ensures
            r == self.spec_mask(),
    {
        match self {
            CpuFlags::Z => 0x80,
            CpuFlags::N => 0x40,
            CpuFlags::H => 0x20,
            CpuFlags::C => 0x10,
        }
    }

    /// Parses the one-letter name of a flag.
    pub fn from_str(s: &str) -> (r: Result<CpuFlags, CpuFlagError>)
        ensures
            s.spec_bytes() == seq![0x5Au8] <==> r == Ok::<CpuFlags, CpuFlagError>(CpuFlags::Z),
            s.spec_bytes() == seq![0x4Eu8] <==> r == Ok::<CpuFlags, CpuFlagError>(CpuFlags::N),
            s.spec_bytes() == seq![0x48u8] <==> r == Ok::<CpuFlags, CpuFlagError>(CpuFlags::H),
            s.spec_bytes() == seq![0x43u8] <==> r == Ok::<CpuFlags, CpuFlagError>(CpuFlags::C),
            r is Err <==> !(s.spec_bytes() =~= seq![0x5Au8] || s.spec_bytes() =~= seq![0x4Eu8]
                || s.spec_bytes() =~= seq![0x48u8] || s.spec_bytes() =~= seq![0x43u8]),
    {
        let b = s.as_bytes();
        if b.len() != 1 {
            return Err(CpuFlagError::ParseError);
        }
        let c = b[0];
        proof {
            assert(b@ =~= seq![c]);
        }
        if c == 0x5A {
            Ok(CpuFlags::Z)
        } else if c == 0x4E {
            Ok(CpuFlags::N)
        } else if c == 0x48 {
            Ok(CpuFlags::H)
        } else if c == 0x43 {
            Ok(CpuFlags::C)
        } else {
            Err(CpuFlagError::ParseError)
        }
    }
}

/// Whether `flag` is set in the flag byte `f`.
pub open spec fn flag(f: u8, which: CpuFlags) -> bool {
    f & which.spec_mask() != 0
}

/// The flag byte with the four flags given and the low nibble clear.
pub open spec fn flags_byte(z: bool, n: bool, h: bool, c: bool) -> u8 {
    (if z { 0x80u8 } else { 0u8 }) | (if n { 0x40u8 } else { 0u8 }) | (if h { 0x20u8 } else { 0u8 })
        | (if c { 0x10u8 } else { 0u8 })
}

pub open spec fn zf(f: u8) -> bool {
    flag(f, CpuFlags::Z)
}

pub open spec fn nf(f: u8) -> bool {
    flag(f, CpuFlags::N)
}

pub open spec fn hf(f: u8) -> bool {
    flag(f, CpuFlags::H)
}

pub open spec fn cf(f: u8) -> bool {
    flag(f, CpuFlags::C)
}

/// Reading back the flags of a packed flag byte gives the packed values, and
/// its low nibble is clear.
pub proof fn lemma_flags_byte(z: bool, n: bool, h: bool, c: bool)
    ensures
        zf(flags_byte(z, n, h, c)) == z,
        nf(flags_byte(z, n, h, c)) == n,
        hf(flags_byte(z, n, h, c)) == h,
        cf(flags_byte(z, n, h, c)) == c,
        flags_byte(z, n, h, c) & 0x0F == 0,
{
    let f = flags_byte(z, n, h, c);
    assert(f & 0x80 != 0 <==> z) by (bit_vector)
        requires
            f == flags_byte(z, n, h, c),
    ;
    assert(f & 0x40 != 0 <==> n) by (bit_vector)
        requires
            f == flags_byte(z, n, h, c),
    ;
    assert(f & 0x20 != 0 <==> h) by (bit_vector)
        requires
            f == flags_byte(z, n, h, c),
    ;
    assert(f & 0x10 != 0 <==> c) by (bit_vector)
        requires
            f == flags_byte(z, n, h, c),
    ;
    assert(f & 0x0F == 0) by (bit_vector)
        requires
            f == flags_byte(z, n, h, c),
    ;
}

fn make_flags(z: bool, n: bool, h: bool, c: bool) -> (r: u8)
    ensures
        r == flags_byte(z, n, h, c),
        r & 0x0F == 0,
{
    proof {
        lemma_flags_byte(z, n, h, c);
    }
    (if z { 0x80u8 } else { 0u8 }) | (if n { 0x40u8 } else { 0u8 }) | (if h { 0x20u8 } else { 0u8 })
        | (if c { 0x10u8 } else { 0u8 })
}

/// The eight 8-bit registers and the two 16-bit ones. F holds the flags in
/// its upper nibble; its lower nibble is always zero.
#[derive(Clone, Copy, Debug, PartialEq, Eq, Structural)]
pub struct Registers {
    pub a: u8,
    pub f: u8,
    pub b: u8,
    pub c: u8,
    pub d: u8,
    pub e: u8,
    pub h: u8,
    pub l: u8,
    pub sp: u16,
    pub pc: u16,
}

impl Registers {
    pub open spec fn wf(self) -> bool {
        self.f & 0x0F == 0
    }

    /// The register file as it stands after the boot ROM.
    pub open spec fn initial() -> Registers {
        Registers {
            a: 0x01,
            f: 0xB0,
            b: 0x00,
            c: 0x13,
            d: 0x00,
            e: 0xD8,
            h: 0x01,
            l: 0x4D,
            sp: 0xFFFE,
            pc: 0x0100,
        }
    }

    pub fn new() -> (r: Registers)
        ensures
            r == Registers::initial(),
            r.wf(),
    {
        assert(0xB0u8 & 0x0F == 0) by (bit_vector);
        Registers {
            a: 0x01,
            f: 0xB0,
            b: 0x00,
            c: 0x13,
            d: 0x00,
            e: 0xD8,
            h: 0x01,
            l: 0x4D,
            sp: 0xFFFE,
            pc: 0x0100,
        }
    }

    pub fn get_flag(&self, which: CpuFlags) -> (r: bool)
        ensures
            r == flag(self.f, which),
    {
        self.f & which.mask() != 0
    }

    pub fn set_flag(&mut self, which: CpuFlags, set: bool)
        requires
            old(self).wf(),
        ensures
            *final(self) == (Registers { f: with_flag(old(self).f, which, set), ..*old(self) }),
            final(self).wf(),
            flag(final(self).f, which) == set,
            forall|o: CpuFlags| o != which ==> flag(final(self).f, o) == flag(old(self).f, o),
    {
        let mask = which.mask();
        proof {
            lemma_with_flag(self.f, which, set);
        }
        if set {
            self.f = self.f | mask;
        } else {
            self.f = self.f & !mask;
        }
    }

    pub fn a(&self) -> (r: u8)
        ensures
            r == self.a,
    {
        self.a
    }

    pub fn f(&self) -> (r: u8)
        ensures
            r == self.f,
    {
        self.f
    }

    pub fn b(&self) -> (r: u8)
        ensures
            r == self.b,
    {
        self.b
    }

    pub fn c(&self) -> (r: u8)
        ensures
            r == self.c,
    {
        self.c
    }

    pub fn d(&self) -> (r: u8)
        ensures
            r == self.d,
    {
        self.d
    }

    pub fn e(&self) -> (r: u8)
        ensures
            r == self.e,
    {
        self.e
    }

    pub fn h(&self) -> (r: u8)
        ensures
            r == self.h,
    {
        self.h
    }

    pub fn l(&self) -> (r: u8)
        ensures
            r == self.l,
    {
        self.l
    }

    pub fn sp(&self) -> (r: u16)
        ensures
            r == self.sp,
    {
        self.sp
    }

    pub fn pc(&self) -> (r: u16)
        ensures
            r == self.pc,
    {
        self.pc
    }

    pub fn set_a(&mut self, value: u8)
        ensures
            *final(self) == (Registers { a: value, ..*old(self) }),
    {
        self.a = value;
    }

    /// Writes F; its low nibble is cleared.
    pub fn set_f(&mut self, value: u8)
        ensures
            *final(self) == (Registers { f: value & 0xF0, ..*old(self) }),
            final(self).wf(),
    {
        assert(value & 0xF0 & 0x0F == 0) by (bit_vector);
        self.f = value & 0xF0;
    }

    pub fn set_b(&mut self, value: u8)
        ensures
            *final(self) == (Registers { b: value, ..*old(self) }),
    {
        self.b = value;
    }

    pub fn set_c(&mut self, value: u8)
        ensures
            *final(self) == (Registers { c: value, ..*old(self) }),
    {
        self.c = value;
    }

    pub fn set_d(&mut self, value: u8)
        ensures
            *final(self) == (Registers { d: value, ..*old(self) }),
    {
        self.d = value;
    }

    pub fn set_e(&mut self, value: u8)
        ensures
            *final(self) == (Registers { e: value, ..*old(self) }),
    {
        self.e = value;
    }

    pub fn set_h(&mut self, value: u8)
        ensures
            *final(self) == (Registers { h: value, ..*old(self) }),
    {
        self.h = value;
    }

    pub fn set_l(&mut self, value: u8)
        ensures
            *final(self) == (Registers { l: value, ..*old(self) }),
    {
        self.l = value;
    }

    pub fn set_sp(&mut self, value: u16)
        ensures
            *final(self) == (Registers { sp: value, ..*old(self) }),
    {
        self.sp = value;
    }

    pub fn set_pc(&mut self, value: u16)
        ensures
            *final(self) == (Registers { pc: value, ..*old(self) }),
    {
        self.pc = value;
    }

    /// The register with operand number `idx` of the opcode table:
    /// 0 B, 1 C, 2 D, 3 E, 4 H, 5 L, 7 A (6 names memory at HL).
    pub open spec fn r8(self, idx: u8) -> u8 {
        if idx == 0 {
            self.b
        } else if idx == 1 {
            self.c
        } else if idx == 2 {
            self.d
        } else if idx == 3 {
            self.e
        } else if idx == 4 {
            self.h
        } else if idx == 5 {
            self.l
        } else {
            self.a
        }
    }

    /// The registers with operand `idx` (not 6) replaced.
    pub open spec fn with_r8(self, idx: u8, v: u8) -> Registers {
        if idx == 0 {
            Registers { b: v, ..self }
        } else if idx == 1 {
            Registers { c: v, ..self }
        } else if idx == 2 {
            Registers { d: v, ..self }
        } else if idx == 3 {
            Registers { e: v, ..self }
        } else if idx == 4 {
            Registers { h: v, ..self }
        } else if idx == 5 {
            Registers { l: v, ..self }
        } else {
            Registers { a: v, ..self }
        }
    }

    /// The pair with operand number `idx`: 0 BC, 1 DE, 2 HL, 3 SP.
    pub open spec fn r16(self, idx: u8) -> u16 {
        if idx == 0 {
            word_of(self.b, self.c)
        } else if idx == 1 {
            word_of(self.d, self.e)
        } else if idx == 2 {
            word_of(self.h, self.l)
        } else {
            self.sp
        }
    }

    /// The registers with pair `idx` replaced.
    pub open spec fn with_r16(self, idx: u8, v: u16) -> Registers {
        if idx == 0 {
            Registers { b: high_byte(v), c: low_byte(v), ..self }
        } else if idx == 1 {
            Registers { d: high_byte(v), e: low_byte(v), ..self }
        } else if idx == 2 {
            Registers { h: high_byte(v), l: low_byte(v), ..self }
        } else {
            Registers { sp: v, ..self }
        }
    }

    pub open spec fn af_spec(self) -> u16 {
        word_of(self.a, self.f)
    }

    pub open spec fn bc_spec(self) -> u16 {
        word_of(self.b, self.c)
    }

    pub open spec fn de_spec(self) -> u16 {
        word_of(self.d, self.e)
    }

    pub open spec fn hl_spec(self) -> u16 {
        word_of(self.h, self.l)
    }

    pub fn af(&self) -> (r: u16)
        ensures
            r == word_of(self.a, self.f),
    {
        crate::utils::compose_bytes(self.a, self.f)
    }

    pub fn bc(&self) -> (r: u16)
        ensures
            r == word_of(self.b, self.c),
    {
        crate::utils::compose_bytes(self.b, self.c)
    }

    pub fn de(&self) -> (r: u16)
        ensures
            r == word_of(self.d, self.e),
    {
        crate::utils::compose_bytes(self.d, self.e)
    }

    pub fn hl(&self) -> (r: u16)
        ensures
            r == word_of(self.h, self.l),
    {
        crate::utils::compose_bytes(self.h, self.l)
    }

    /// Writes AF; the low nibble of F is cleared.
    pub fn set_af(&mut self, value: u16)
        ensures
            *final(self) == (Registers {
                a: high_byte(value),
                f: low_byte(value) & 0xF0,
                ..*old(self)
            }),
            final(self).wf(),
    {
        self.set_a((value / 256) as u8);
        self.set_f((value % 256) as u8);
    }

    pub fn set_bc(&mut self, value: u16)
        ensures
            *final(self) == (Registers { b: high_byte(value), c: low_byte(value), ..*old(self) }),
    {
        self.set_b((value / 256) as u8);
        self.set_c((value % 256) as u8);
    }

    pub fn set_de(&mut self, value: u16)
        ensures
            *final(self) == (Registers { d: high_byte(value), e: low_byte(value), ..*old(self) }),
    {
        self.set_d((value / 256) as u8);
        self.set_e((value % 256) as u8);
    }

    pub fn set_hl(&mut self, value: u16)
        ensures
            *final(self) == (Registers { h: high_byte(value), l: low_byte(value), ..*old(self) }),
    {
        self.set_h((value / 256) as u8);
        self.set_l((value % 256) as u8);
    }
}

/// F with one flag set or cleared.
pub open spec fn with_flag(f: u8, which: CpuFlags, set: bool) -> u8 {
    if set {
        f | which.spec_mask()
    } else {
        f & !which.spec_mask()
    }
}

proof fn lemma_with_flag(f: u8, which: CpuFlags, set: bool)
    requires
        f & 0x0F == 0,
    ensures
        with_flag(f, which, set) & 0x0F == 0,
        flag(with_flag(f, which, set), which) == set,
        forall|o: CpuFlags| o != which ==> flag(with_flag(f, which, set), o) == flag(f, o),
{
    let m = which.spec_mask();
    let g = with_flag(f, which, set);
    assert(g & 0x0F == 0 && (g & m != 0) == set) by (bit_vector)
        requires
            f & 0x0F == 0,
            m == 0x80 || m == 0x40 || m == 0x20 || m == 0x10,
            g == (if set { f | m } else { f & !m }),
    ;
    assert forall|o: CpuFlags| o != which implies flag(g, o) == flag(f, o) by {
        let k = o.spec_mask();
        assert((g & k != 0) == (f & k != 0)) by (bit_vector)
            requires
                m == 0x80 || m == 0x40 || m == 0x20 || m == 0x10,
                k == 0x80 || k == 0x40 || k == 0x20 || k == 0x10,
                k != m,
                g == (if set { f | m } else { f & !m }),
        ;
    }
}

/// Writing a value to AF and reading AF back gives the value with the low
/// nibble of F cleared; the other pairs give the value back unchanged.
pub proof fn lemma_register_pair_round_trip(v: u16)
    ensures
        word_of(high_byte(v), low_byte(v) & 0xF0) == v & 0xFFF0,
        word_of(high_byte(v), low_byte(v)) == v,
{
    let lo = low_byte(v);
    let hi = high_byte(v);
    assert(lo == v % 256);
    assert(hi == v / 256);
    let lm = lo & 0xF0;
    assert((((v / 256) * 256 + ((v % 256) as u8 & 0xF0)) as u16) == v & 0xFFF0) by (bit_vector);
}

/// The CPU: its registers and its interrupt and halt state.
#[derive(Clone, Copy, Debug, PartialEq, Eq, Structural)]
pub struct CPU {
    pub registers: Registers,
    /// Interrupt master enable.
    pub ime: bool,
    /// An EI ran; IME becomes set after the next instruction.
    pub ei: bool,
    pub halted: bool,
    /// HALT ran with IME clear and an interrupt pending: the next fetch does
    /// not advance PC.
    pub halt_bug: bool,
    /// An undefined opcode ran: the CPU executes nothing more.
    pub locked: bool,
}

/// The carry added or subtracted by ADC and SBC: the C flag when asked for.
pub open spec fn carry_in(f: u8, use_carry: bool) -> int {
    if use_carry && cf(f) {
        1
    } else {
        0
    }
}

pub open spec fn add_value(a: u8, rhs: u8, c: int) -> u8 {
    ((a + rhs + c) % 256) as u8
}

pub open spec fn add_flags(a: u8, rhs: u8, c: int) -> u8 {
    flags_byte(add_value(a, rhs, c) == 0, false, a % 16 + rhs % 16 + c > 15, a + rhs + c > 255)
}

pub open spec fn sub_value(a: u8, rhs: u8, c: int) -> u8 {
    ((a + 256 - rhs - c) % 256) as u8
}

pub open spec fn sub_flags(a: u8, rhs: u8, c: int) -> u8 {
    flags_byte(sub_value(a, rhs, c) == 0, true, a % 16 < rhs % 16 + c, a < rhs + c)
}

pub open spec fn rlc_value(v: u8) -> u8 {
    ((v % 128) * 2 + v / 128) as u8
}

pub open spec fn rl_value(v: u8, cin: bool) -> u8 {
    ((v % 128) * 2 + (if cin { 1int } else { 0int })) as u8
}

pub open spec fn rrc_value(v: u8) -> u8 {
    (v / 2 + (v % 2) * 128) as u8
}

pub open spec fn rr_value(v: u8, cin: bool) -> u8 {
    (v / 2 + (if cin { 128int } else { 0int })) as u8
}

pub open spec fn sla_value(v: u8) -> u8 {
    ((v % 128) * 2) as u8
}

pub open spec fn sra_value(v: u8) -> u8 {
    (v / 2 + (v / 128) * 128) as u8
}

pub open spec fn srl_value(v: u8) -> u8 {
    (v / 2) as u8
}

pub open spec fn swap_value(v: u8) -> u8 {
    ((v % 16) * 16 + v / 16) as u8
}

/// The flags of a rotate or shift: Z from the result, the shifted-out bit in C.
pub open spec fn shift_flags(result: u8, carry_out: bool) -> u8 {
    flags_byte(result == 0, false, false, carry_out)
}

/// The correction DAA adds (after an addition) or subtracts (after a subtraction).
pub open spec fn daa_adjust(a: u8, f: u8) -> int {
    if nf(f) {
        (if hf(f) { 0x06int } else { 0 }) + (if cf(f) { 0x60int } else { 0 })
    } else {
        (if hf(f) || a % 16 > 9 { 0x06int } else { 0 }) + (if cf(f) || a > 0x99 { 0x60int } else { 0 })
    }
}

pub open spec fn daa_value(a: u8, f: u8) -> u8 {
    if nf(f) {
        ((a + 256 - daa_adjust(a, f)) % 256) as u8
    } else {
        ((a + daa_adjust(a, f)) % 256) as u8
    }
}

/// An 8-bit offset read as a signed value, as a 16-bit two's-complement addend.
pub open spec fn signed_addend(e: u8) -> int {
    if e < 128 {
        e as int
    } else {
        e + 0xFF00
    }
}

/// SP plus a signed 8-bit offset.
pub open spec fn add_sp_value(sp: u16, e: u8) -> u16 {
    ((sp + signed_addend(e)) % 65536) as u16
}

/// The flags of ADD SP,e8 and LD HL,SP+e8: carries out of bits 3 and 7 of
/// the unsigned low byte.
pub open spec fn add_sp_flags(sp: u16, e: u8) -> u8 {
    flags_byte(false, false, sp % 16 + e % 16 > 15, sp % 256 + e > 255)
}

impl CPU {
    pub open spec fn wf(self) -> bool {
        self.registers.wf()
    }

    /// The same CPU with A and F replaced.
    pub open spec fn with_af(self, a: u8, f: u8) -> CPU {
        CPU { registers: Registers { a: a, f: f, ..self.registers }, ..self }
    }

    /// The same CPU with F replaced.
    pub open spec fn with_f(self, f: u8) -> CPU {
        CPU { registers: Registers { f: f, ..self.registers }, ..self }
    }

    /// The CPU as it stands after the boot ROM.
    pub open spec fn new_spec() -> CPU {
        CPU {
            registers: Registers::initial(),
            ime: false,
            ei: false,
            halted: false,
            halt_bug: false,
            locked: false,
        }
    }

    pub fn new() -> (r: CPU)
        ensures
            r == CPU::new_spec(),
            r.wf(),
    {
        assert(0xB0u8 & 0x0F == 0) by (bit_vector);
        CPU {
            registers: Registers::new(),
            ime: false,
            ei: false,
            halted: false,
            halt_bug: false,
            locked: false,
        }
    }

    pub fn set_ime(&mut self, set: bool)
        ensures
            *final(self) == (CPU { ime: set, ..*old(self) }),
    {
        self.ime = set;
    }

    pub fn get_ime(&self) -> (r: bool)
        ensures
            r == self.ime,
    {
        self.ime
    }

    fn carry_value(&self, use_carry: bool) -> (r: u8)
        ensures
            r as int == carry_in(self.registers.f, use_carry),
    {
        if use_carry && self.registers.get_flag(CpuFlags::C) {
            1
        } else {
            0
        }
    }

    /// ADD / ADC: A <- A + rhs (+ C).
    pub fn alu_add(&mut self, rhs: u8, add_carry: bool)
        ensures
            *final(self) == old(self).with_af(
                add_value(old(self).registers.a, rhs, carry_in(old(self).registers.f, add_carry)),
                add_flags(old(self).registers.a, rhs, carry_in(old(self).registers.f, add_carry)),
            ),
            final(self).wf(),
    {
        let lhs = self.registers.a;
        let c = self.carry_value(add_carry);
        let total = lhs as u16 + rhs as u16 + c as u16;
        let sum = (total % 256) as u8;
        let f = make_flags(sum == 0, false, lhs % 16 + rhs % 16 + c > 15, total > 255);
        self.registers.a = sum;
        self.registers.f = f;
    }

    /// Computes A - rhs (- C) and sets the flags; A is left as it is.
    pub fn alu_sub_flags(&mut self, rhs: u8, sub_carry: bool) -> (r: u8)
        ensures
            r == sub_value(old(self).registers.a, rhs, carry_in(old(self).registers.f, sub_carry)),
            *final(self) == old(self).with_f(
                sub_flags(old(self).registers.a, rhs, carry_in(old(self).registers.f, sub_carry)),
            ),
            final(self).wf(),
    {
        let lhs = self.registers.a;
        let c = self.carry_value(sub_carry);
        let diff = ((256u16 + lhs as u16 - rhs as u16 - c as u16) % 256) as u8;
        let f = make_flags(diff == 0, true, lhs % 16 < rhs % 16 + c, (lhs as u16) < rhs as u16 + c as u16);
        self.registers.f = f;
        diff
    }

    /// SUB / SBC: A <- A - rhs (- C).
    pub fn alu_sub(&mut self, rhs: u8, sub_carry: bool)
        ensures
            *final(self) == old(self).with_af(
                sub_value(old(self).registers.a, rhs, carry_in(old(self).registers.f, sub_carry)),
                sub_flags(old(self).registers.a, rhs, carry_in(old(self).registers.f, sub_carry)),
            ),
            final(self).wf(),
    {
        let diff = self.alu_sub_flags(rhs, sub_carry);
        self.registers.a = diff;
    }

    pub fn alu_and(&mut self, rhs: u8)
        ensures
            *final(self) == old(self).with_af(
                old(self).registers.a & rhs,
                flags_byte(old(self).registers.a & rhs == 0, false, true, false),
            ),
            final(self).wf(),
    {
        let result = self.registers.a & rhs;
        self.registers.a = result;
        self.registers.f = make_flags(result == 0, false, true, false);
    }

    pub fn alu_or(&mut self, rhs: u8)
        ensures
            *final(self) == old(self).with_af(
                old(self).registers.a | rhs,
                flags_byte(old(self).registers.a | rhs == 0, false, false, false),
            ),
            final(self).wf(),
    {
        let result = self.registers.a | rhs;
        self.registers.a = result;
        self.registers.f = make_flags(result == 0, false, false, false);
    }

    pub fn alu_xor(&mut self, rhs: u8)
        ensures
            *final(self) == old(self).with_af(
                old(self).registers.a ^ rhs,
                flags_byte(old(self).registers.a ^ rhs == 0, false, false, false),
            ),
            final(self).wf(),
    {
        let result = self.registers.a ^ rhs;
        self.registers.a = result;
        self.registers.f = make_flags(result == 0, false, false, false);
    }

    /// CP: the flags of A - rhs; A is left as it is.
    pub fn alu_cp(&mut self, rhs: u8)
        ensures
            *final(self) == old(self).with_f(sub_flags(old(self).registers.a, rhs, 0)),
            final(self).wf(),
    {
        self.alu_sub_flags(rhs, false);
    }

    pub fn alu_rlc(&mut self, val: u8) -> (r: u8)
        ensures
            r == rlc_value(val),
            *final(self) == old(self).with_f(shift_flags(rlc_value(val), val >= 128)),
            final(self).wf(),
    {
        let result = (val % 128) * 2 + val / 128;
        self.registers.f = make_flags(result == 0, false, false, val >= 128);
        result
    }

    pub fn alu_sla(&mut self, val: u8) -> (r: u8)
        ensures
            r == sla_value(val),
            *final(self) == old(self).with_f(shift_flags(sla_value(val), val >= 128)),
            final(self).wf(),
    {
        let result = (val % 128) * 2;
        self.registers.f = make_flags(result == 0, false, false, val >= 128);
        result
    }

    pub fn alu_srl(&mut self, val: u8) -> (r: u8)
        ensures
            r == srl_value(val),
            *final(self) == old(self).with_f(shift_flags(srl_value(val), val % 2 == 1)),
            final(self).wf(),
    {
        let result = val / 2;
        self.registers.f = make_flags(result == 0, false, false, val % 2 == 1);
        result
    }

    pub fn alu_sra(&mut self, val: u8) -> (r: u8)
        ensures
            r == sra_value(val),
            *final(self) == old(self).with_f(shift_flags(sra_value(val), val % 2 == 1)),
            final(self).wf(),
    {
        let result = val / 2 + (val / 128) * 128;
        self.registers.f = make_flags(result == 0, false, false, val % 2 == 1);
        result
    }

    /// RLCA: RLC on A, with Z always cleared.
    pub fn alu_rlca(&mut self)
        ensures
            *final(self) == old(self).with_af(
                rlc_value(old(self).registers.a),
                flags_byte(false, false, false, old(self).registers.a >= 128),
            ),
            final(self).wf(),
    {
        let a = self.registers.a;
        let result = self.alu_rlc(a);
        self.registers.a = result;
        self.registers.f = make_flags(false, false, false, a >= 128);
    }

    pub fn alu_rl(&mut self, val: u8) -> (r: u8)
        ensures
            r == rl_value(val, cf(old(self).registers.f)),
            *final(self) == old(self).with_f(
                shift_flags(rl_value(val, cf(old(self).registers.f)), val >= 128),
            ),
            final(self).wf(),
    {
        let c: u8 = if self.registers.get_flag(CpuFlags::C) {
            1
        } else {
            0
        };
        let result = (val % 128) * 2 + c;
        self.registers.f = make_flags(result == 0, false, false, val >= 128);
        result
    }

    /// RLA: RL on A, with Z always cleared.
    pub fn alu_rla(&mut self)
        ensures
            *final(self) == old(self).with_af(
                rl_value(old(self).registers.a, cf(old(self).registers.f)),
                flags_byte(false, false, false, old(self).registers.a >= 128),
            ),
            final(self).wf(),
    {
        let a = self.registers.a;
        let result = self.alu_rl(a);
        self.registers.a = result;
        self.registers.f = make_flags(false, false, false, a >= 128);
    }

    pub fn alu_rrc(&mut self, val: u8) -> (r: u8)
        ensures
            r == rrc_value(val),
            *final(self) == old(self).with_f(shift_flags(rrc_value(val), val % 2 == 1)),
            final(self).wf(),
    {
        let result = val / 2 + (val % 2) * 128;
        self.registers.f = make_flags(result == 0, false, false, val % 2 == 1);
        result
    }

    /// RRCA: RRC on A, with Z always cleared.
    pub fn alu_rrca(&mut self)
        ensures
            *final(self) == old(self).with_af(
                rrc_value(old(self).registers.a),
                flags_byte(false, false, false, old(self).registers.a % 2 == 1),
            ),
            final(self).wf(),
    {
        let a = self.registers.a;
        let result = self.alu_rrc(a);
        self.registers.a = result;
        self.registers.f = make_flags(false, false, false, a % 2 == 1);
    }

    pub fn alu_rr(&mut self, val: u8) -> (r: u8)
        ensures
            r == rr_value(val, cf(old(self).registers.f)),
            *final(self) == old(self).with_f(
                shift_flags(rr_value(val, cf(old(self).registers.f)), val % 2 == 1),
            ),
            final(self).wf(),
    {
        let c: u8 = if self.registers.get_flag(CpuFlags::C) {
            128
        } else {
            0
        };
        let result = val / 2 + c;
        self.registers.f = make_flags(result == 0, false, false, val % 2 == 1);
        result
    }

    /// RRA: RR on A, with Z always cleared.
    pub fn alu_rra(&mut self)
        ensures
            *final(self) == old(self).with_af(
                rr_value(old(self).registers.a, cf(old(self).registers.f)),
                flags_byte(false, false, false, old(self).registers.a % 2 == 1),
            ),
            final(self).wf(),
    {
        let a = self.registers.a;
        let result = self.alu_rr(a);
        self.registers.a = result;
        self.registers.f = make_flags(false, false, false, a % 2 == 1);
    }

    /// CPL: A <- ~A; N and H set, Z and C kept.
    pub fn alu_cpl(&mut self)
        ensures
            *final(self) == old(self).with_af(
                (255 - old(self).registers.a) as u8,
                flags_byte(zf(old(self).registers.f), true, true, cf(old(self).registers.f)),
            ),
            final(self).wf(),
    {
        let a = self.registers.a;
        let z = self.registers.get_flag(CpuFlags::Z);
        let c = self.registers.get_flag(CpuFlags::C);
        self.registers.a = 255 - a;
        self.registers.f = make_flags(z, true, true, c);
    }

    /// DAA: adjusts A to packed BCD after an addition or a subtraction.
    pub fn alu_daa(&mut self)
        ensures
            *final(self) == old(self).with_af(
                daa_value(old(self).registers.a, old(self).registers.f),
                flags_byte(
                    daa_value(old(self).registers.a, old(self).registers.f) == 0,
                    nf(old(self).registers.f),
                    false,
                    daa_adjust(old(self).registers.a, old(self).registers.f) >= 0x60,
                ),
            ),
            final(self).wf(),
    {
        let a = self.registers.a;
        let n = self.registers.get_flag(CpuFlags::N);
        let h = self.registers.get_flag(CpuFlags::H);
        let c = self.registers.get_flag(CpuFlags::C);
        let mut adjustment: u16 = 0;
        let result: u8;
        if n {
            if h {
                adjustment = adjustment + 0x06;
            }
            if c {
                adjustment = adjustment + 0x60;
            }
            result = ((a as u16 + 256 - adjustment) % 256) as u8;
        } else {
            if h || a % 16 > 9 {
                adjustment = adjustment + 0x06;
            }
            if c || a > 0x99 {
                adjustment = adjustment + 0x60;
            }
            result = ((a as u16 + adjustment) % 256) as u8;
        }
        self.registers.a = result;
        self.registers.f = make_flags(result == 0, n, false, adjustment >= 0x60);
    }

    pub fn alu_swap(&mut self, val: u8) -> (r: u8)
        ensures
            r == swap_value(val),
            *final(self) == old(self).with_f(flags_byte(swap_value(val) == 0, false, false, false)),
            final(self).wf(),
    {
        let result = (val % 16) * 16 + val / 16;
        self.registers.f = make_flags(result == 0, false, false, false);
        result
    }

    /// INC r: the incremented value; Z, N=0, H from bit 3, C kept.
    pub fn alu_inc(&mut self, val: u8) -> (r: u8)
        ensures
            r == ((val + 1) % 256) as u8,
            *final(self) == old(self).with_f(
                flags_byte(r == 0, false, val % 16 == 15, cf(old(self).registers.f)),
            ),
            final(self).wf(),
    {
        let result = if val == 255 { 0 } else { val + 1 };
        let c = self.registers.get_flag(CpuFlags::C);
        self.registers.f = make_flags(result == 0, false, val % 16 == 15, c);
        result
    }

    /// DEC r: the decremented value; Z, N=1, H from the borrow out of bit 4, C kept.
    pub fn alu_dec(&mut self, val: u8) -> (r: u8)
        ensures
            r == ((val + 255) % 256) as u8,
            *final(self) == old(self).with_f(
                flags_byte(r == 0, true, val % 16 == 0, cf(old(self).registers.f)),
            ),
            final(self).wf(),
    {
        let result = if val == 0 { 255 } else { val - 1 };
        let c = self.registers.get_flag(CpuFlags::C);
        self.registers.f = make_flags(result == 0, true, val % 16 == 0, c);
        result
    }

    /// ADD HL,rr: Z kept, N=0, H from bit 11, C from bit 15.
    pub fn alu_add_hl(&mut self, rhs: u16)
        ensures
            final(self).registers == (Registers {
                h: high_byte(((old(self).registers.hl_spec() + rhs) % 65536) as u16),
                l: low_byte(((old(self).registers.hl_spec() + rhs) % 65536) as u16),
                f: flags_byte(
                    zf(old(self).registers.f),
                    false,
                    old(self).registers.hl_spec() % 4096 + rhs % 4096 > 4095,
                    old(self).registers.hl_spec() + rhs > 65535,
                ),
                ..old(self).registers
            }),
            final(self).ime == old(self).ime,
            final(self).ei == old(self).ei,
            final(self).halted == old(self).halted,
            final(self).halt_bug == old(self).halt_bug,
            final(self).locked == old(self).locked,
            final(self).wf(),
    {
        let hl = self.registers.hl();
        let total = hl as u32 + rhs as u32;
        let z = self.registers.get_flag(CpuFlags::Z);
        self.registers.f = make_flags(z, false, hl % 4096 + rhs % 4096 > 4095, total > 65535);
        self.registers.set_hl((total % 65536) as u16);
    }

    /// SP plus a signed offset, with the flags of ADD SP,e8 set.
    pub fn alu_add_sp(&mut self, e: u8) -> (r: u16)
        ensures
            r == add_sp_value(old(self).registers.sp, e),
            *final(self) == old(self).with_f(add_sp_flags(old(self).registers.sp, e)),
            final(self).wf(),
    {
        let sp = self.registers.sp;
        let addend: u32 = if e < 128 {
            e as u32
        } else {
            e as u32 + 0xFF00
        };
        let r = ((sp as u32 + addend) % 65536) as u16;
        self.registers.f = make_flags(false, false, sp % 16 + (e % 16) as u16 > 15, sp % 256 + e as u16 > 255);
        r
    }

    /// BIT n,val: Z set when bit n is clear; N=0, H=1, C kept.
    pub fn alu_bit(&mut self, n: u8, val: u8)
        requires
            n < 8,
        ensures
            *final(self) == old(self).with_f(
                flags_byte(!crate::utils::bit(val, n), false, true, cf(old(self).registers.f)),
            ),
            final(self).wf(),
    {
        let set = crate::utils::is_set(val, n);
        let c = self.registers.get_flag(CpuFlags::C);
        self.registers.f = make_flags(!set, false, true, c);
    }

    /// SCF: C set, N and H cleared, Z kept.
    pub fn alu_scf(&mut self)
        ensures
            *final(self) == old(self).with_f(flags_byte(zf(old(self).registers.f), false, false, true)),
            final(self).wf(),
    {
        let z = self.registers.get_flag(CpuFlags::Z);
        self.registers.f = make_flags(z, false, false, true);
    }

    /// CCF: C inverted, N and H cleared, Z kept.
    pub fn alu_ccf(&mut self)
        ensures
            *final(self) == old(self).with_f(
                flags_byte(zf(old(self).registers.f), false, false, !cf(old(self).registers.f)),
            ),
            final(self).wf(),
    {
        let z = self.registers.get_flag(CpuFlags::Z);
        let c = self.registers.get_flag(CpuFlags::C);
        self.registers.f = make_flags(z, false, false, !c);
    }
}

/// The CPU after ALU operation `op` of the opcode table (0 ADD, 1 ADC,
/// 2 SUB, 3 SBC, 4 AND, 5 XOR, 6 OR, 7 CP) with operand `v`.
pub open spec fn alu_result(cpu: CPU, op: u8, v: u8) -> CPU {
    let a = cpu.registers.a;
    let f = cpu.registers.f;
    if op == 0 {
        cpu.with_af(add_value(a, v, 0), add_flags(a, v, 0))
    } else if op == 1 {
        cpu.with_af(add_value(a, v, carry_in(f, true)), add_flags(a, v, carry_in(f, true)))
    } else if op == 2 {
        cpu.with_af(sub_value(a, v, 0), sub_flags(a, v, 0))
    } else if op == 3 {
        cpu.with_af(sub_value(a, v, carry_in(f, true)), sub_flags(a, v, carry_in(f, true)))
    } else if op == 4 {
        cpu.with_af(a & v, flags_byte(a & v == 0, false, true, false))
    } else if op == 5 {
        cpu.with_af(a ^ v, flags_byte(a ^ v == 0, false, false, false))
    } else if op == 6 {
        cpu.with_af(a | v, flags_byte(a | v == 0, false, false, false))
    } else {
        cpu.with_f(sub_flags(a, v, 0))
    }
}

impl CPU {
    /// Runs ALU operation `op` of the opcode table on A and `v`.
    pub fn alu_op(&mut self, op: u8, v: u8)
        requires
            op < 8,
        ensures
            *final(self) == alu_result(*old(self), op, v),
            final(self).wf(),
    {
        if op == 0 {
            self.alu_add(v, false);
        } else if op == 1 {
            self.alu_add(v, true);
        } else if op == 2 {
            self.alu_sub(v, false);
        } else if op == 3 {
            self.alu_sub(v, true);
        } else if op == 4 {
            self.alu_and(v);
        } else if op == 5 {
            self.alu_xor(v);
        } else if op == 6 {
            self.alu_or(v);
        } else {
            self.alu_cp(v);
        }
    }
}

/// BIT n,r sets Z exactly when bit n of r is clear, clears N, sets H and
/// keeps C.
pub proof fn lemma_bit_flags(n: u8, val: u8, f: u8)
    requires
        n < 8,
    ensures
        zf(flags_byte(!crate::utils::bit(val, n), false, true, cf(f))) == ((val >> n) & 1 == 0),
        !nf(flags_byte(!crate::utils::bit(val, n), false, true, cf(f))),
        hf(flags_byte(!crate::utils::bit(val, n), false, true, cf(f))),
        cf(flags_byte(!crate::utils::bit(val, n), false, true, cf(f))) == cf(f),
{
    lemma_flags_byte(!crate::utils::bit(val, n), false, true, cf(f));
    assert(((val >> n) & 1u8 == 1u8) == !((val >> n) & 1u8 == 0u8)) by (bit_vector);
}

} // verus!
