//! The register file: eight 8-bit registers, paired into four 16-bit views,
//! plus the stack pointer and program counter.
use vstd::prelude::*;
use crate::error::{GBError, GBResult};
use crate::util::{high, low, split_u16, u8_to_u16, word};

verus! {

pub const REG_B: usize = 0;
pub const REG_C: usize = 1;
pub const REG_D: usize = 2;
pub const REG_E: usize = 3;
pub const REG_H: usize = 4;
pub const REG_L: usize = 5;
pub const REG_HL_R8: usize = 6;
pub const REG_A: usize = 7;

pub const REG_BC: usize = 0;
pub const REG_DE: usize = 1;
pub const REG_HL: usize = 2;
pub const REG_SP: usize = 3;

/// The four condition flags held in the upper nibble of F.
#[derive(Debug, Clone, Copy, PartialEq, Eq, Structural)]
pub struct Flags {
    /// Zero.
    pub z: bool,
    /// Subtract.
    pub n: bool,
    /// Half-carry (carry or borrow across bit 3).
    pub h: bool,
    /// Carry (carry or borrow out of bit 7).
    pub c: bool,
}

/// The F register byte for a set of flags: bits 7..4 are Z, N, H, C and the
/// low nibble is zero.
pub open spec fn flags_byte(f: Flags) -> u8 {
    ((if f.z { 128int } else { 0 }) + (if f.n { 64int } else { 0 }) + (if f.h { 32int } else { 0 })
        + (if f.c { 16int } else { 0 })) as u8
}

/// The flags that an F register byte encodes; its low nibble is ignored.
pub open spec fn flags_of(v: u8) -> Flags {
    Flags { z: (v / 128) % 2 == 1, n: (v / 64) % 2 == 1, h: (v / 32) % 2 == 1, c: (v / 16) % 2 == 1 }
}

/// Writing F keeps exactly its upper nibble, and reading it back yields the
/// flags that were written.
pub proof fn lemma_flags_byte(f: Flags, v: u8)
    ensures
        flags_byte(f) % 16 == 0,
        flags_of(flags_byte(f)) == f,
        flags_byte(flags_of(v)) == v - v % 16,
{
}

/// Whether `index` names an 8-bit register (index 6 stands for the memory
/// operand `[HL]`, which the register file does not hold).
pub open spec fn valid_r8(index: usize) -> bool {
    index < 8 && index != REG_HL_R8
}

#[derive(Debug, Clone, Copy, PartialEq, Eq, Structural)]
pub struct Register {
    /// Accumulator.
    pub a: u8,
    /// Condition flags (the F register).
    pub flags: Flags,
    pub b: u8,
    pub c: u8,
    pub d: u8,
    pub e: u8,
    pub h: u8,
    pub l: u8,
    /// Stack pointer.
    pub sp: u16,
    /// Program counter.
    pub pc: u16,
}

impl Register {
    pub open spec fn f_spec(self) -> u8 {
        flags_byte(self.flags)
    }

    pub open spec fn af_spec(self) -> u16 {
        word(self.a, flags_byte(self.flags))
    }

    pub open spec fn bc_spec(self) -> u16 {
        word(self.b, self.c)
    }

    pub open spec fn de_spec(self) -> u16 {
        word(self.d, self.e)
    }

    pub open spec fn hl_spec(self) -> u16 {
        word(self.h, self.l)
    }

    /// The 8-bit register at `index` (B, C, D, E, H, L, -, A).
    pub open spec fn r8(self, index: usize) -> u8 {
        if index == REG_B {
            self.b
        } else if index == REG_C {
            self.c
        } else if index == REG_D {
            self.d
        } else if index == REG_E {
            self.e
        } else if index == REG_H {
            self.h
        } else if index == REG_L {
            self.l
        } else {
            self.a
        }
    }

    /// The register file with the 8-bit register at `index` replaced.
    pub open spec fn with_r8(self, index: usize, v: u8) -> Register {
        if index == REG_B {
            Register { b: v, ..self }
        } else if index == REG_C {
            Register { c: v, ..self }
        } else if index == REG_D {
            Register { d: v, ..self }
        } else if index == REG_E {
            Register { e: v, ..self }
        } else if index == REG_H {
            Register { h: v, ..self }
        } else if index == REG_L {
            Register { l: v, ..self }
        } else {
            Register { a: v, ..self }
        }
    }

    /// The 16-bit pair at `index` (BC, DE, HL, SP).
    pub open spec fn r16(self, index: usize) -> u16 {
        if index == REG_BC {
            self.bc_spec()
        } else if index == REG_DE {
            self.de_spec()
        } else if index == REG_HL {
            self.hl_spec()
        } else {
            self.sp
        }
    }

    /// The register file with the 16-bit pair at `index` replaced.
    pub open spec fn with_r16(self, index: usize, v: u16) -> Register {
        if index == REG_BC {
            Register { b: high(v), c: low(v), ..self }
        } else if index == REG_DE {
            Register { d: high(v), e: low(v), ..self }
        } else if index == REG_HL {
            Register { h: high(v), l: low(v), ..self }
        } else {
            Register { sp: v, ..self }
        }
    }

    /// The 16-bit pair at `index` as PUSH and POP see it (BC, DE, HL, AF).
    pub open spec fn stack_r16(self, index: usize) -> u16 {
        if index == 3 {
            self.af_spec()
        } else {
            self.r16(index)
        }
    }

    /// The register file with the PUSH/POP pair at `index` replaced.
    pub open spec fn with_stack_r16(self, index: usize, v: u16) -> Register {
        if index == 3 {
            Register { a: high(v), flags: flags_of(low(v)), ..self }
        } else {
            self.with_r16(index, v)
        }
    }

    /// All registers zero, all flags clear.
    pub fn new() -> (r: Register)
        ensures
            r.a == 0 && r.b == 0 && r.c == 0 && r.d == 0 && r.e == 0 && r.h == 0 && r.l == 0,
            r.flags == (Flags { z: false, n: false, h: false, c: false }),
            r.sp == 0 && r.pc == 0,
    {
        Register {
            a: 0u8,
            flags: Flags { z: false, n: false, h: false, c: false },
            b: 0u8,
            c: 0u8,
            d: 0u8,
            e: 0u8,
            h: 0u8,
            l: 0u8,
            sp: 0u16,
            pc: 0u16,
        }
    }

    pub fn a(&self) -> (r: u8)
        ensures
            r == self.a,
    {
        self.a
    }

    /// The F register: the flags in bits 7..4, the low nibble always zero.
    pub fn f(&self) -> (r: u8)
        ensures
            r == self.f_spec(),
            r % 16 == 0,
    {
        let mut v: u8 = 0;
        if self.flags.z {
            v = v + 128;
        }
        if self.flags.n {
            v = v + 64;
        }
        if self.flags.h {
            v = v + 32;
        }
        if self.flags.c {
            v = v + 16;
        }
        v
    }

    pub fn b(&self) -> (r: u8)
        ensures
            r == self.b,
    {
        self.b
    }

    pub fn c(&self) -> (r: u8)
        ensures
            r == self.c,
    {
        self.c
    }

    pub fn d(&self) -> (r: u8)
        ensures
            r == self.d,
    {
        self.d
    }

    pub fn e(&self) -> (r: u8)
        ensures
            r == self.e,
    {
        self.e
    }

    pub fn h(&self) -> (r: u8)
        ensures
            r == self.h,
    {
        self.h
    }

    pub fn l(&self) -> (r: u8)
        ensures
            r == self.l,
    {
        self.l
    }

    pub fn af(&self) -> (r: u16)
        ensures
            r == self.af_spec(),
    {
        u8_to_u16(self.a, self.f())
    }

    pub fn bc(&self) -> (r: u16)
        ensures
            r == self.bc_spec(),
    {
        u8_to_u16(self.b, self.c)
    }

    pub fn de(&self) -> (r: u16)
        ensures
            r == self.de_spec(),
    {
        u8_to_u16(self.d, self.e)
    }

    pub fn hl(&self) -> (r: u16)
        ensures
            r == self.hl_spec(),
    {
        u8_to_u16(self.h, self.l)
    }

    pub fn sp(&self) -> (r: u16)
        ensures
            r == self.sp,
    {
        self.sp
    }

    pub fn pc(&self) -> (r: u16)
        ensures
            r == self.pc,
    {
        self.pc
    }

    pub fn set_a(&mut self, val: u8)
        ensures
            *final(self) == (Register { a: val, ..*old(self) }),
    {
        self.a = val;
    }

    /// Sets the flags from bits 7..4 of `val`; the low nibble is dropped.
    pub fn set_f(&mut self, val: u8)
        ensures
            *final(self) == (Register { flags: flags_of(val), ..*old(self) }),
            final(self).f_spec() == val - val % 16,
    {
        proof {
            lemma_flags_byte(self.flags, val);
        }
        self.flags = Flags {
            z: (val / 128) % 2 == 1,
            n: (val / 64) % 2 == 1,
            h: (val / 32) % 2 == 1,
            c: (val / 16) % 2 == 1,
        };
    }

    pub fn set_b(&mut self, val: u8)
        ensures
            *final(self) == (Register { b: val, ..*old(self) }),
    {
        self.b = val;
    }

    pub fn set_c(&mut self, val: u8)
        ensures
            *final(self) == (Register { c: val, ..*old(self) }),
    {
        self.c = val;
    }

    pub fn set_d(&mut self, val: u8)
        ensures
            *final(self) == (Register { d: val, ..*old(self) }),
    {
        self.d = val;
    }

    pub fn set_e(&mut self, val: u8)
        ensures
            *final(self) == (Register { e: val, ..*old(self) }),
    {
        self.e = val;
    }

    pub fn set_h(&mut self, val: u8)
        ensures
            *final(self) == (Register { h: val, ..*old(self) }),
    {
        self.h = val;
    }

    pub fn set_l(&mut self, val: u8)
        ensures
            *final(self) == (Register { l: val, ..*old(self) }),
    {
        self.l = val;
    }

    /// Sets A from the high byte and the flags from the high nibble of the low byte.
    pub fn set_af(&mut self, val: u16)
        ensures
            *final(self) == (Register { a: high(val), flags: flags_of(low(val)), ..*old(self) }),
    {
        let (a, f) = split_u16(val);
        self.a = a;
        self.set_f(f);
    }

    pub fn set_bc(&mut self, val: u16)
        ensures
            *final(self) == (Register { b: high(val), c: low(val), ..*old(self) }),
            final(self).bc_spec() == val,
    {
        let (b, c) = split_u16(val);
        self.b = b;
        self.c = c;
    }

    pub fn set_de(&mut self, val: u16)
        ensures
            *final(self) == (Register { d: high(val), e: low(val), ..*old(self) }),
            final(self).de_spec() == val,
    {
        let (d, e) = split_u16(val);
        self.d = d;
        self.e = e;
    }

    pub fn set_hl(&mut self, val: u16)
        ensures
            *final(self) == (Register { h: high(val), l: low(val), ..*old(self) }),
            final(self).hl_spec() == val,
    {
        let (h, l) = split_u16(val);
        self.h = h;
        self.l = l;
    }

    pub fn set_sp(&mut self, val: u16)
        ensures
            *final(self) == (Register { sp: val, ..*old(self) }),
    {
        self.sp = val
    }

    pub fn set_pc(&mut self, val: u16)
        ensures
            *final(self) == (Register { pc: val, ..*old(self) }),
    {
        self.pc = val
    }

    /// Reads the 8-bit register at `index`; fails on the memory slot and on
    /// indices past A.
    pub fn get_r8(&self, index: usize) -> (r: GBResult<u8>)
        ensures
            valid_r8(index) ==> r == Ok::<u8, GBError>(self.r8(index)),
            !valid_r8(index) ==> r == Err::<u8, GBError>(GBError::InvalidOperandIndex),
    {
        match index {
            REG_B => Ok(self.b()),
            REG_C => Ok(self.c()),
            REG_D => Ok(self.d()),
            REG_E => Ok(self.e()),
            REG_H => Ok(self.h()),
            REG_L => Ok(self.l()),
            REG_A => Ok(self.a()),
            _ => Err(GBError::InvalidOperandIndex),
        }
    }

    /// Reads the 16-bit pair at `index` (BC, DE, HL, SP).
    pub fn get_r16(&self, index: usize) -> (r: GBResult<u16>)
        ensures
            index < 4 ==> r == Ok::<u16, GBError>(self.r16(index)),
            index >= 4 ==> r == Err::<u16, GBError>(GBError::InvalidOperandIndex),
    {
        match index {
            REG_BC => Ok(self.bc()),
            REG_DE => Ok(self.de()),
            REG_HL => Ok(self.hl()),
            REG_SP => Ok(self.sp()),
            _ => Err(GBError::InvalidOperandIndex),
        }
    }

    /// Writes the 8-bit register at `index`; fails, changing nothing, on the
    /// memory slot and on indices past A.
    pub fn set_r8(&mut self, index: usize, val: u8) -> (r: GBResult<()>)
        ensures
            valid_r8(index) ==> r == Ok::<(), GBError>(()) && *final(self) == old(self).with_r8(
                index,
                val,
            ),
            !valid_r8(index) ==> r == Err::<(), GBError>(GBError::InvalidOperandIndex)
                && *final(self) == *old(self),
    {
        match index {
            REG_B => self.set_b(val),
            REG_C => self.set_c(val),
            REG_D => self.set_d(val),
            REG_E => self.set_e(val),
            REG_H => self.set_h(val),
            REG_L => self.set_l(val),
            REG_A => self.set_a(val),
            _ => return Err(GBError::InvalidOperandIndex),
        }
        Ok(())
    }

    /// Writes the 16-bit pair at `index` (BC, DE, HL, SP).
    pub fn set_r16(&mut self, index: usize, val: u16) -> (r: GBResult<()>)
        ensures
            index < 4 ==> r == Ok::<(), GBError>(()) && *final(self) == old(self).with_r16(
                index,
                val,
            ),
            index >= 4 ==> r == Err::<(), GBError>(GBError::InvalidOperandIndex) && *final(self)
                == *old(self),
    {
        match index {
            REG_BC => self.set_bc(val),
            REG_DE => self.set_de(val),
            REG_HL => self.set_hl(val),
            REG_SP => self.set_sp(val),
            _ => return Err(GBError::InvalidOperandIndex),
        }
        Ok(())
    }
}

} // verus!
