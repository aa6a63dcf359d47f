//! Flag arithmetic of the 8-bit and 16-bit operations.
use vstd::prelude::*;
use crate::cpu::register::Flags;

verus! {

pub const ALU_ADD: u8 = 0;
pub const ALU_ADC: u8 = 1;
pub const ALU_SUB: u8 = 2;
pub const ALU_SBC: u8 = 3;
pub const ALU_AND: u8 = 4;
pub const ALU_XOR: u8 = 5;
pub const ALU_OR: u8 = 6;
pub const ALU_CP: u8 = 7;

pub const ROT_RLC: u8 = 0;
pub const ROT_RRC: u8 = 1;
pub const ROT_RL: u8 = 2;
pub const ROT_RR: u8 = 3;
pub const ROT_SLA: u8 = 4;
pub const ROT_SRA: u8 = 5;
pub const ROT_SWAP: u8 = 6;
pub const ROT_SRL: u8 = 7;

pub open spec fn bit(b: bool) -> int {
    if b {
        1
    } else {
        0
    }
}

/// An accumulator operation (ADD, ADC, SUB, SBC, AND, XOR, OR, CP by `op`)
/// on `a` and `b`: the new accumulator and flags. Z is set iff the result is
/// zero; N for the subtract family; H on carry or borrow out of bit 3; C on
/// carry or borrow out of bit 7; AND sets H and clears C; OR and XOR clear
/// both; CP computes as SUB and keeps the accumulator.
pub open spec fn alu_spec(op: u8, a: u8, b: u8, f: Flags) -> (u8, Flags) {
    let cin = if op == ALU_ADC || op == ALU_SBC { bit(f.c) } else { 0 };
    if op == ALU_ADD || op == ALU_ADC {
        let r = ((a + b + cin) % 256) as u8;
        (r, Flags { z: r == 0, n: false, h: a % 16 + b % 16 + cin > 15, c: a + b + cin > 255 })
    } else if op == ALU_SUB || op == ALU_SBC || op == ALU_CP {
        let r = ((a - b - cin + 256) % 256) as u8;
        let fl = Flags { z: r == 0, n: true, h: a % 16 < b % 16 + cin, c: a < b + cin };
        (if op == ALU_CP { a } else { r }, fl)
    } else if op == ALU_AND {
        let r = a & b;
        (r, Flags { z: r == 0, n: false, h: true, c: false })
    } else if op == ALU_XOR {
        let r = a ^ b;
        (r, Flags { z: r == 0, n: false, h: false, c: false })
    } else {
        let r = a | b;
        (r, Flags { z: r == 0, n: false, h: false, c: false })
    }
}

pub fn alu(op: u8, a: u8, b: u8, f: Flags) -> (r: (u8, Flags))
    requires
        op < 8,
    ensures
        r == alu_spec(op, a, b, f),
{
    let cin: u8 = if (op == ALU_ADC || op == ALU_SBC) && f.c {
        1
    } else {
        0
    };
    if op == ALU_ADD || op == ALU_ADC {
        let sum: u16 = a as u16 + b as u16 + cin as u16;
        let r = (sum % 256) as u8;
        (r, Flags { z: r == 0, n: false, h: a % 16 + b % 16 + cin > 15, c: sum > 255 })
    } else if op == ALU_SUB || op == ALU_SBC || op == ALU_CP {
        let diff: u16 = (a as u16 + 256) - b as u16 - cin as u16;
        let r = (diff % 256) as u8;
        let fl = Flags {
            z: r == 0,
            n: true,
            h: a % 16 < b % 16 + cin,
            c: (a as u16) < b as u16 + cin as u16,
        };
        (if op == ALU_CP {
            a
        } else {
            r
        }, fl)
    } else if op == ALU_AND {
        let r = a & b;
        (r, Flags { z: r == 0, n: false, h: true, c: false })
    } else if op == ALU_XOR {
        let r = a ^ b;
        (r, Flags { z: r == 0, n: false, h: false, c: false })
    } else {
        let r = a | b;
        (r, Flags { z: r == 0, n: false, h: false, c: false })
    }
}

/// 8-bit increment: Z, N, H from the result; C unchanged.
pub open spec fn inc_spec(v: u8, f: Flags) -> (u8, Flags) {
    let r = ((v + 1) % 256) as u8;
    (r, Flags { z: r == 0, n: false, h: v % 16 == 15, c: f.c })
}

pub fn inc8(v: u8, f: Flags) -> (r: (u8, Flags))
    ensures
        r == inc_spec(v, f),
{
    let r = v.wrapping_add(1);
    (r, Flags { z: r == 0, n: false, h: v % 16 == 15, c: f.c })
}

/// 8-bit decrement: Z, N, H from the result; C unchanged.
pub open spec fn dec_spec(v: u8, f: Flags) -> (u8, Flags) {
    let r = ((v + 255) % 256) as u8;
    (r, Flags { z: r == 0, n: true, h: v % 16 == 0, c: f.c })
}

pub fn dec8(v: u8, f: Flags) -> (r: (u8, Flags))
    ensures
        r == dec_spec(v, f),
{
    let r = v.wrapping_sub(1);
    (r, Flags { z: r == 0, n: true, h: v % 16 == 0, c: f.c })
}

/// The bit movement of a rotate or shift (RLC, RRC, RL, RR, SLA, SRA, SWAP,
/// SRL by `op`) on `v` with carry-in `cin`: the result and the new carry
/// (SWAP exchanges the nibbles and leaves the carry as it was).
pub open spec fn rot_value(op: u8, v: u8, cin: bool) -> (u8, bool) {
    if op == ROT_RLC {
        (((v * 2) % 256 + v / 128) as u8, v >= 128)
    } else if op == ROT_RRC {
        ((v / 2 + (v % 2) * 128) as u8, v % 2 == 1)
    } else if op == ROT_RL {
        (((v * 2) % 256 + bit(cin)) as u8, v >= 128)
    } else if op == ROT_RR {
        ((v / 2 + bit(cin) * 128) as u8, v % 2 == 1)
    } else if op == ROT_SLA {
        (((v * 2) % 256) as u8, v >= 128)
    } else if op == ROT_SRA {
        ((v / 2 + (v / 128) * 128) as u8, v % 2 == 1)
    } else if op == ROT_SWAP {
        (((v % 16) * 16 + v / 16) as u8, cin)
    } else {
        ((v / 2) as u8, v % 2 == 1)
    }
}

/// A register or memory rotate/shift: Z from the result, N and H clear, C
/// the bit shifted out (unchanged for SWAP).
pub open spec fn rot_spec(op: u8, v: u8, f: Flags) -> (u8, Flags) {
    let (r, c) = rot_value(op, v, f.c);
    (r, Flags { z: r == 0, n: false, h: false, c })
}

/// An accumulator rotate (RLCA, RRCA, RLA, RRA): as the register form but Z
/// is always clear.
pub open spec fn rot_a_spec(op: u8, v: u8, f: Flags) -> (u8, Flags) {
    let (r, c) = rot_value(op, v, f.c);
    (r, Flags { z: false, n: false, h: false, c })
}

pub fn rot(op: u8, v: u8, cin: bool) -> (r: (u8, bool))
    requires
        op < 8,
    ensures
        r == rot_value(op, v, cin),
{
    let c: u8 = if cin {
        1
    } else {
        0
    };
    if op == ROT_RLC {
        ((v % 128) * 2 + v / 128, v >= 128)
    } else if op == ROT_RRC {
        (v / 2 + (v % 2) * 128, v % 2 == 1)
    } else if op == ROT_RL {
        ((v % 128) * 2 + c, v >= 128)
    } else if op == ROT_RR {
        (v / 2 + c * 128, v % 2 == 1)
    } else if op == ROT_SLA {
        ((v % 128) * 2, v >= 128)
    } else if op == ROT_SRA {
        (v / 2 + (v / 128) * 128, v % 2 == 1)
    } else if op == ROT_SWAP {
        ((v % 16) * 16 + v / 16, cin)
    } else {
        (v / 2, v % 2 == 1)
    }
}

/// BIT: Z set iff bit `n` of `v` is clear; N clear; H set; C unchanged.
pub open spec fn bit_spec(n: u8, v: u8, f: Flags) -> Flags {
    Flags { z: v & (1u8 << n) == 0, n: false, h: true, c: f.c }
}

/// The BCD correction of the accumulator after an addition or subtraction,
/// by the previous operation's N, H and C.
pub open spec fn daa_spec(a: u8, f: Flags) -> (u8, Flags) {
    let hi = f.c || (!f.n && a > 0x99);
    let lo = f.h || (!f.n && a % 16 > 9);
    let corr = (if hi { 0x60int } else { 0 }) + (if lo { 0x06int } else { 0 });
    let r = (if f.n { (a - corr + 256) % 256 } else { (a + corr) % 256 }) as u8;
    (r, Flags { z: r == 0, n: f.n, h: false, c: hi })
}

pub fn daa(a: u8, f: Flags) -> (r: (u8, Flags))
    ensures
        r == daa_spec(a, f),
{
    let hi = f.c || (!f.n && a > 0x99);
    let lo = f.h || (!f.n && a % 16 > 9);
    let corr: u16 = (if hi {
        0x60
    } else {
        0
    }) + (if lo {
        0x06
    } else {
        0
    });
    let r = if f.n {
        ((a as u16 + 256 - corr) % 256) as u8
    } else {
        ((a as u16 + corr) % 256) as u8
    };
    (r, Flags { z: r == 0, n: f.n, h: false, c: hi })
}

/// ADD HL,rr: the sum modulo 2^16; H from bit 11, C from bit 15; N clear; Z unchanged.
pub open spec fn add16_spec(hl: u16, v: u16, f: Flags) -> (u16, Flags) {
    (((hl + v) % 0x10000) as u16, Flags {
        z: f.z,
        n: false,
        h: hl % 0x1000 + v % 0x1000 > 0xfff,
        c: hl + v > 0xffff,
    })
}

pub fn add16(hl: u16, v: u16, f: Flags) -> (r: (u16, Flags))
    ensures
        r == add16_spec(hl, v, f),
{
    let sum: u32 = hl as u32 + v as u32;
    ((sum % 0x10000) as u16, Flags {
        z: f.z,
        n: false,
        h: hl % 0x1000 + v % 0x1000 > 0xfff,
        c: sum > 0xffff,
    })
}

/// A displacement byte read as a signed 8-bit value.
pub open spec fn signed(e: u8) -> int {
    if e < 128 {
        e as int
    } else {
        e as int - 256
    }
}

/// `v` moved by the signed displacement `e`, modulo 2^16.
pub open spec fn offset16(v: u16, e: u8) -> u16 {
    ((v + signed(e) + 0x10000) % 0x10000) as u16
}

pub fn offset(v: u16, e: u8) -> (r: u16)
    ensures
        r == offset16(v, e),
{
    if e < 128 {
        ((v as u32 + e as u32) % 0x10000) as u16
    } else {
        ((v as u32 + 0x10000 - (256 - e as u32)) % 0x10000) as u16
    }
}

/// ADD SP,dd and LD HL,SP+dd: the signed sum; H and C from the unsigned
/// addition of the low byte alone; Z and N clear.
pub open spec fn add_sp_spec(sp: u16, e: u8) -> (u16, Flags) {
    (offset16(sp, e), Flags {
        z: false,
        n: false,
        h: sp % 16 + e % 16 > 15,
        c: sp % 256 + e > 255,
    })
}

pub fn add_sp(sp: u16, e: u8) -> (r: (u16, Flags))
    ensures
        r == add_sp_spec(sp, e),
{
    (offset(sp, e), Flags {
        z: false,
        n: false,
        h: sp % 16 + (e % 16) as u16 > 15,
        c: sp % 256 + e as u16 > 255,
    })
}

} // verus!
