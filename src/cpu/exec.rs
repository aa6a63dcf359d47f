//! The executor: what each instruction does to the register file and the bus,
//! stated over their plain-value models, and the code that does it.
use vstd::prelude::*;
use crate::cpu::alu::{
    add16, add16_spec, add_sp, add_sp_spec, alu, alu_spec, bit_spec, daa, daa_spec, dec8, dec_spec,
    inc8, inc_spec, offset, offset16, rot, rot_a_spec, rot_spec, ALU_ADC, ALU_ADD,
    ALU_AND, ALU_CP, ALU_OR, ALU_SBC, ALU_SUB, ALU_XOR, ROT_RL, ROT_RLC, ROT_RR, ROT_RRC, ROT_SLA,
    ROT_SRA, ROT_SRL, ROT_SWAP,
};
use crate::cpu::bus::{Bus, BusState};
use crate::cpu::instruction::{Instruction, decode_cb_spec, decode_spec};
use crate::cpu::register::{Flags, Register, valid_r8};
use crate::device::Device;
use crate::error::{GBError, GBResult};
use crate::util::{high, low, split_u16, u8_to_u16, word};

verus! {

/// Registers, bus and result after an instruction.
pub struct Outcome {
    pub regs: Register,
    pub bus: BusState,
    pub result: GBResult<usize>,
}

pub open spec fn done(regs: Register, bus: BusState, cycles: usize) -> Outcome {
    Outcome { regs, bus, result: Ok(cycles) }
}

/// An operand index outside its valid set: nothing changes.
pub open spec fn bad_operand(regs: Register, bus: BusState) -> Outcome {
    Outcome { regs, bus, result: Err(GBError::InvalidOperandIndex) }
}

/// Bits 5-3 of an opcode: destination register, bit index, condition or vector.
pub open spec fn y_of(op: u8) -> usize {
    ((op / 8) % 8) as usize
}

/// Bits 2-0 of an opcode: source register.
pub open spec fn z_of(op: u8) -> usize {
    (op % 8) as usize
}

/// Bits 5-4 of an opcode: register pair.
pub open spec fn p_of(op: u8) -> usize {
    ((op / 16) % 4) as usize
}

pub open spec fn inc16(v: u16) -> u16 {
    ((v + 1) % 0x10000) as u16
}

pub open spec fn dec16(v: u16) -> u16 {
    ((v + 0xffff) % 0x10000) as u16
}

/// The byte at PC.
pub open spec fn imm8(r: Register, m: BusState) -> u8 {
    m.read(r.pc)
}

/// The little-endian word at PC.
pub open spec fn imm16(r: Register, m: BusState) -> u16 {
    word(m.read(inc16(r.pc)), m.read(r.pc))
}

/// The registers with PC moved past one more byte.
pub open spec fn adv(r: Register) -> Register {
    Register { pc: inc16(r.pc), ..r }
}

/// PUSH: SP goes down by two; the high byte is stored first, then the low byte.
pub open spec fn push_spec(r: Register, m: BusState, v: u16) -> (Register, BusState) {
    let sp1 = dec16(r.sp);
    let sp2 = dec16(sp1);
    (Register { sp: sp2, ..r }, m.write(sp1, high(v)).write(sp2, low(v)))
}

/// The word POP reads: the low byte at SP, the high byte above it.
pub open spec fn pop_value(r: Register, m: BusState) -> u16 {
    word(m.read(inc16(r.sp)), m.read(r.sp))
}

/// The registers after POP: SP up by two.
pub open spec fn pop_regs(r: Register) -> Register {
    Register { sp: inc16(inc16(r.sp)), ..r }
}

/// Branch condition `cc` (NZ, Z, NC, C) against the flags.
pub open spec fn cond(f: Flags, cc: usize) -> bool {
    if cc == 0 {
        !f.z
    } else if cc == 1 {
        f.z
    } else if cc == 2 {
        !f.c
    } else {
        f.c
    }
}

fn fetch8(reg: &mut Register, bus: &Bus) -> (r: u8)
    ensures
        r == imm8(*old(reg), bus@),
        *final(reg) == adv(*old(reg)),
{
    let v = bus.read(reg.pc);
    reg.pc = reg.pc.wrapping_add(1);
    v
}

fn fetch16(reg: &mut Register, bus: &Bus) -> (r: u16)
    ensures
        r == imm16(*old(reg), bus@),
        *final(reg) == adv(adv(*old(reg))),
{
    let lo = fetch8(reg, bus);
    let hi = fetch8(reg, bus);
    u8_to_u16(hi, lo)
}

/// Pushes a word on the stack.
pub fn push16(reg: &mut Register, bus: &mut Bus, v: u16)
    ensures
        (*final(reg), final(bus)@) == push_spec(*old(reg), old(bus)@, v),
{
    let (hi, lo) = split_u16(v);
    reg.sp = reg.sp.wrapping_sub(1);
    bus.write(reg.sp, hi);
    reg.sp = reg.sp.wrapping_sub(1);
    bus.write(reg.sp, lo);
}

/// Pops a word from the stack.
pub fn pop16(reg: &mut Register, bus: &Bus) -> (r: u16)
    ensures
        r == pop_value(*old(reg), bus@),
        *final(reg) == pop_regs(*old(reg)),
{
    let lo = bus.read(reg.sp);
    reg.sp = reg.sp.wrapping_add(1);
    let hi = bus.read(reg.sp);
    reg.sp = reg.sp.wrapping_add(1);
    u8_to_u16(hi, lo)
}

/// Addresses where a byte written reads back unchanged: working RAM and its
/// echo, high RAM, and enabled cartridge RAM, within the backing stores.
pub open spec fn holds_bytes(m: BusState, addr: u16) -> bool {
    if 0xa000 <= addr < 0xc000 {
        m.cart.ram_enabled && m.cart.ram_bank_index() * 0x2000 + (addr - 0xa000) < m.cart.ram.len()
    } else if 0xc000 <= addr < 0xe000 {
        addr - 0xc000 < m.wram.len()
    } else if 0xe000 <= addr < 0xfe00 {
        addr - 0xe000 < m.wram.len()
    } else if 0xff80 <= addr < 0xffff {
        addr - 0xff80 < m.hram.len()
    } else {
        false
    }
}

/// Pushing a word and popping it back yields the word and restores SP,
/// wherever the two stack bytes land in memory that holds bytes.
pub proof fn lemma_push_pop(r: Register, m: BusState, v: u16)
    requires
        holds_bytes(m, dec16(r.sp)),
        holds_bytes(m, dec16(dec16(r.sp))),
    ensures
        ({
            let (r1, m1) = push_spec(r, m, v);
            pop_value(r1, m1) == v && pop_regs(r1).sp == r.sp
        }),
{
    let (r1, m1) = push_spec(r, m, v);
    let sp1 = dec16(r.sp);
    let sp2 = dec16(sp1);
    reveal(BusState::read);
    reveal(BusState::write);
    assert(inc16(sp2) == sp1);
    assert(inc16(sp1) == r.sp);
    crate::util::lemma_merge_split_inverse(high(v), low(v), v);
}


// ---------------------------------------------------------------- 8-bit loads

pub open spec fn is_load8(inst: Instruction) -> bool {
    matches!(
        inst,
        Instruction::LD_R_R | Instruction::LD_R_N | Instruction::LD_R_HL | Instruction::LD_HL_R
            | Instruction::LD_HL_N | Instruction::LD_A_BC | Instruction::LD_A_DE
            | Instruction::LD_A_NN | Instruction::LD_BC_A | Instruction::LD_DE_A
            | Instruction::LD_NN_A | Instruction::LD_A_IO_N | Instruction::LD_IO_N_A
            | Instruction::LD_A_IO_C | Instruction::LD_IO_C_A | Instruction::LDI_HL_A
            | Instruction::LDI_A_HL | Instruction::LDD_HL_A | Instruction::LDD_A_HL
    )
}

/// LD r,r': copy register z into register y.
pub open spec fn ld_r_r_spec(op: u8, r: Register, m: BusState) -> Outcome {
    if valid_r8(y_of(op)) && valid_r8(z_of(op)) {
        done(r.with_r8(y_of(op), r.r8(z_of(op))), m, 1)
    } else {
        bad_operand(r, m)
    }
}

/// The 8-bit loads among registers, [HL], [BC], [DE], absolute addresses and
/// the I/O page; the HL forms with I and D step HL up or down after the access.
pub open spec fn load8_spec(inst: Instruction, op: u8, r: Register, m: BusState) -> Outcome {
    let y = y_of(op);
    let z = z_of(op);
    let hl = r.hl_spec();
    match inst {
        Instruction::LD_R_R => ld_r_r_spec(op, r, m),
        Instruction::LD_R_N => if valid_r8(y) {
            done(adv(r).with_r8(y, imm8(r, m)), m, 2)
        } else {
            bad_operand(r, m)
        },
        Instruction::LD_R_HL => if valid_r8(y) {
            done(r.with_r8(y, m.read(hl)), m, 2)
        } else {
            bad_operand(r, m)
        },
        Instruction::LD_HL_R => if valid_r8(z) {
            done(r, m.write(hl, r.r8(z)), 2)
        } else {
            bad_operand(r, m)
        },
        Instruction::LD_HL_N => done(adv(r), m.write(hl, imm8(r, m)), 3),
        Instruction::LD_A_BC => done(Register { a: m.read(r.bc_spec()), ..r }, m, 2),
        Instruction::LD_A_DE => done(Register { a: m.read(r.de_spec()), ..r }, m, 2),
        Instruction::LD_A_NN => done(Register { a: m.read(imm16(r, m)), ..adv(adv(r)) }, m, 4),
        Instruction::LD_BC_A => done(r, m.write(r.bc_spec(), r.a), 2),
        Instruction::LD_DE_A => done(r, m.write(r.de_spec(), r.a), 2),
        Instruction::LD_NN_A => done(adv(adv(r)), m.write(imm16(r, m), r.a), 4),
        Instruction::LD_A_IO_N => done(
            Register { a: m.read((0xff00 + imm8(r, m)) as u16), ..adv(r) },
            m,
            3,
        ),
        Instruction::LD_IO_N_A => done(adv(r), m.write((0xff00 + imm8(r, m)) as u16, r.a), 3),
        Instruction::LD_A_IO_C => done(Register { a: m.read((0xff00 + r.c) as u16), ..r }, m, 2),
        Instruction::LD_IO_C_A => done(r, m.write((0xff00 + r.c) as u16, r.a), 2),
        Instruction::LDI_HL_A => done(r.with_r16(2, inc16(hl)), m.write(hl, r.a), 2),
        Instruction::LDI_A_HL => done(Register { a: m.read(hl), ..r.with_r16(2, inc16(hl)) }, m, 2),
        Instruction::LDD_HL_A => done(r.with_r16(2, dec16(hl)), m.write(hl, r.a), 2),
        _ => done(Register { a: m.read(hl), ..r.with_r16(2, dec16(hl)) }, m, 2),
    }
}

/// LD r,r': the register picked by bits 5-3 of `inst` takes the value of
/// the one picked by bits 2-0.
pub fn ld_r_r(inst: u8, reg: &mut Register, bus: &mut Bus) -> (r: GBResult<usize>)
    ensures
        (Outcome { regs: *final(reg), bus: final(bus)@, result: r }) == ld_r_r_spec(
            inst,
            *old(reg),
            old(bus)@,
        ),
{
    let reg1 = ((inst / 8) % 8) as usize;
    let reg2 = (inst % 8) as usize;
    match reg.get_r8(reg2) {
        Ok(v) => match reg.set_r8(reg1, v) {
            Ok(_) => Ok(1),
            Err(e) => Err(e),
        },
        Err(e) => Err(e),
    }
}

#[verifier::rlimit(100)]
fn load8(inst: Instruction, op: u8, reg: &mut Register, bus: &mut Bus) -> (r: GBResult<usize>)
    requires
        is_load8(inst),
    ensures
        (Outcome { regs: *final(reg), bus: final(bus)@, result: r }) == load8_spec(
            inst,
            op,
            *old(reg),
            old(bus)@,
        ),
{
    let y = ((op / 8) % 8) as usize;
    let z = (op % 8) as usize;
    let hl = reg.hl();
    match inst {
        Instruction::LD_R_R => ld_r_r(op, reg, bus),
        Instruction::LD_R_N => {
            if y >= 8 || y == 6 {
                return Err(GBError::InvalidOperandIndex);
            }
            let n = fetch8(reg, bus);
            match reg.set_r8(y, n) {
                Ok(_) => Ok(2),
                Err(e) => Err(e),
            }
        },
        Instruction::LD_R_HL => {
            let v = bus.read(hl);
            match reg.set_r8(y, v) {
                Ok(_) => Ok(2),
                Err(e) => Err(e),
            }
        },
        Instruction::LD_HL_R => match reg.get_r8(z) {
            Ok(v) => {
                bus.write(hl, v);
                Ok(2)
            },
            Err(e) => Err(e),
        },
        Instruction::LD_HL_N => {
            let n = fetch8(reg, bus);
            bus.write(hl, n);
            Ok(3)
        },
        Instruction::LD_A_BC => {
            reg.a = bus.read(reg.bc());
            Ok(2)
        },
        Instruction::LD_A_DE => {
            reg.a = bus.read(reg.de());
            Ok(2)
        },
        Instruction::LD_A_NN => {
            let nn = fetch16(reg, bus);
            reg.a = bus.read(nn);
            Ok(4)
        },
        Instruction::LD_BC_A => {
            bus.write(reg.bc(), reg.a);
            Ok(2)
        },
        Instruction::LD_DE_A => {
            bus.write(reg.de(), reg.a);
            Ok(2)
        },
        Instruction::LD_NN_A => {
            let nn = fetch16(reg, bus);
            bus.write(nn, reg.a);
            Ok(4)
        },
        Instruction::LD_A_IO_N => {
            let n = fetch8(reg, bus);
            reg.a = bus.read(0xff00 + n as u16);
            Ok(3)
        },
        Instruction::LD_IO_N_A => {
            let n = fetch8(reg, bus);
            bus.write(0xff00 + n as u16, reg.a);
            Ok(3)
        },
        Instruction::LD_A_IO_C => {
            reg.a = bus.read(0xff00 + reg.c as u16);
            Ok(2)
        },
        Instruction::LD_IO_C_A => {
            bus.write(0xff00 + reg.c as u16, reg.a);
            Ok(2)
        },
        Instruction::LDI_HL_A => {
            bus.write(hl, reg.a);
            reg.set_hl(hl.wrapping_add(1));
            Ok(2)
        },
        Instruction::LDI_A_HL => {
            reg.a = bus.read(hl);
            reg.set_hl(hl.wrapping_add(1));
            Ok(2)
        },
        Instruction::LDD_HL_A => {
            bus.write(hl, reg.a);
            reg.set_hl(hl.wrapping_sub(1));
            Ok(2)
        },
        _ => {
            reg.a = bus.read(hl);
            reg.set_hl(hl.wrapping_sub(1));
            Ok(2)
        },
    }
}


// --------------------------------------------------------------- 16-bit loads

pub open spec fn is_load16(inst: Instruction) -> bool {
    matches!(
        inst,
        Instruction::LD_RR_NN | Instruction::LD_SP_HL | Instruction::LD_NN_SP
            | Instruction::PUSH_RR | Instruction::POP_RR
    )
}

/// Immediate to pair, HL to SP, SP to an absolute address (low byte first),
/// and PUSH/POP of BC, DE, HL, AF.
pub open spec fn load16_spec(inst: Instruction, op: u8, r: Register, m: BusState) -> Outcome {
    let p = p_of(op);
    match inst {
        Instruction::LD_RR_NN => done(adv(adv(r)).with_r16(p, imm16(r, m)), m, 3),
        Instruction::LD_SP_HL => done(Register { sp: r.hl_spec(), ..r }, m, 2),
        Instruction::LD_NN_SP => {
            let nn = imm16(r, m);
            done(adv(adv(r)), m.write(nn, low(r.sp)).write(inc16(nn), high(r.sp)), 5)
        },
        Instruction::PUSH_RR => {
            let (r1, m1) = push_spec(r, m, r.stack_r16(p));
            done(r1, m1, 4)
        },
        _ => done(pop_regs(r).with_stack_r16(p, pop_value(r, m)), m, 3),
    }
}

fn load16(inst: Instruction, op: u8, reg: &mut Register, bus: &mut Bus) -> (r: GBResult<usize>)
    requires
        is_load16(inst),
    ensures
        (Outcome { regs: *final(reg), bus: final(bus)@, result: r }) == load16_spec(
            inst,
            op,
            *old(reg),
            old(bus)@,
        ),
{
    let p = ((op / 16) % 4) as usize;
    match inst {
        Instruction::LD_RR_NN => {
            let nn = fetch16(reg, bus);
            match reg.set_r16(p, nn) {
                Ok(_) => Ok(3),
                Err(e) => Err(e),
            }
        },
        Instruction::LD_SP_HL => {
            reg.sp = reg.hl();
            Ok(2)
        },
        Instruction::LD_NN_SP => {
            let nn = fetch16(reg, bus);
            let (hi, lo) = split_u16(reg.sp);
            bus.write(nn, lo);
            bus.write(nn.wrapping_add(1), hi);
            Ok(5)
        },
        Instruction::PUSH_RR => {
            let v = if p == 3 {
                reg.af()
            } else {
                match reg.get_r16(p) {
                    Ok(v) => v,
                    Err(e) => return Err(e),
                }
            };
            push16(reg, bus, v);
            Ok(4)
        },
        _ => {
            let v = pop16(reg, bus);
            if p == 3 {
                reg.set_af(v);
            } else {
                match reg.set_r16(p, v) {
                    Ok(_) => {},
                    Err(e) => return Err(e),
                }
            }
            Ok(3)
        },
    }
}

// ------------------------------------------------------- 8-bit arithmetic/logic

pub open spec fn is_alu8(inst: Instruction) -> bool {
    matches!(
        inst,
        Instruction::ADD_A_R | Instruction::ADD_A_N | Instruction::ADD_A_HL | Instruction::ADC_A_R
            | Instruction::ADC_A_N | Instruction::ADC_A_HL | Instruction::SUB_R
            | Instruction::SUB_N | Instruction::SUB_HL | Instruction::SBC_A_R
            | Instruction::SBC_A_N | Instruction::SBC_A_HL | Instruction::AND_R
            | Instruction::AND_N | Instruction::AND_HL | Instruction::XOR_R | Instruction::XOR_N
            | Instruction::XOR_HL | Instruction::OR_R | Instruction::OR_N | Instruction::OR_HL
            | Instruction::CP_R | Instruction::CP_N | Instruction::CP_HL
    )
}

/// The accumulator operation of an ALU tag.
pub open spec fn alu_op_of(inst: Instruction) -> u8 {
    match inst {
        Instruction::ADD_A_R | Instruction::ADD_A_N | Instruction::ADD_A_HL => ALU_ADD,
        Instruction::ADC_A_R | Instruction::ADC_A_N | Instruction::ADC_A_HL => ALU_ADC,
        Instruction::SUB_R | Instruction::SUB_N | Instruction::SUB_HL => ALU_SUB,
        Instruction::SBC_A_R | Instruction::SBC_A_N | Instruction::SBC_A_HL => ALU_SBC,
        Instruction::AND_R | Instruction::AND_N | Instruction::AND_HL => ALU_AND,
        Instruction::XOR_R | Instruction::XOR_N | Instruction::XOR_HL => ALU_XOR,
        Instruction::OR_R | Instruction::OR_N | Instruction::OR_HL => ALU_OR,
        _ => ALU_CP,
    }
}

/// The operand form of an ALU tag: 0 register, 1 immediate, 2 [HL].
pub open spec fn alu_form_of(inst: Instruction) -> u8 {
    match inst {
        Instruction::ADD_A_R | Instruction::ADC_A_R | Instruction::SUB_R | Instruction::SBC_A_R
        | Instruction::AND_R | Instruction::XOR_R | Instruction::OR_R | Instruction::CP_R => 0,
        Instruction::ADD_A_N | Instruction::ADC_A_N | Instruction::SUB_N | Instruction::SBC_A_N
        | Instruction::AND_N | Instruction::XOR_N | Instruction::OR_N | Instruction::CP_N => 1,
        _ => 2,
    }
}

/// Operation on the accumulator with a register (bits 2-0), an immediate byte
/// or [HL].
pub open spec fn alu8_spec(inst: Instruction, op: u8, r: Register, m: BusState) -> Outcome {
    let k = alu_op_of(inst);
    let form = alu_form_of(inst);
    if form == 0 {
        if valid_r8(z_of(op)) {
            let (a, f) = alu_spec(k, r.a, r.r8(z_of(op)), r.flags);
            done(Register { a, flags: f, ..r }, m, 1)
        } else {
            bad_operand(r, m)
        }
    } else if form == 1 {
        let (a, f) = alu_spec(k, r.a, imm8(r, m), r.flags);
        done(Register { a, flags: f, ..adv(r) }, m, 2)
    } else {
        let (a, f) = alu_spec(k, r.a, m.read(r.hl_spec()), r.flags);
        done(Register { a, flags: f, ..r }, m, 2)
    }
}

fn alu_op(inst: Instruction) -> (r: (u8, u8))
    requires
        is_alu8(inst),
    ensures
        r == (alu_op_of(inst), alu_form_of(inst)),
{
    match inst {
        Instruction::ADD_A_R => (ALU_ADD, 0),
        Instruction::ADD_A_N => (ALU_ADD, 1),
        Instruction::ADD_A_HL => (ALU_ADD, 2),
        Instruction::ADC_A_R => (ALU_ADC, 0),
        Instruction::ADC_A_N => (ALU_ADC, 1),
        Instruction::ADC_A_HL => (ALU_ADC, 2),
        Instruction::SUB_R => (ALU_SUB, 0),
        Instruction::SUB_N => (ALU_SUB, 1),
        Instruction::SUB_HL => (ALU_SUB, 2),
        Instruction::SBC_A_R => (ALU_SBC, 0),
        Instruction::SBC_A_N => (ALU_SBC, 1),
        Instruction::SBC_A_HL => (ALU_SBC, 2),
        Instruction::AND_R => (ALU_AND, 0),
        Instruction::AND_N => (ALU_AND, 1),
        Instruction::AND_HL => (ALU_AND, 2),
        Instruction::XOR_R => (ALU_XOR, 0),
        Instruction::XOR_N => (ALU_XOR, 1),
        Instruction::XOR_HL => (ALU_XOR, 2),
        Instruction::OR_R => (ALU_OR, 0),
        Instruction::OR_N => (ALU_OR, 1),
        Instruction::OR_HL => (ALU_OR, 2),
        Instruction::CP_R => (ALU_CP, 0),
        Instruction::CP_N => (ALU_CP, 1),
        _ => (ALU_CP, 2),
    }
}

fn alu8(inst: Instruction, op: u8, reg: &mut Register, bus: &mut Bus) -> (r: GBResult<usize>)
    requires
        is_alu8(inst),
    ensures
        (Outcome { regs: *final(reg), bus: final(bus)@, result: r }) == alu8_spec(
            inst,
            op,
            *old(reg),
            old(bus)@,
        ),
{
    let (k, form) = alu_op(inst);
    let (operand, cycles) = if form == 0 {
        match reg.get_r8((op % 8) as usize) {
            Ok(v) => (v, 1),
            Err(e) => return Err(e),
        }
    } else if form == 1 {
        (fetch8(reg, bus), 2)
    } else {
        (bus.read(reg.hl()), 2)
    };
    let (a, f) = alu(k, reg.a, operand, reg.flags);
    reg.a = a;
    reg.flags = f;
    Ok(cycles)
}

// ------------------------------------------- increments, BCD and flag control

pub open spec fn is_misc8(inst: Instruction) -> bool {
    matches!(
        inst,
        Instruction::INC_R | Instruction::INC_HL | Instruction::DEC_R | Instruction::DEC_HL
            | Instruction::DAA | Instruction::CPL | Instruction::SCF | Instruction::CCF
            | Instruction::RLCA | Instruction::RLA | Instruction::RRCA | Instruction::RRA
    )
}

/// INC/DEC of a register (bits 5-3) or of [HL], DAA, CPL, SCF, CCF and the
/// accumulator rotates.
pub open spec fn misc8_spec(inst: Instruction, op: u8, r: Register, m: BusState) -> Outcome {
    let y = y_of(op);
    let hl = r.hl_spec();
    match inst {
        Instruction::INC_R => if valid_r8(y) {
            let (v, f) = inc_spec(r.r8(y), r.flags);
            done(Register { flags: f, ..r.with_r8(y, v) }, m, 1)
        } else {
            bad_operand(r, m)
        },
        Instruction::DEC_R => if valid_r8(y) {
            let (v, f) = dec_spec(r.r8(y), r.flags);
            done(Register { flags: f, ..r.with_r8(y, v) }, m, 1)
        } else {
            bad_operand(r, m)
        },
        Instruction::INC_HL => {
            let (v, f) = inc_spec(m.read(hl), r.flags);
            done(Register { flags: f, ..r }, m.write(hl, v), 3)
        },
        Instruction::DEC_HL => {
            let (v, f) = dec_spec(m.read(hl), r.flags);
            done(Register { flags: f, ..r }, m.write(hl, v), 3)
        },
        Instruction::DAA => {
            let (a, f) = daa_spec(r.a, r.flags);
            done(Register { a, flags: f, ..r }, m, 1)
        },
        Instruction::CPL => done(
            Register { a: (255 - r.a) as u8, flags: Flags { n: true, h: true, ..r.flags }, ..r },
            m,
            1,
        ),
        Instruction::SCF => done(
            Register { flags: Flags { n: false, h: false, c: true, ..r.flags }, ..r },
            m,
            1,
        ),
        Instruction::CCF => done(
            Register { flags: Flags { n: false, h: false, c: !r.flags.c, ..r.flags }, ..r },
            m,
            1,
        ),
        Instruction::RLCA => {
            let (a, f) = rot_a_spec(ROT_RLC, r.a, r.flags);
            done(Register { a, flags: f, ..r }, m, 1)
        },
        Instruction::RLA => {
            let (a, f) = rot_a_spec(ROT_RL, r.a, r.flags);
            done(Register { a, flags: f, ..r }, m, 1)
        },
        Instruction::RRCA => {
            let (a, f) = rot_a_spec(ROT_RRC, r.a, r.flags);
            done(Register { a, flags: f, ..r }, m, 1)
        },
        _ => {
            let (a, f) = rot_a_spec(ROT_RR, r.a, r.flags);
            done(Register { a, flags: f, ..r }, m, 1)
        },
    }
}

fn rotate_a(k: u8, reg: &mut Register)
    requires
        k < 8,
    ensures
        ({
            let (a, f) = rot_a_spec(k, old(reg).a, old(reg).flags);
            *final(reg) == Register { a, flags: f, ..*old(reg) }
        }),
{
    let (a, c) = rot(k, reg.a, reg.flags.c);
    reg.a = a;
    reg.flags = Flags { z: false, n: false, h: false, c };
}

#[verifier::rlimit(80)]
fn misc8(inst: Instruction, op: u8, reg: &mut Register, bus: &mut Bus) -> (r: GBResult<usize>)
    requires
        is_misc8(inst),
    ensures
        (Outcome { regs: *final(reg), bus: final(bus)@, result: r }) == misc8_spec(
            inst,
            op,
            *old(reg),
            old(bus)@,
        ),
{
    let y = ((op / 8) % 8) as usize;
    match inst {
        Instruction::INC_R | Instruction::DEC_R => {
            let v = match reg.get_r8(y) {
                Ok(v) => v,
                Err(e) => return Err(e),
            };
            let (nv, f) = if inst == Instruction::INC_R {
                inc8(v, reg.flags)
            } else {
                dec8(v, reg.flags)
            };
            let _ = reg.set_r8(y, nv);
            reg.flags = f;
            Ok(1)
        },
        Instruction::INC_HL | Instruction::DEC_HL => {
            let hl = reg.hl();
            let v = bus.read(hl);
            let (nv, f) = if inst == Instruction::INC_HL {
                inc8(v, reg.flags)
            } else {
                dec8(v, reg.flags)
            };
            bus.write(hl, nv);
            reg.flags = f;
            Ok(3)
        },
        Instruction::DAA => {
            let (a, f) = daa(reg.a, reg.flags);
            reg.a = a;
            reg.flags = f;
            Ok(1)
        },
        Instruction::CPL => {
            reg.a = 255 - reg.a;
            reg.flags.n = true;
            reg.flags.h = true;
            Ok(1)
        },
        Instruction::SCF => {
            reg.flags.n = false;
            reg.flags.h = false;
            reg.flags.c = true;
            Ok(1)
        },
        Instruction::CCF => {
            reg.flags.n = false;
            reg.flags.h = false;
            reg.flags.c = !reg.flags.c;
            Ok(1)
        },
        Instruction::RLCA => {
            rotate_a(ROT_RLC, reg);
            Ok(1)
        },
        Instruction::RLA => {
            rotate_a(ROT_RL, reg);
            Ok(1)
        },
        Instruction::RRCA => {
            rotate_a(ROT_RRC, reg);
            Ok(1)
        },
        _ => {
            rotate_a(ROT_RR, reg);
            Ok(1)
        },
    }
}


// ------------------------------------------------------- 16-bit arithmetic

pub open spec fn is_arith16(inst: Instruction) -> bool {
    matches!(
        inst,
        Instruction::ADD_HL_RR | Instruction::INC_RR | Instruction::DEC_RR | Instruction::ADD_SP_DD
            | Instruction::LD_HL_SP_DD
    )
}

/// ADD HL,rr; INC/DEC rr (no flags); ADD SP,dd and LD HL,SP+dd.
pub open spec fn arith16_spec(inst: Instruction, op: u8, r: Register, m: BusState) -> Outcome {
    let p = p_of(op);
    match inst {
        Instruction::ADD_HL_RR => {
            let (v, f) = add16_spec(r.hl_spec(), r.r16(p), r.flags);
            done(Register { flags: f, ..r.with_r16(2, v) }, m, 2)
        },
        Instruction::INC_RR => done(r.with_r16(p, inc16(r.r16(p))), m, 2),
        Instruction::DEC_RR => done(r.with_r16(p, dec16(r.r16(p))), m, 2),
        Instruction::ADD_SP_DD => {
            let (v, f) = add_sp_spec(r.sp, imm8(r, m));
            done(Register { sp: v, flags: f, ..adv(r) }, m, 4)
        },
        _ => {
            let (v, f) = add_sp_spec(r.sp, imm8(r, m));
            done(Register { flags: f, ..adv(r).with_r16(2, v) }, m, 3)
        },
    }
}

fn step_pair(p: usize, up: bool, reg: &mut Register)
    requires
        p < 4,
    ensures
        *final(reg) == old(reg).with_r16(
            p,
            if up {
                inc16(old(reg).r16(p))
            } else {
                dec16(old(reg).r16(p))
            },
        ),
{
    let v = match reg.get_r16(p) {
        Ok(v) => v,
        Err(_) => 0,
    };
    let nv = if up {
        v.wrapping_add(1)
    } else {
        v.wrapping_sub(1)
    };
    let _ = reg.set_r16(p, nv);
}

#[verifier::rlimit(100)]
fn arith16(inst: Instruction, op: u8, reg: &mut Register, bus: &mut Bus) -> (r: GBResult<usize>)
    requires
        is_arith16(inst),
    ensures
        (Outcome { regs: *final(reg), bus: final(bus)@, result: r }) == arith16_spec(
            inst,
            op,
            *old(reg),
            old(bus)@,
        ),
{
    let p = ((op / 16) % 4) as usize;
    match inst {
        Instruction::ADD_HL_RR => {
            let v = match reg.get_r16(p) {
                Ok(v) => v,
                Err(e) => return Err(e),
            };
            let (sum, f) = add16(reg.hl(), v, reg.flags);
            reg.set_hl(sum);
            reg.flags = f;
            Ok(2)
        },
        Instruction::INC_RR => {
            step_pair(p, true, reg);
            Ok(2)
        },
        Instruction::DEC_RR => {
            step_pair(p, false, reg);
            Ok(2)
        },
        Instruction::ADD_SP_DD => {
            let e = fetch8(reg, bus);
            let (v, f) = add_sp(reg.sp, e);
            reg.sp = v;
            reg.flags = f;
            Ok(4)
        },
        _ => {
            let e = fetch8(reg, bus);
            let (v, f) = add_sp(reg.sp, e);
            reg.set_hl(v);
            reg.flags = f;
            Ok(3)
        },
    }
}

// -------------------------------------------------- the second table's operations

/// The rotate/shift of a second-table tag, if it is one.
pub open spec fn rot_op_of(inst: Instruction) -> Option<u8> {
    match inst {
        Instruction::RLC_R | Instruction::RLC_HL => Some(ROT_RLC),
        Instruction::RRC_R | Instruction::RRC_HL => Some(ROT_RRC),
        Instruction::RL_R | Instruction::RL_HL => Some(ROT_RL),
        Instruction::RR_R | Instruction::RR_HL => Some(ROT_RR),
        Instruction::SLA_R | Instruction::SLA_HL => Some(ROT_SLA),
        Instruction::SRA_R | Instruction::SRA_HL => Some(ROT_SRA),
        Instruction::SWAP_R | Instruction::SWAP_HL => Some(ROT_SWAP),
        Instruction::SRL_R | Instruction::SRL_HL => Some(ROT_SRL),
        _ => None,
    }
}

/// Whether a second-table tag works on [HL] rather than a register.
pub open spec fn cb_on_memory(inst: Instruction) -> bool {
    matches!(
        inst,
        Instruction::RLC_HL | Instruction::RRC_HL | Instruction::RL_HL | Instruction::RR_HL
            | Instruction::SLA_HL | Instruction::SRA_HL | Instruction::SWAP_HL
            | Instruction::SRL_HL | Instruction::BIT_N_HL | Instruction::SET_HL
            | Instruction::RES_HL
    )
}

/// The value a second-table tag leaves in its target, and the flags.
pub open spec fn cb_value(inst: Instruction, n: u8, v: u8, f: Flags) -> (u8, Flags) {
    match rot_op_of(inst) {
        Some(k) => rot_spec(k, v, f),
        None => match inst {
            Instruction::BIT_N_R | Instruction::BIT_N_HL => (v, bit_spec(n, v, f)),
            Instruction::SET_R | Instruction::SET_HL => (v | (1u8 << n), f),
            _ => (v & !(1u8 << n), f),
        },
    }
}

/// Rotates, shifts, SWAP, BIT, SET and RES on the register in bits 2-0 or on
/// [HL], with the bit index in bits 5-3; BIT writes nothing back.
pub open spec fn cb_spec(inst: Instruction, op: u8, r: Register, m: BusState) -> Outcome {
    let n = y_of(op) as u8;
    let z = z_of(op);
    let is_bit = inst == Instruction::BIT_N_R || inst == Instruction::BIT_N_HL;
    if cb_on_memory(inst) {
        let hl = r.hl_spec();
        let (v, f) = cb_value(inst, n, m.read(hl), r.flags);
        if is_bit {
            done(Register { flags: f, ..r }, m, 3)
        } else {
            done(Register { flags: f, ..r }, m.write(hl, v), 4)
        }
    } else if valid_r8(z) {
        let (v, f) = cb_value(inst, n, r.r8(z), r.flags);
        done(Register { flags: f, ..r.with_r8(z, v) }, m, 2)
    } else {
        bad_operand(r, m)
    }
}

fn cb_op(inst: Instruction) -> (r: (u8, bool))
    requires
        inst.is_cb(),
    ensures
        r.1 == cb_on_memory(inst),
        r.0 < 8 ==> rot_op_of(inst) == Some(r.0),
        r.0 == 8 ==> rot_op_of(inst) is None && (inst == Instruction::BIT_N_R || inst
            == Instruction::BIT_N_HL),
        r.0 == 9 ==> rot_op_of(inst) is None && (inst == Instruction::SET_R || inst
            == Instruction::SET_HL),
        r.0 == 10 ==> rot_op_of(inst) is None && (inst == Instruction::RES_R || inst
            == Instruction::RES_HL),
        r.0 <= 10,
{
    match inst {
        Instruction::RLC_R => (ROT_RLC, false),
        Instruction::RLC_HL => (ROT_RLC, true),
        Instruction::RRC_R => (ROT_RRC, false),
        Instruction::RRC_HL => (ROT_RRC, true),
        Instruction::RL_R => (ROT_RL, false),
        Instruction::RL_HL => (ROT_RL, true),
        Instruction::RR_R => (ROT_RR, false),
        Instruction::RR_HL => (ROT_RR, true),
        Instruction::SLA_R => (ROT_SLA, false),
        Instruction::SLA_HL => (ROT_SLA, true),
        Instruction::SRA_R => (ROT_SRA, false),
        Instruction::SRA_HL => (ROT_SRA, true),
        Instruction::SWAP_R => (ROT_SWAP, false),
        Instruction::SWAP_HL => (ROT_SWAP, true),
        Instruction::SRL_R => (ROT_SRL, false),
        Instruction::SRL_HL => (ROT_SRL, true),
        Instruction::BIT_N_R => (8, false),
        Instruction::BIT_N_HL => (8, true),
        Instruction::SET_R => (9, false),
        Instruction::SET_HL => (9, true),
        Instruction::RES_R => (10, false),
        _ => (10, true),
    }
}

fn cb_apply(inst: Instruction, n: u8, v: u8, f: Flags) -> (r: (u8, Flags))
    requires
        inst.is_cb(),
        n < 8,
    ensures
        r == cb_value(inst, n, v, f),
{
    let (k, _) = cb_op(inst);
    if k < 8 {
        let (nv, c) = rot(k, v, f.c);
        (nv, Flags { z: nv == 0, n: false, h: false, c })
    } else if k == 8 {
        (v, Flags { z: v & (1u8 << n) == 0, n: false, h: true, c: f.c })
    } else if k == 9 {
        (v | (1u8 << n), f)
    } else {
        (v & !(1u8 << n), f)
    }
}

fn cb(inst: Instruction, op: u8, reg: &mut Register, bus: &mut Bus) -> (r: GBResult<usize>)
    requires
        inst.is_cb(),
    ensures
        (Outcome { regs: *final(reg), bus: final(bus)@, result: r }) == cb_spec(
            inst,
            op,
            *old(reg),
            old(bus)@,
        ),
{
    let n = (op / 8) % 8;
    let z = (op % 8) as usize;
    let (_, mem) = cb_op(inst);
    let is_bit = inst == Instruction::BIT_N_R || inst == Instruction::BIT_N_HL;
    if mem {
        let hl = reg.hl();
        let (v, f) = cb_apply(inst, n, bus.read(hl), reg.flags);
        reg.flags = f;
        if is_bit {
            Ok(3)
        } else {
            bus.write(hl, v);
            Ok(4)
        }
    } else {
        let old_v = match reg.get_r8(z) {
            Ok(v) => v,
            Err(e) => return Err(e),
        };
        let (v, f) = cb_apply(inst, n, old_v, reg.flags);
        let _ = reg.set_r8(z, v);
        reg.flags = f;
        Ok(2)
    }
}


// ------------------------------------------------------------- control flow

pub open spec fn is_control(inst: Instruction) -> bool {
    matches!(
        inst,
        Instruction::NOP | Instruction::HALT | Instruction::STOP | Instruction::DI | Instruction::EI
            | Instruction::JP_NN | Instruction::JP_HL | Instruction::JP_F_NN
            | Instruction::JR_PC_DD | Instruction::JR_F_PC_DD | Instruction::CALL_NN
            | Instruction::CALL_F_NN | Instruction::RET | Instruction::RET_F | Instruction::RETI
            | Instruction::RST
    )
}

/// CALL: push the address after the instruction, then jump.
pub open spec fn call_spec(r: Register, m: BusState) -> Outcome {
    let r1 = adv(adv(r));
    let (r2, m2) = push_spec(r1, m, r1.pc);
    done(Register { pc: imm16(r, m), ..r2 }, m2, 6)
}

/// RET: pop PC.
pub open spec fn ret_spec(r: Register, m: BusState, cycles: usize) -> Outcome {
    done(Register { pc: pop_value(r, m), ..pop_regs(r) }, m, cycles)
}

/// Jumps, relative jumps, calls, returns and restarts; conditional forms test
/// the condition in bits 4-3 and cost extra cycles only when taken. NOP,
/// HALT, DI and EI change nothing here (the driver owns those states); STOP
/// skips its second byte.
pub open spec fn control_spec(inst: Instruction, op: u8, r: Register, m: BusState) -> Outcome {
    let taken = cond(r.flags, y_of(op) % 4);
    match inst {
        Instruction::STOP => done(adv(r), m, 1),
        Instruction::JP_NN => done(Register { pc: imm16(r, m), ..r }, m, 4),
        Instruction::JP_HL => done(Register { pc: r.hl_spec(), ..r }, m, 1),
        Instruction::JP_F_NN => if taken {
            done(Register { pc: imm16(r, m), ..r }, m, 4)
        } else {
            done(adv(adv(r)), m, 3)
        },
        Instruction::JR_PC_DD => done(Register { pc: offset16(inc16(r.pc), imm8(r, m)), ..r }, m, 3),
        Instruction::JR_F_PC_DD => if taken {
            done(Register { pc: offset16(inc16(r.pc), imm8(r, m)), ..r }, m, 3)
        } else {
            done(adv(r), m, 2)
        },
        Instruction::CALL_NN => call_spec(r, m),
        Instruction::CALL_F_NN => if taken {
            call_spec(r, m)
        } else {
            done(adv(adv(r)), m, 3)
        },
        Instruction::RET | Instruction::RETI => ret_spec(r, m, 4),
        Instruction::RET_F => if taken {
            ret_spec(r, m, 5)
        } else {
            done(r, m, 2)
        },
        Instruction::RST => {
            let (r1, m1) = push_spec(r, m, r.pc);
            done(Register { pc: (y_of(op) * 8) as u16, ..r1 }, m1, 4)
        },
        _ => done(r, m, 1),
    }
}

fn condition(f: Flags, cc: u8) -> (r: bool)
    requires
        cc < 4,
    ensures
        r == cond(f, cc as usize),
{
    if cc == 0 {
        !f.z
    } else if cc == 1 {
        f.z
    } else if cc == 2 {
        !f.c
    } else {
        f.c
    }
}

#[verifier::rlimit(80)]
fn control(inst: Instruction, op: u8, reg: &mut Register, bus: &mut Bus) -> (r: GBResult<usize>)
    requires
        is_control(inst),
    ensures
        (Outcome { regs: *final(reg), bus: final(bus)@, result: r }) == control_spec(
            inst,
            op,
            *old(reg),
            old(bus)@,
        ),
{
    let y = (op / 8) % 8;
    let taken = condition(reg.flags, y % 4);
    match inst {
        Instruction::STOP => {
            let _ = fetch8(reg, bus);
            Ok(1)
        },
        Instruction::JP_NN => {
            reg.pc = fetch16(reg, bus);
            Ok(4)
        },
        Instruction::JP_HL => {
            reg.pc = reg.hl();
            Ok(1)
        },
        Instruction::JP_F_NN => {
            let nn = fetch16(reg, bus);
            if taken {
                reg.pc = nn;
                Ok(4)
            } else {
                Ok(3)
            }
        },
        Instruction::JR_PC_DD | Instruction::JR_F_PC_DD => {
            let e = fetch8(reg, bus);
            if inst == Instruction::JR_PC_DD || taken {
                reg.pc = offset(reg.pc, e);
                Ok(3)
            } else {
                Ok(2)
            }
        },
        Instruction::CALL_NN | Instruction::CALL_F_NN => {
            let nn = fetch16(reg, bus);
            if inst == Instruction::CALL_NN || taken {
                let ret = reg.pc;
                push16(reg, bus, ret);
                reg.pc = nn;
                Ok(6)
            } else {
                Ok(3)
            }
        },
        Instruction::RET | Instruction::RETI => {
            reg.pc = pop16(reg, bus);
            Ok(4)
        },
        Instruction::RET_F => {
            if taken {
                reg.pc = pop16(reg, bus);
                Ok(5)
            } else {
                Ok(2)
            }
        },
        Instruction::RST => {
            let ret = reg.pc;
            push16(reg, bus, ret);
            reg.pc = y as u16 * 8;
            Ok(4)
        },
        _ => Ok(1),
    }
}

// ----------------------------------------------------------------- dispatch

/// What executing `inst`, fetched as opcode byte `op` (PC already past it),
/// does to the registers and the bus. The prefix tag fetches the second byte,
/// decodes it from the second table and executes that.
#[verifier::opaque]
pub open spec fn exec_spec(inst: Instruction, op: u8, r: Register, m: BusState) -> Outcome {
    if is_load8(inst) {
        load8_spec(inst, op, r, m)
    } else if is_load16(inst) {
        load16_spec(inst, op, r, m)
    } else if is_alu8(inst) {
        alu8_spec(inst, op, r, m)
    } else if is_misc8(inst) {
        misc8_spec(inst, op, r, m)
    } else if is_arith16(inst) {
        arith16_spec(inst, op, r, m)
    } else if inst.is_cb() {
        cb_spec(inst, op, r, m)
    } else if inst == Instruction::PREFIX {
        let cb = imm8(r, m);
        cb_spec(decode_cb_spec(cb), cb, adv(r), m)
    } else {
        control_spec(inst, op, r, m)
    }
}

/// Executes `inst`, fetched as opcode byte `op`, against the registers and
/// the bus; returns the machine cycles it took.
pub fn execute(inst: Instruction, op: u8, reg: &mut Register, bus: &mut Bus) -> (r: GBResult<
    usize,
>)
    ensures
        (Outcome { regs: *final(reg), bus: final(bus)@, result: r }) == exec_spec(
            inst,
            op,
            *old(reg),
            old(bus)@,
        ),
{
    reveal(exec_spec);
    match inst {
        Instruction::LD_R_R | Instruction::LD_R_N | Instruction::LD_R_HL | Instruction::LD_HL_R
        | Instruction::LD_HL_N | Instruction::LD_A_BC | Instruction::LD_A_DE
        | Instruction::LD_A_NN | Instruction::LD_BC_A | Instruction::LD_DE_A
        | Instruction::LD_NN_A | Instruction::LD_A_IO_N | Instruction::LD_IO_N_A
        | Instruction::LD_A_IO_C | Instruction::LD_IO_C_A | Instruction::LDI_HL_A
        | Instruction::LDI_A_HL | Instruction::LDD_HL_A | Instruction::LDD_A_HL => load8(
            inst,
            op,
            reg,
            bus,
        ),
        Instruction::LD_RR_NN | Instruction::LD_SP_HL | Instruction::LD_NN_SP
        | Instruction::PUSH_RR | Instruction::POP_RR => load16(inst, op, reg, bus),
        Instruction::ADD_A_R | Instruction::ADD_A_N | Instruction::ADD_A_HL | Instruction::ADC_A_R
        | Instruction::ADC_A_N | Instruction::ADC_A_HL | Instruction::SUB_R | Instruction::SUB_N
        | Instruction::SUB_HL | Instruction::SBC_A_R | Instruction::SBC_A_N
        | Instruction::SBC_A_HL | Instruction::AND_R | Instruction::AND_N | Instruction::AND_HL
        | Instruction::XOR_R | Instruction::XOR_N | Instruction::XOR_HL | Instruction::OR_R
        | Instruction::OR_N | Instruction::OR_HL | Instruction::CP_R | Instruction::CP_N
        | Instruction::CP_HL => alu8(inst, op, reg, bus),
        Instruction::INC_R | Instruction::INC_HL | Instruction::DEC_R | Instruction::DEC_HL
        | Instruction::DAA | Instruction::CPL | Instruction::SCF | Instruction::CCF
        | Instruction::RLCA | Instruction::RLA | Instruction::RRCA | Instruction::RRA => misc8(
            inst,
            op,
            reg,
            bus,
        ),
        Instruction::ADD_HL_RR | Instruction::INC_RR | Instruction::DEC_RR
        | Instruction::ADD_SP_DD | Instruction::LD_HL_SP_DD => arith16(inst, op, reg, bus),
        Instruction::RLC_R | Instruction::RLC_HL | Instruction::RRC_R | Instruction::RRC_HL
        | Instruction::RL_R | Instruction::RL_HL | Instruction::RR_R | Instruction::RR_HL
        | Instruction::SLA_R | Instruction::SLA_HL | Instruction::SRA_R | Instruction::SRA_HL
        | Instruction::SWAP_R | Instruction::SWAP_HL | Instruction::SRL_R | Instruction::SRL_HL
        | Instruction::BIT_N_R | Instruction::BIT_N_HL | Instruction::SET_R
        | Instruction::SET_HL | Instruction::RES_R | Instruction::RES_HL => cb(
            inst,
            op,
            reg,
            bus,
        ),
        Instruction::PREFIX => {
            let second = fetch8(reg, bus);
            let cb_inst = Instruction::from_cb(second);
            proof {
                crate::cpu::instruction::lemma_decode_cb_total(second);
            }
            cb(cb_inst, second, reg, bus)
        },
        _ => control(inst, op, reg, bus),
    }
}


/// The operand fields of a decoded opcode name registers wherever its tag
/// reads them as registers.
proof fn lemma_decoded_operands(b: u8)
    requires
        decode_spec(b) is Some,
    ensures
        ({
            let i = decode_spec(b)->Some_0;
            &&& i == Instruction::LD_R_R ==> valid_r8(y_of(b)) && valid_r8(z_of(b))
            &&& (i == Instruction::LD_R_N || i == Instruction::LD_R_HL || i == Instruction::INC_R
                || i == Instruction::DEC_R) ==> valid_r8(y_of(b))
            &&& (i == Instruction::LD_HL_R || (is_alu8(i) && alu_form_of(i) == 0)) ==> valid_r8(
                z_of(b),
            )
            &&& !i.is_cb()
        }),
{
}

/// The register forms of the second table name a register in bits 2-0.
proof fn lemma_decoded_cb_operands(b: u8)
    ensures
        !cb_on_memory(decode_cb_spec(b)) ==> valid_r8(z_of(b)),
{
}

/// The decoder and the executor agree: an opcode executed as the tag it
/// decodes to never meets an operand index outside its valid set, so
/// executing it always succeeds.
#[verifier::rlimit(100)]
pub proof fn lemma_decoded_never_fails(b: u8, r: Register, m: BusState)
    requires
        decode_spec(b) is Some,
    ensures
        exec_spec(decode_spec(b)->Some_0, b, r, m).result is Ok,
{
    reveal(exec_spec);
    let i = decode_spec(b)->Some_0;
    lemma_decoded_operands(b);
    if is_load8(i) {
        assert(load8_spec(i, b, r, m).result is Ok);
    } else if is_load16(i) {
        assert(load16_spec(i, b, r, m).result is Ok);
    } else if is_alu8(i) {
        assert(alu8_spec(i, b, r, m).result is Ok);
    } else if is_misc8(i) {
        assert(misc8_spec(i, b, r, m).result is Ok);
    } else if is_arith16(i) {
        assert(arith16_spec(i, b, r, m).result is Ok);
    } else if i == Instruction::PREFIX {
        let cb = imm8(r, m);
        lemma_decoded_cb_operands(cb);
        assert(cb_spec(decode_cb_spec(cb), cb, adv(r), m).result is Ok);
    } else {
        assert(control_spec(i, b, r, m).result is Ok);
    }
}

} // verus!
