//! Instruction tags and the two decode tables.
use vstd::prelude::*;
use crate::cpu::bus::Bus;
use crate::cpu::exec::{Outcome, exec_spec, execute};
use crate::cpu::register::Register;
use crate::error::{GBError, GBResult};

verus! {

/// An operation kind; opcodes that differ only in the register, pair,
/// condition, bit index or vector in their bit fields share a tag.
#[allow(non_camel_case_types)]
#[derive(Debug, Clone, Copy, PartialEq, Eq, Structural)]
pub enum Instruction {
    // 8-bit loads
    LD_R_R,
    LD_R_N,
    LD_R_HL,
    LD_HL_R,
    LD_HL_N,
    LD_A_BC,
    LD_A_DE,
    LD_A_NN,
    LD_BC_A,
    LD_DE_A,
    LD_NN_A,
    LD_A_IO_N,
    LD_IO_N_A,
    LD_A_IO_C,
    LD_IO_C_A,
    LDI_HL_A,
    LDI_A_HL,
    LDD_HL_A,
    LDD_A_HL,
    // 16-bit loads
    LD_RR_NN,
    LD_SP_HL,
    LD_NN_SP,
    PUSH_RR,
    POP_RR,
    // 8-bit arithmetic and logic
    ADD_A_R,
    ADD_A_N,
    ADD_A_HL,
    ADC_A_R,
    ADC_A_N,
    ADC_A_HL,
    SUB_R,
    SUB_N,
    SUB_HL,
    SBC_A_R,
    SBC_A_N,
    SBC_A_HL,
    AND_R,
    AND_N,
    AND_HL,
    XOR_R,
    XOR_N,
    XOR_HL,
    OR_R,
    OR_N,
    OR_HL,
    CP_R,
    CP_N,
    CP_HL,
    INC_R,
    INC_HL,
    DEC_R,
    DEC_HL,
    DAA,
    CPL,
    // 16-bit arithmetic
    ADD_HL_RR,
    INC_RR,
    DEC_RR,
    ADD_SP_DD,
    LD_HL_SP_DD,
    // rotates and shifts
    RLCA,
    RLA,
    RRCA,
    RRA,
    RLC_R,
    RLC_HL,
    RL_R,
    RL_HL,
    RRC_R,
    RRC_HL,
    RR_R,
    RR_HL,
    SLA_R,
    SLA_HL,
    SWAP_R,
    SWAP_HL,
    SRA_R,
    SRA_HL,
    SRL_R,
    SRL_HL,
    // single-bit operations
    BIT_N_R,
    BIT_N_HL,
    SET_R,
    SET_HL,
    RES_R,
    RES_HL,
    // CPU control
    CCF,
    SCF,
    NOP,
    HALT,
    STOP,
    DI,
    EI,
    // jumps, calls, returns
    JP_NN,
    JP_HL,
    JP_F_NN,
    JR_PC_DD,
    JR_F_PC_DD,
    CALL_NN,
    CALL_F_NN,
    RET,
    RET_F,
    RETI,
    RST,
    /// The marker of the second table.
    PREFIX,
}

/// The main table by the opcode's bit fields: x = bits 7-6, y = bits 5-3,
/// z = bits 2-0; `None` for the bytes with no instruction on this family.
pub open spec fn decode_spec(b: u8) -> Option<Instruction> {
    let x = b / 64;
    let y = (b / 8) % 8;
    let z = b % 8;
    if x == 0 {
        if z == 0 {
            Some(
                if y == 0 {
                    Instruction::NOP
                } else if y == 1 {
                    Instruction::LD_NN_SP
                } else if y == 2 {
                    Instruction::STOP
                } else if y == 3 {
                    Instruction::JR_PC_DD
                } else {
                    Instruction::JR_F_PC_DD
                },
            )
        } else if z == 1 {
            Some(if y % 2 == 0 { Instruction::LD_RR_NN } else { Instruction::ADD_HL_RR })
        } else if z == 2 {
            Some(
                if y == 0 {
                    Instruction::LD_BC_A
                } else if y == 1 {
                    Instruction::LD_A_BC
                } else if y == 2 {
                    Instruction::LD_DE_A
                } else if y == 3 {
                    Instruction::LD_A_DE
                } else if y == 4 {
                    Instruction::LDI_HL_A
                } else if y == 5 {
                    Instruction::LDI_A_HL
                } else if y == 6 {
                    Instruction::LDD_HL_A
                } else {
                    Instruction::LDD_A_HL
                },
            )
        } else if z == 3 {
            Some(if y % 2 == 0 { Instruction::INC_RR } else { Instruction::DEC_RR })
        } else if z == 4 {
            Some(if y == 6 { Instruction::INC_HL } else { Instruction::INC_R })
        } else if z == 5 {
            Some(if y == 6 { Instruction::DEC_HL } else { Instruction::DEC_R })
        } else if z == 6 {
            Some(if y == 6 { Instruction::LD_HL_N } else { Instruction::LD_R_N })
        } else {
            Some(
                if y == 0 {
                    Instruction::RLCA
                } else if y == 1 {
                    Instruction::RRCA
                } else if y == 2 {
                    Instruction::RLA
                } else if y == 3 {
                    Instruction::RRA
                } else if y == 4 {
                    Instruction::DAA
                } else if y == 5 {
                    Instruction::CPL
                } else if y == 6 {
                    Instruction::SCF
                } else {
                    Instruction::CCF
                },
            )
        }
    } else if x == 1 {
        Some(
            if y == 6 && z == 6 {
                Instruction::HALT
            } else if z == 6 {
                Instruction::LD_R_HL
            } else if y == 6 {
                Instruction::LD_HL_R
            } else {
                Instruction::LD_R_R
            },
        )
    } else if x == 2 {
        Some(alu_tag(y, z == 6))
    } else {
        if z == 0 {
            Some(
                if y < 4 {
                    Instruction::RET_F
                } else if y == 4 {
                    Instruction::LD_IO_N_A
                } else if y == 5 {
                    Instruction::ADD_SP_DD
                } else if y == 6 {
                    Instruction::LD_A_IO_N
                } else {
                    Instruction::LD_HL_SP_DD
                },
            )
        } else if z == 1 {
            Some(
                if y % 2 == 0 {
                    Instruction::POP_RR
                } else if y == 1 {
                    Instruction::RET
                } else if y == 3 {
                    Instruction::RETI
                } else if y == 5 {
                    Instruction::JP_HL
                } else {
                    Instruction::LD_SP_HL
                },
            )
        } else if z == 2 {
            Some(
                if y < 4 {
                    Instruction::JP_F_NN
                } else if y == 4 {
                    Instruction::LD_IO_C_A
                } else if y == 5 {
                    Instruction::LD_NN_A
                } else if y == 6 {
                    Instruction::LD_A_IO_C
                } else {
                    Instruction::LD_A_NN
                },
            )
        } else if z == 3 {
            if y == 0 {
                Some(Instruction::JP_NN)
            } else if y == 1 {
                Some(Instruction::PREFIX)
            } else if y == 6 {
                Some(Instruction::DI)
            } else if y == 7 {
                Some(Instruction::EI)
            } else {
                None
            }
        } else if z == 4 {
            if y < 4 {
                Some(Instruction::CALL_F_NN)
            } else {
                None
            }
        } else if z == 5 {
            if y % 2 == 0 {
                Some(Instruction::PUSH_RR)
            } else if y == 1 {
                Some(Instruction::CALL_NN)
            } else {
                None
            }
        } else if z == 6 {
            Some(alu_imm_tag(y))
        } else {
            Some(Instruction::RST)
        }
    }
}

/// The accumulator operation `y` on a register, or on `[HL]` when `mem`.
pub open spec fn alu_tag(y: u8, mem: bool) -> Instruction {
    if y == 0 {
        if mem { Instruction::ADD_A_HL } else { Instruction::ADD_A_R }
    } else if y == 1 {
        if mem { Instruction::ADC_A_HL } else { Instruction::ADC_A_R }
    } else if y == 2 {
        if mem { Instruction::SUB_HL } else { Instruction::SUB_R }
    } else if y == 3 {
        if mem { Instruction::SBC_A_HL } else { Instruction::SBC_A_R }
    } else if y == 4 {
        if mem { Instruction::AND_HL } else { Instruction::AND_R }
    } else if y == 5 {
        if mem { Instruction::XOR_HL } else { Instruction::XOR_R }
    } else if y == 6 {
        if mem { Instruction::OR_HL } else { Instruction::OR_R }
    } else {
        if mem { Instruction::CP_HL } else { Instruction::CP_R }
    }
}

/// The accumulator operation `y` on an immediate byte.
pub open spec fn alu_imm_tag(y: u8) -> Instruction {
    if y == 0 {
        Instruction::ADD_A_N
    } else if y == 1 {
        Instruction::ADC_A_N
    } else if y == 2 {
        Instruction::SUB_N
    } else if y == 3 {
        Instruction::SBC_A_N
    } else if y == 4 {
        Instruction::AND_N
    } else if y == 5 {
        Instruction::XOR_N
    } else if y == 6 {
        Instruction::OR_N
    } else {
        Instruction::CP_N
    }
}

/// The second table, behind the prefix byte: every byte is an instruction.
pub open spec fn decode_cb_spec(b: u8) -> Instruction {
    let x = b / 64;
    let y = (b / 8) % 8;
    let mem = b % 8 == 6;
    if x == 0 {
        if y == 0 {
            if mem { Instruction::RLC_HL } else { Instruction::RLC_R }
        } else if y == 1 {
            if mem { Instruction::RRC_HL } else { Instruction::RRC_R }
        } else if y == 2 {
            if mem { Instruction::RL_HL } else { Instruction::RL_R }
        } else if y == 3 {
            if mem { Instruction::RR_HL } else { Instruction::RR_R }
        } else if y == 4 {
            if mem { Instruction::SLA_HL } else { Instruction::SLA_R }
        } else if y == 5 {
            if mem { Instruction::SRA_HL } else { Instruction::SRA_R }
        } else if y == 6 {
            if mem { Instruction::SWAP_HL } else { Instruction::SWAP_R }
        } else {
            if mem { Instruction::SRL_HL } else { Instruction::SRL_R }
        }
    } else if x == 1 {
        if mem { Instruction::BIT_N_HL } else { Instruction::BIT_N_R }
    } else if x == 2 {
        if mem { Instruction::RES_HL } else { Instruction::RES_R }
    } else {
        if mem { Instruction::SET_HL } else { Instruction::SET_R }
    }
}

/// What decoding `b` from the main table yields.
pub open spec fn decode_result(b: u8) -> GBResult<Instruction> {
    match decode_spec(b) {
        Some(i) => Ok(i),
        None => Err(GBError::UnmappedOpcode(b)),
    }
}

/// Every main-table byte decodes to a tag or to the unmapped-opcode failure
/// naming that byte; the no-operation, halt, prefix and absolute-jump bytes
/// decode to their tags, and exactly eleven bytes have no instruction.
pub proof fn lemma_decode_fixed_points(b: u8)
    ensures
        decode_result(b) is Ok || decode_result(b) == Err::<Instruction, GBError>(
            GBError::UnmappedOpcode(b),
        ),
        decode_spec(0x00) == Some(Instruction::NOP),
        decode_spec(0x76) == Some(Instruction::HALT),
        decode_spec(0xcb) == Some(Instruction::PREFIX),
        decode_spec(0xc3) == Some(Instruction::JP_NN),
        decode_spec(b) is None <==> (b == 0xd3 || b == 0xdb || b == 0xdd || b == 0xe3 || b == 0xe4
            || b == 0xeb || b == 0xec || b == 0xed || b == 0xf4 || b == 0xfc || b == 0xfd),
{
}

impl Instruction {
    /// Decodes a byte of the main table.
    pub fn from(inst: u8) -> (r: GBResult<Instruction>)
        ensures
            r == decode_result(inst),
    {
        match inst {
            0x00 => Ok(Instruction::NOP),
            0x76 => Ok(Instruction::HALT),
            0x10 => Ok(Instruction::STOP),
            // load
            0x01 | 0x11 | 0x21 | 0x31 => Ok(Instruction::LD_RR_NN),
            0x02 => Ok(Instruction::LD_BC_A),
            0x12 => Ok(Instruction::LD_DE_A),
            0x0a => Ok(Instruction::LD_A_BC),
            0x1a => Ok(Instruction::LD_A_DE),
            0x22 => Ok(Instruction::LDI_HL_A),
            0x32 => Ok(Instruction::LDD_HL_A),
            0x2a => Ok(Instruction::LDI_A_HL),
            0x3a => Ok(Instruction::LDD_A_HL),
            0x06 | 0x16 | 0x26 | 0x0e | 0x1e | 0x2e | 0x3e => Ok(Instruction::LD_R_N),
            0x36 => Ok(Instruction::LD_HL_N),
            0x08 => Ok(Instruction::LD_NN_SP),
            0x40..=0x45 | 0x47 | 0x48..=0x4d | 0x4f | 0x50..=0x55 | 0x57 | 0x58..=0x5d | 0x5f
            | 0x60..=0x65 | 0x67 | 0x68..=0x6d | 0x6f | 0x78..=0x7d | 0x7f => Ok(
                Instruction::LD_R_R,
            ),
            0x46 | 0x4e | 0x56 | 0x5e | 0x66 | 0x6e | 0x7e => Ok(Instruction::LD_R_HL),
            0x70..=0x75 | 0x77 => Ok(Instruction::LD_HL_R),
            0xe0 => Ok(Instruction::LD_IO_N_A),
            0xf0 => Ok(Instruction::LD_A_IO_N),
            0xe2 => Ok(Instruction::LD_IO_C_A),
            0xf2 => Ok(Instruction::LD_A_IO_C),
            0xf8 => Ok(Instruction::LD_HL_SP_DD),
            0xf9 => Ok(Instruction::LD_SP_HL),
            0xea => Ok(Instruction::LD_NN_A),
            0xfa => Ok(Instruction::LD_A_NN),
            // push/pop
            0xc1 | 0xd1 | 0xe1 | 0xf1 => Ok(Instruction::POP_RR),
            0xc5 | 0xd5 | 0xe5 | 0xf5 => Ok(Instruction::PUSH_RR),
            // arithmetic
            0x09 | 0x19 | 0x29 | 0x39 => Ok(Instruction::ADD_HL_RR),
            0x03 | 0x13 | 0x23 | 0x33 => Ok(Instruction::INC_RR),
            0x0b | 0x1b | 0x2b | 0x3b => Ok(Instruction::DEC_RR),
            0x34 => Ok(Instruction::INC_HL),
            0x04 | 0x14 | 0x24 | 0x0c | 0x1c | 0x2c | 0x3c => Ok(Instruction::INC_R),
            0x05 | 0x15 | 0x25 | 0x0d | 0x1d | 0x2d | 0x3d => Ok(Instruction::DEC_R),
            0x35 => Ok(Instruction::DEC_HL),
            0x80..=0x85 | 0x87 => Ok(Instruction::ADD_A_R),
            0x86 => Ok(Instruction::ADD_A_HL),
            0x88..=0x8d | 0x8f => Ok(Instruction::ADC_A_R),
            0x8e => Ok(Instruction::ADC_A_HL),
            0x90..=0x95 | 0x97 => Ok(Instruction::SUB_R),
            0x96 => Ok(Instruction::SUB_HL),
            0x98..=0x9d | 0x9f => Ok(Instruction::SBC_A_R),
            0x9e => Ok(Instruction::SBC_A_HL),
            0xc6 => Ok(Instruction::ADD_A_N),
            0xce => Ok(Instruction::ADC_A_N),
            0xd6 => Ok(Instruction::SUB_N),
            0xde => Ok(Instruction::SBC_A_N),
            0xe8 => Ok(Instruction::ADD_SP_DD),
            // logic
            0xa0..=0xa5 | 0xa7 => Ok(Instruction::AND_R),
            0xa6 => Ok(Instruction::AND_HL),
            0xa8..=0xad | 0xaf => Ok(Instruction::XOR_R),
            0xae => Ok(Instruction::XOR_HL),
            0xb0..=0xb5 | 0xb7 => Ok(Instruction::OR_R),
            0xb6 => Ok(Instruction::OR_HL),
            0xe6 => Ok(Instruction::AND_N),
            0xee => Ok(Instruction::XOR_N),
            0xf6 => Ok(Instruction::OR_N),
            // compare
            0xb8..=0xbd | 0xbf => Ok(Instruction::CP_R),
            0xbe => Ok(Instruction::CP_HL),
            0xfe => Ok(Instruction::CP_N),
            // rotate
            0x07 => Ok(Instruction::RLCA),
            0x17 => Ok(Instruction::RLA),
            0x0f => Ok(Instruction::RRCA),
            0x1f => Ok(Instruction::RRA),
            // jump
            0x18 => Ok(Instruction::JR_PC_DD),
            0x20 | 0x30 | 0x28 | 0x38 => Ok(Instruction::JR_F_PC_DD),
            0xc2 | 0xd2 | 0xca | 0xda => Ok(Instruction::JP_F_NN),
            0xc3 => Ok(Instruction::JP_NN),
            0xe9 => Ok(Instruction::JP_HL),
            // call
            0xcd => Ok(Instruction::CALL_NN),
            0xc4 | 0xcc | 0xd4 | 0xdc => Ok(Instruction::CALL_F_NN),
            // ret
            0xc9 => Ok(Instruction::RET),
            0xc0 | 0xd0 | 0xc8 | 0xd8 => Ok(Instruction::RET_F),
            0xd9 => Ok(Instruction::RETI),
            // reset
            0xc7 | 0xd7 | 0xe7 | 0xf7 | 0xcf | 0xdf | 0xef | 0xff => Ok(Instruction::RST),
            0xf3 => Ok(Instruction::DI),
            0xfb => Ok(Instruction::EI),
            0xcb => Ok(Instruction::PREFIX),
            0x27 => Ok(Instruction::DAA),
            0x2f => Ok(Instruction::CPL),
            0x37 => Ok(Instruction::SCF),
            0x3f => Ok(Instruction::CCF),
            _ => Err(GBError::UnmappedOpcode(inst)),
        }
    }

    /// Decodes a byte of the second table, the one behind the prefix byte.
    pub fn from_cb(inst: u8) -> (r: Instruction)
        ensures
            r == decode_cb_spec(inst),
    {
        let x = inst / 64;
        let y = (inst / 8) % 8;
        let mem = inst % 8 == 6;
        if x == 0 {
            if y == 0 {
                if mem { Instruction::RLC_HL } else { Instruction::RLC_R }
            } else if y == 1 {
                if mem { Instruction::RRC_HL } else { Instruction::RRC_R }
            } else if y == 2 {
                if mem { Instruction::RL_HL } else { Instruction::RL_R }
            } else if y == 3 {
                if mem { Instruction::RR_HL } else { Instruction::RR_R }
            } else if y == 4 {
                if mem { Instruction::SLA_HL } else { Instruction::SLA_R }
            } else if y == 5 {
                if mem { Instruction::SRA_HL } else { Instruction::SRA_R }
            } else if y == 6 {
                if mem { Instruction::SWAP_HL } else { Instruction::SWAP_R }
            } else {
                if mem { Instruction::SRL_HL } else { Instruction::SRL_R }
            }
        } else if x == 1 {
            if mem { Instruction::BIT_N_HL } else { Instruction::BIT_N_R }
        } else if x == 2 {
            if mem { Instruction::RES_HL } else { Instruction::RES_R }
        } else {
            if mem { Instruction::SET_HL } else { Instruction::SET_R }
        }
    }

    /// Whether the tag belongs to the second table.
    pub open spec fn is_cb(self) -> bool {
        match self {
            Instruction::RLC_R | Instruction::RLC_HL | Instruction::RRC_R | Instruction::RRC_HL
            | Instruction::RL_R | Instruction::RL_HL | Instruction::RR_R | Instruction::RR_HL
            | Instruction::SLA_R | Instruction::SLA_HL | Instruction::SRA_R
            | Instruction::SRA_HL | Instruction::SWAP_R | Instruction::SWAP_HL
            | Instruction::SRL_R | Instruction::SRL_HL | Instruction::BIT_N_R
            | Instruction::BIT_N_HL | Instruction::SET_R | Instruction::SET_HL
            | Instruction::RES_R | Instruction::RES_HL => true,
            _ => false,
        }
    }
}

/// Every byte of the second table decodes to one of its tags.
pub proof fn lemma_decode_cb_total(b: u8)
    ensures
        decode_cb_spec(b).is_cb(),
{
}


/// The executable semantics of one instruction tag.
#[derive(Debug, Clone, Copy, PartialEq, Eq, Structural)]
pub struct InstructionFn {
    pub inst: Instruction,
}

impl InstructionFn {
    /// Runs the instruction, fetched as opcode byte `op`, against the
    /// registers and the bus; returns the machine cycles it took.
    pub fn call(&self, op: u8, reg: &mut Register, bus: &mut Bus) -> (r: GBResult<usize>)
        ensures
            (Outcome { regs: *final(reg), bus: final(bus)@, result: r }) == exec_spec(
                self.inst,
                op,
                *old(reg),
                old(bus)@,
            ),
    {
        execute(self.inst, op, reg, bus)
    }
}

impl Instruction {
    /// The executable semantics of this tag.
    pub fn function(&self) -> (r: GBResult<InstructionFn>)
        ensures
            r == Ok::<InstructionFn, GBError>(InstructionFn { inst: *self }),
    {
        Ok(InstructionFn { inst: *self })
    }
}

} // verus!
