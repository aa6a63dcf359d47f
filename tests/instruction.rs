use gbcore::cartridge::Cartridge;
use gbcore::cpu::bus::Bus;
use gbcore::cpu::instruction::Instruction;
use gbcore::cpu::register::Register;
use gbcore::error::GBError;
use gbcore::mem::ram::Ram;
use gbcore::mem::rom::Rom;
use gbcore::timer::Timer;

#[test]
fn test_instruction_from() {
    assert_eq!(Instruction::from(0x20).unwrap(), Instruction::JR_F_PC_DD);
    assert_eq!(Instruction::from(0x94).unwrap(), Instruction::SUB_R);
    assert_eq!(Instruction::from(0x86).unwrap(), Instruction::ADD_A_HL);
    assert_eq!(Instruction::from(0xc6).unwrap(), Instruction::ADD_A_N);
    assert_eq!(Instruction::from(0xf8).unwrap(), Instruction::LD_HL_SP_DD);
    assert_eq!(Instruction::from(0x07).unwrap(), Instruction::RLCA);
    assert_eq!(Instruction::from(0x69).unwrap(), Instruction::LD_R_R);
    assert_eq!(Instruction::from(0x0b).unwrap(), Instruction::DEC_RR);
    assert_eq!(Instruction::from(0x29).unwrap(), Instruction::ADD_HL_RR);
    assert_eq!(Instruction::from(0x34).unwrap(), Instruction::INC_HL);
    assert_eq!(Instruction::from(0xe8).unwrap(), Instruction::ADD_SP_DD);
    assert_eq!(Instruction::from(0xf8).unwrap(), Instruction::LD_HL_SP_DD);
    assert_eq!(Instruction::from(0xf0).unwrap(), Instruction::LD_A_IO_N);
    assert_eq!(Instruction::from(0xc1).unwrap(), Instruction::POP_RR);
    assert_eq!(Instruction::from(0xe5).unwrap(), Instruction::PUSH_RR);
    assert_eq!(Instruction::from(0xf9).unwrap(), Instruction::LD_SP_HL);
    assert_eq!(Instruction::from(0xca).unwrap(), Instruction::JP_F_NN);
    assert_eq!(Instruction::from(0xc3).unwrap(), Instruction::JP_NN);
    assert_eq!(Instruction::from(0xe9).unwrap(), Instruction::JP_HL);
    assert_eq!(Instruction::from(0xc0).unwrap(), Instruction::RET_F);
    assert_eq!(Instruction::from(0xc9).unwrap(), Instruction::RET);
    assert_eq!(Instruction::from(0xd9).unwrap(), Instruction::RETI);
    assert_eq!(Instruction::from(0xb9).unwrap(), Instruction::CP_R);
    assert_eq!(Instruction::from(0xe6).unwrap(), Instruction::AND_N);
    assert_eq!(Instruction::from(0xcd).unwrap(), Instruction::CALL_NN);
    assert_eq!(Instruction::from(0xf3).unwrap(), Instruction::DI);
    assert_eq!(Instruction::from(0xcd).unwrap(), Instruction::CALL_NN);
    assert_eq!(Instruction::from(0xfa).unwrap(), Instruction::LD_A_NN);
    assert_eq!(Instruction::from(0x01).unwrap(), Instruction::LD_RR_NN);
    assert_eq!(Instruction::from(0x08).unwrap(), Instruction::LD_NN_SP);
}

#[test]
fn test_instruction_function() {
    let mut reg = Register::new();
    let ram = Ram::new(Vec::new());
    let hram = Ram::new(Vec::new());
    let cart_rom = Rom::new(vec![0u8; 0x8000]);
    let cart_ram = Ram::new(Vec::new());
    let cart = Cartridge::new(cart_rom, cart_ram, false, false).unwrap();
    let timer = Timer::new();
    let mut bus = Bus::new(ram, hram, cart, timer);
    let inst = Instruction::NOP;
    let func = inst.function().unwrap();
    let res = func.call(0u8, &mut reg, &mut bus).is_ok();
    assert!(res);
    assert_eq!(true, true)
}

#[test]
fn decode_fixed_points() {
    assert_eq!(Instruction::from(0x00), Ok(Instruction::NOP));
    assert_eq!(Instruction::from(0x76), Ok(Instruction::HALT));
    assert_eq!(Instruction::from(0xcb), Ok(Instruction::PREFIX));
    assert_eq!(Instruction::from(0xc3), Ok(Instruction::JP_NN));
    assert_eq!(Instruction::from(0x10), Ok(Instruction::STOP));
    assert_eq!(Instruction::from(0x36), Ok(Instruction::LD_HL_N));
    assert_eq!(Instruction::from(0xf2), Ok(Instruction::LD_A_IO_C));
    assert_eq!(Instruction::from(0xe2), Ok(Instruction::LD_IO_C_A));
    assert_eq!(Instruction::from(0xff), Ok(Instruction::RST));
}

#[test]
fn decode_classifies_every_byte() {
    let unmapped = [0xd3u8, 0xdb, 0xdd, 0xe3, 0xe4, 0xeb, 0xec, 0xed, 0xf4, 0xfc, 0xfd];
    for b in 0..=255u8 {
        match Instruction::from(b) {
            Ok(_) => assert!(!unmapped.contains(&b)),
            Err(e) => {
                assert!(unmapped.contains(&b));
                assert_eq!(e, GBError::UnmappedOpcode(b));
            }
        }
    }
}

#[test]
fn decode_second_table() {
    assert_eq!(Instruction::from_cb(0x00), Instruction::RLC_R);
    assert_eq!(Instruction::from_cb(0x06), Instruction::RLC_HL);
    assert_eq!(Instruction::from_cb(0x37), Instruction::SWAP_R);
    assert_eq!(Instruction::from_cb(0x3e), Instruction::SRL_HL);
    assert_eq!(Instruction::from_cb(0x7c), Instruction::BIT_N_R);
    assert_eq!(Instruction::from_cb(0x46), Instruction::BIT_N_HL);
    assert_eq!(Instruction::from_cb(0x87), Instruction::RES_R);
    assert_eq!(Instruction::from_cb(0xfe), Instruction::SET_HL);
}

#[test]
fn mismatched_operand_is_reported() {
    let mut reg = Register::new();
    let cart = Cartridge::new(Rom::new(vec![0u8; 0x8000]), Ram::new(Vec::new()), false, false)
        .unwrap();
    let mut bus = Bus::new(Ram::new(Vec::new()), Ram::new(Vec::new()), cart, Timer::new());
    let func = Instruction::LD_R_R.function().unwrap();
    assert_eq!(func.call(0x76, &mut reg, &mut bus), Err(GBError::InvalidOperandIndex));
    assert_eq!(reg, Register::new());
}
