use gbcore::cartridge::Cartridge;
use gbcore::cpu::bus::Bus;
use gbcore::cpu::register::Register;
use gbcore::device::Device;
use gbcore::error::GBError;
use gbcore::mem::ram::Ram;
use gbcore::mem::rom::Rom;
use gbcore::timer::Timer;

fn plain_bus() -> Bus {
    let cart = Cartridge::new(Rom::new(vec![0x11u8; 0x8000]), Ram::new(vec![0u8; 0x2000]), false, false)
        .unwrap();
    Bus::new(Ram::new(vec![0u8; 0x2000]), Ram::new(vec![0u8; 0x7f]), cart, Timer::new())
}

#[test]
fn timer_fastest_rate_steps_every_four_cycles() {
    let mut t = Timer::new();
    t.write(0xff07, 0x05);
    t.tick(3);
    assert_eq!(t.read(0xff05), 0);
    t.tick(1);
    assert_eq!(t.read(0xff05), 1);
    t.tick(4 * 10);
    assert_eq!(t.read(0xff05), 11);
    assert_eq!(t.read(0xff0f), 0xe0);
}

#[test]
fn timer_overflow_reloads_and_requests_once() {
    let mut t = Timer::new();
    t.write(0xff07, 0x05);
    t.write(0xff06, 0x10);
    t.write(0xff05, 0xfe);
    t.tick(4);
    assert_eq!(t.read(0xff05), 0xff);
    assert_eq!(t.read(0xff0f) & 0x04, 0);
    t.tick(4);
    assert_eq!(t.read(0xff05), 0x10);
    assert_eq!(t.read(0xff0f) & 0x04, 0x04);
    t.write(0xff0f, 0x00);
    t.tick(4);
    assert_eq!(t.read(0xff05), 0x11);
    assert_eq!(t.read(0xff0f) & 0x04, 0);
}

#[test]
fn timer_split_calls_match_one_call() {
    let mut a = Timer::new();
    let mut b = Timer::new();
    for t in [&mut a, &mut b] {
        t.write(0xff07, 0x05);
        t.write(0xff06, 0x80);
        t.write(0xff05, 0xf0);
    }
    for _ in 0..100 {
        a.tick(1);
    }
    b.tick(100);
    for addr in [0xff04u16, 0xff05, 0xff06, 0xff07, 0xff0f] {
        assert_eq!(a.read(addr), b.read(addr));
    }
    assert_eq!(a.read(0xff05), 0x80 + (100 / 4 - 16));
}

#[test]
fn timer_disabled_and_slow_rates() {
    let mut t = Timer::new();
    t.tick(1000);
    assert_eq!(t.read(0xff05), 0);
    assert_eq!(t.read(0xff04), (1000 / 64) as u8);
    t.write(0xff04, 0x77);
    assert_eq!(t.read(0xff04), 0);
    t.write(0xff07, 0x04);
    t.tick(255);
    assert_eq!(t.read(0xff05), 0);
    t.tick(1);
    assert_eq!(t.read(0xff05), 1);
    assert_eq!(t.read(0xff07), 0xfc);
}

#[test]
fn echo_ram_mirrors_working_ram() {
    let mut bus = plain_bus();
    bus.write(0xc123, 0x42);
    assert_eq!(bus.read(0xe123), 0x42);
    bus.write(0xfdff, 0x24);
    assert_eq!(bus.read(0xddff), 0x24);
}

#[test]
fn unbacked_addresses_read_open_bus() {
    let mut bus = plain_bus();
    for addr in [0x8000u16, 0x9fff, 0xfe00, 0xfea0, 0xff00, 0xff7f] {
        bus.write(addr, 0x00);
        assert_eq!(bus.read(addr), 0xff);
    }
    bus.write(0x0000, 0x00);
    assert_eq!(bus.read(0x0000), 0x11);
}

#[test]
fn high_ram_and_interrupt_registers() {
    let mut bus = plain_bus();
    bus.write(0xff80, 0x99);
    bus.write(0xfffe, 0x98);
    assert_eq!(bus.read(0xff80), 0x99);
    assert_eq!(bus.read(0xfffe), 0x98);
    bus.write(0xffff, 0x1f);
    assert_eq!(bus.read(0xffff), 0x1f);
    bus.request_interrupt(3);
    assert_eq!(bus.read(0xff0f), 0xe8);
    assert_eq!(bus.pending_interrupts(), 0x08);
    bus.acknowledge_interrupt(3);
    assert_eq!(bus.pending_interrupts(), 0);
}

#[test]
fn cartridge_ram_disabled_reads_open_bus() {
    let mut rom = vec![0u8; 0x10000];
    for bank in 0..4 {
        rom[bank * 0x4000] = bank as u8;
    }
    let mut cart = Cartridge::from_image(rom, Some(vec![0u8; 0x2000]), true).unwrap();
    cart.write(0xa000, 0x55);
    assert_eq!(cart.read(0xa000), 0xff);
    cart.write(0x0000, 0x0a);
    cart.write(0xa000, 0x55);
    assert_eq!(cart.read(0xa000), 0x55);
    cart.write(0x0000, 0x00);
    assert_eq!(cart.read(0xa000), 0xff);
}

#[test]
fn cartridge_bank_switching() {
    let mut rom = vec![0u8; 0x10000];
    for bank in 0..4 {
        rom[bank * 0x4000] = bank as u8;
    }
    let mut cart = Cartridge::from_image(rom, None, true).unwrap();
    assert_eq!(cart.read(0x4000), 1);
    cart.write(0x2000, 3);
    assert_eq!(cart.read(0x4000), 3);
    cart.write(0x2000, 0);
    assert_eq!(cart.read(0x4000), 1);
    assert_eq!(cart.read(0x0000), 0);
}

#[test]
fn rom_only_cartridge_ignores_control_writes() {
    let mut rom = vec![0u8; 0x8000];
    rom[0x4000] = 0x42;
    let mut cart = Cartridge::from_image(rom, None, false).unwrap();
    cart.write(0x2000, 3);
    assert_eq!(cart.read(0x4000), 0x42);
    assert_eq!(cart.read(0xa000), 0xff);
}

#[test]
fn new_rejects_short_rom() {
    let r = Cartridge::new(Rom::new(Vec::new()), Ram::new(Vec::new()), false, false);
    assert_eq!(r.err(), Some(GBError::MalformedCartridgeImage));
    let r = Cartridge::new(Rom::new(vec![0u8; 0x4000]), Ram::new(Vec::new()), true, false);
    assert_eq!(r.err(), Some(GBError::MalformedCartridgeImage));
    let r = Cartridge::new(Rom::new(vec![0u8; 0x8000]), Ram::new(Vec::new()), false, false);
    assert!(r.is_ok());
}

#[test]
fn malformed_images_are_rejected() {
    assert_eq!(
        Cartridge::from_image(vec![0u8; 0x4000], None, false).err(),
        Some(GBError::MalformedCartridgeImage)
    );
    assert_eq!(
        Cartridge::from_image(vec![0u8; 0x9000], None, true).err(),
        Some(GBError::MalformedCartridgeImage)
    );
    assert_eq!(
        Cartridge::from_image(vec![0u8; 0x10000], None, false).err(),
        Some(GBError::MalformedCartridgeImage)
    );
    assert!(Cartridge::from_image(vec![0u8; 0x10000], None, true).is_ok());
}

#[test]
fn memories_answer_past_their_end() {
    let mut ram = Ram::new(vec![1u8, 2, 3]);
    ram.write(1, 9);
    ram.write(7, 9);
    assert_eq!(ram.read(1), 9);
    assert_eq!(ram.read(7), 0xff);
    assert_eq!(ram.len(), 3);
    let mut rom = Rom::new(vec![5u8]);
    rom.write(0, 6);
    assert_eq!(rom.read(0), 5);
    assert_eq!(rom.read(1), 0xff);
}

#[test]
fn register_pairs_and_flag_nibble() {
    let mut r = Register::new();
    r.set_f(0xff);
    assert_eq!(r.f(), 0xf0);
    r.set_af(0x12ff);
    assert_eq!(r.af(), 0x12f0);
    r.set_bc(0xbeef);
    assert_eq!((r.b(), r.c()), (0xbe, 0xef));
    r.set_de(0x1234);
    r.set_hl(0x5678);
    assert_eq!(r.get_r16(1), Ok(0x1234));
    assert_eq!(r.get_r16(2), Ok(0x5678));
    assert_eq!(r.get_r16(4), Err(GBError::InvalidOperandIndex));
    assert_eq!(r.set_r8(7, 0x33), Ok(()));
    assert_eq!(r.get_r8(7), Ok(0x33));
    assert_eq!(r.get_r8(6), Err(GBError::InvalidOperandIndex));
    assert_eq!(r.set_r8(8, 1), Err(GBError::InvalidOperandIndex));
}

#[test]
fn error_messages() {
    assert_eq!(GBError::UnmappedOpcode(0xd3).message(), "Instruction not found.");
    assert_eq!(GBError::InvalidOperandIndex.message(), "Invalid operand index.");
    assert_eq!(GBError::MalformedCartridgeImage.message(), "Malformed cartridge image.");
}
