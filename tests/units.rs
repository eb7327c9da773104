use gbcore::bus::Bus;
use gbcore::bytes::SetBytes;
use gbcore::emu_debug::EmuDebug;
use gbcore::emulator::GBCore;
use gbcore::alu;
use gbcore::cart_info::{CartridgeInfo, HeaderError};
use gbcore::cartridge::{Cartridge, CartridgeError};
use gbcore::dma::DMA;
use gbcore::input::{Input, InputManager};
use gbcore::instruction::{AddressMode, ConditionType, Instruction, InstructionType, RegisterType};
use gbcore::io::IOManager;
use gbcore::lcd::{palette_shade, Mode, LCD};
use gbcore::mbc::{smallest_pow2_at_least, MBC1, MBC5};
use gbcore::oam_entry::OamEntry;
use gbcore::registers::Registers;

fn header_rom(cart_type: u8, rom_code: u8, ram_code: u8, size: usize) -> Vec<u8> {
    let mut rom = vec![0u8; size];
    let title = b"TETRIS";
    rom[0x134..0x134 + title.len()].copy_from_slice(title);
    rom[0x147] = cart_type;
    rom[0x148] = rom_code;
    rom[0x149] = ram_code;
    rom[0x14B] = 0x01;
    let mut sum: u8 = 0;
    for b in &rom[0x134..0x14D] {
        sum = sum.wrapping_sub(*b).wrapping_sub(1);
    }
    rom[0x14D] = sum;
    rom
}

#[test]
fn add_and_adc_flags() {
    assert_eq!(alu::add8(0x3A, 0xC6).0, 0x00);
    let f = alu::add8(0x3A, 0xC6).1;
    assert!(f.z && !f.n && f.h && f.c);
    let (r, f) = alu::adc8(0xE1, 0x0F, true);
    assert_eq!(r, 0xF1);
    assert!(!f.z && f.h && !f.c);
}

#[test]
fn sub_and_sbc_flags() {
    let (r, f) = alu::sub8(0x3E, 0x3E);
    assert_eq!(r, 0);
    assert!(f.z && f.n && !f.h && !f.c);
    let (r, f) = alu::sbc8(0x3B, 0x4F, true);
    assert_eq!(r, 0xEB);
    assert!(f.h && f.c && f.n);
}

#[test]
fn logic_ops() {
    let (r, f) = alu::and8(0x5A, 0x3F);
    assert_eq!(r, 0x1A);
    assert!(f.h && !f.c);
    assert_eq!(alu::xor8(0xFF, 0x0F).0, 0xF0);
    assert_eq!(alu::or8(0x50, 0x05).0, 0x55);
    assert!(alu::xor8(0xAA, 0xAA).1.z);
}

#[test]
fn inc_dec_keep_carry() {
    let (r, f) = alu::inc8(0x0F, true);
    assert_eq!(r, 0x10);
    assert!(f.h && f.c && !f.n);
    let (r, f) = alu::dec8(0x10, false);
    assert_eq!(r, 0x0F);
    assert!(f.h && f.n && !f.c);
    assert_eq!(alu::inc8(0xFF, false).0, 0);
    assert_eq!(alu::dec8(0x00, false).0, 0xFF);
}

#[test]
fn sixteen_bit_adds() {
    let (r, f) = alu::add16(0x8A23, 0x0605, true);
    assert_eq!(r, 0x9028);
    assert!(f.h && !f.c && f.z);
    let (r, f) = alu::add16(0x8A23, 0x8A23, false);
    assert_eq!(r, 0x1446);
    assert!(f.h && f.c);
    let (r, f) = alu::add_sp(0xFFF8, 0x02);
    assert_eq!(r, 0xFFFA);
    assert!(!f.h && !f.c);
    let (r, _) = alu::add_sp(0x0005, 0xFE);
    assert_eq!(r, 0x0003);
}

#[test]
fn rotates_and_shifts() {
    assert_eq!(alu::rlca(0x85).0, 0x0B);
    assert!(alu::rlca(0x85).1.c);
    assert_eq!(alu::rrca(0x3B).0, 0x9D);
    assert_eq!(alu::rla(0x95, true).0, 0x2B);
    assert_eq!(alu::rra(0x81, false).0, 0x40);
    assert_eq!(alu::cb_shift(5, 0x8A, false).0, 0xC5);
    assert_eq!(alu::cb_shift(6, 0xF0, true).0, 0x0F);
    assert!(!alu::cb_shift(6, 0xF0, true).1.c);
    assert_eq!(alu::cb_shift(7, 0x01, false).0, 0x00);
    assert!(alu::cb_shift(7, 0x01, false).1.z);
}

#[test]
fn bit_operations() {
    assert_eq!(alu::bit_set(7, 0x00), 0x80);
    assert_eq!(alu::bit_reset(0, 0xFF), 0xFE);
    assert!(alu::bit_test(7, 0x7F, false).z);
    assert!(!alu::bit_test(0, 0x01, false).z);
    assert_eq!(alu::pack_flags(alu::unpack_flags(0xB7)), 0xB0);
}

#[test]
fn daa_values() {
    let fl = alu::Flags { z: false, n: false, h: false, c: false };
    assert_eq!(alu::daa(0x7D, fl).0, 0x83);
    let fl = alu::Flags { z: false, n: false, h: false, c: false };
    assert_eq!(alu::daa(0x9A, fl), (0x00, alu::Flags { z: true, n: false, h: false, c: true }));
    let fl = alu::Flags { z: false, n: true, h: true, c: false };
    assert_eq!(alu::daa(0x0D, fl).0, 0x07);
}

#[test]
fn decode_regular_grid() {
    let i = Instruction::from_opcode(&0x41);
    assert_eq!(i.instruction_type, InstructionType::LD);
    assert_eq!(i.register_1, RegisterType::B);
    assert_eq!(i.register_2, RegisterType::C);
    assert_eq!(i.address_mode, AddressMode::R_R);
    let i = Instruction::from_opcode(&0x86);
    assert_eq!(i.instruction_type, InstructionType::ADD);
    assert_eq!(i.address_mode, AddressMode::R_MR);
    assert_eq!(i.register_2, RegisterType::HL);
    let i = Instruction::from_opcode(&0x70);
    assert_eq!(i.address_mode, AddressMode::MR_R);
    assert_eq!(Instruction::from_opcode(&0x76).instruction_type, InstructionType::HALT);
    assert_eq!(Instruction::from_opcode(&0xBF).instruction_type, InstructionType::CP);
}

#[test]
fn decode_table_entries() {
    let i = Instruction::from_opcode(&0xC3);
    assert_eq!(i.instruction_type, InstructionType::JP);
    assert_eq!(i.length, 3);
    assert_eq!((i.cycles, i.no_action_cycles), (16, 0));
    let i = Instruction::from_opcode(&0x20);
    assert_eq!(i.instruction_type, InstructionType::JR);
    assert_eq!(i.condition, ConditionType::NZ);
    assert_eq!((i.cycles, i.no_action_cycles), (12, 8));
    assert_eq!(Instruction::from_opcode(&0xFF).rst_vec, 0x38);
    assert_eq!(Instruction::from_opcode(&0xD3).instruction_type, InstructionType::NONE);
    assert_eq!(Instruction::from_opcode(&0x01).to_string(), "LD R_D16 BC NONE");
}

#[test]
fn register_decode() {
    assert_eq!(RegisterType::decode(0), RegisterType::B);
    assert_eq!(RegisterType::decode(6), RegisterType::HL);
    assert_eq!(RegisterType::decode(7), RegisterType::A);
    assert_eq!(RegisterType::decode(8), RegisterType::NONE);
    assert_eq!(Instruction::register_mnemonic(&RegisterType::SP), "SP");
    assert_eq!(Instruction::address_mode_mnemonic(&AddressMode::HL_SPR), "HL_SPR");
    assert_eq!(Instruction::instruction_type_mnemonic(&InstructionType::RETI), "RETI");
}

#[test]
fn registers_and_flag_mnemonic() {
    let mut r = Registers::new();
    assert_eq!(r.get_flags_mnemonic(), "Z-HC");
    r.set_reg(RegisterType::AF, 0x12FF);
    assert_eq!(r.a, 0x12);
    assert_eq!(r.f, 0xF0);
    assert_eq!(r.get_flags_mnemonic(), "ZNHC");
    r.set_reg(RegisterType::DE, 0xABCD);
    assert_eq!(r.read_reg(RegisterType::DE), 0xABCD);
    assert_eq!(r.d, 0xAB);
}

#[test]
fn header_parse() {
    let rom = header_rom(0x03, 0x01, 0x03, 0x10000);
    let info = CartridgeInfo::from_data("roms/tetris.gb", &rom).unwrap();
    assert_eq!(info.title, "TETRIS");
    assert_eq!(info.licensee, "Nintendo");
    assert_eq!(info.mbc_index, 1);
    assert_eq!(info.rom_bank_count, 4);
    assert_eq!(info.rom_size, 64 * 1024);
    assert_eq!(info.ram_bank_count, 4);
    assert_eq!(info.ram_size, 32 * 1024);
    assert!(info.battery && info.ram);
    assert!(CartridgeInfo::check_header_checksum(&rom));
    let mut bad = rom.clone();
    bad[0x14D] = bad[0x14D].wrapping_add(1);
    assert!(!CartridgeInfo::check_header_checksum(&bad));
    assert_eq!(
        info.to_string(),
        "Title: TETRIS,\nLicensee: (Nintendo)\nROM size: 64 KB\nCart type: 3 (MBC1+RAM+BATTERY)"
    );
}

#[test]
fn header_new_licensee_and_rom_only() {
    let mut rom = header_rom(0x00, 0x00, 0x00, 0x8000);
    rom[0x14B] = 0x33;
    rom[0x144] = b'0';
    rom[0x145] = b'1';
    let info = CartridgeInfo::from_data("a.gb", &rom).unwrap();
    assert_eq!(info.licensee, "Nintendo Research & Development 1");
    assert_eq!(info.to_string(), "ROM ONLY");
    assert_eq!(CartridgeInfo::read_to_str(b"ABC"), "ABC");
    assert_eq!(CartridgeInfo::read_to_str(&[0xFF, 0xFE]), "Unknown");
}

#[test]
fn header_errors() {
    assert_eq!(CartridgeInfo::from_data("a.gb", &vec![0u8; 0x100]).err(), Some(HeaderError::TooShort));
    let rom = header_rom(0x00, 0x09, 0x00, 0x8000);
    assert_eq!(CartridgeInfo::from_data("a.gb", &rom).err(), Some(HeaderError::BadRomSize));
    let rom = header_rom(0x05, 0x00, 0x00, 0x8000);
    assert_eq!(Cartridge::from_data("a.gb", rom).err(), Some(CartridgeError::Unsupported(2)));
    assert_eq!(Cartridge::from_data("a.gb", vec![0u8; 4]).err(), Some(CartridgeError::Header(HeaderError::TooShort)));
}

#[test]
fn mbc1_banking_and_ram_gate() {
    let mut rom = header_rom(0x03, 0x02, 0x02, 0x20000);
    for bank in 0..8usize {
        rom[bank * 0x4000 + 0x10] = bank as u8 + 0x40;
    }
    let mut cart = Cartridge::from_data("a.gb", rom).unwrap();
    assert_eq!(cart.read(0x4010), 0x41);
    cart.write(0x2000, 0x05);
    assert_eq!(cart.read(0x4010), 0x45);
    cart.write(0x2000, 0x00);
    assert_eq!(cart.read(0x4010), 0x41);
    assert_eq!(cart.read(0xA000), 0xFF);
    cart.write(0xA000, 0x42);
    assert_eq!(cart.read(0xA000), 0xFF);
    cart.write(0x0000, 0x0A);
    cart.write(0xA000, 0x42);
    assert_eq!(cart.read(0xA000), 0x42);
    cart.write(0x0000, 0x00);
    assert_eq!(cart.read(0xA000), 0xFF);
    let save = cart.save_ram().unwrap();
    assert_eq!(save.len(), 0x2000);
    assert_eq!(save[0], 0x42);
}

#[test]
fn mbc1_mask_from_bank_count() {
    let m = MBC1::from_data(vec![0u8; 0x8000], 2, 0, false);
    assert_eq!(m.rom_bank_mask, 1);
    let m = MBC1::from_data(vec![0u8; 0x8000], 5, 0, false);
    assert_eq!(m.rom_bank_mask, 4);
    assert_eq!(smallest_pow2_at_least(5), 8);
    assert_eq!(smallest_pow2_at_least(1), 1);
}

#[test]
fn mbc5_nine_bit_bank() {
    let mut m = MBC5::from_data(vec![0u8; 0x8000], 2, 1, true);
    m.write(0x2000, 0x34);
    m.write(0x3000, 0x01);
    assert_eq!(m.current_rom_bank, 0x134);
    m.write(0x2000, 0x00);
    assert_eq!(m.current_rom_bank, 0x100);
    m.write(0x4000, 0x13);
    assert_eq!(m.current_ram_bank, 0x03);
    assert_eq!(m.read(0xA000), 0xFF);
}

#[test]
fn save_and_restore_ram() {
    let rom = header_rom(0x1B, 0x00, 0x03, 0x8000);
    let mut cart = Cartridge::from_data("a.gb", rom).unwrap();
    let mut save = vec![0u8; 0x4000];
    save[0] = 7;
    save[0x2000] = 9;
    cart.load_ram(&save);
    cart.write(0x0000, 0x0A);
    assert_eq!(cart.read(0xA000), 7);
    cart.write(0x4000, 0x01);
    assert_eq!(cart.read(0xA000), 9);
    cart.write(0x4000, 0x02);
    assert_eq!(cart.read(0xA000), 0);
    let rom = header_rom(0x01, 0x00, 0x00, 0x8000);
    let cart = Cartridge::from_data("a.gb", rom).unwrap();
    assert!(cart.save_ram().is_none());
}

#[test]
fn joypad_rows() {
    let mut m = InputManager::new();
    let mut input = Input::new();
    input.a = true;
    input.down = true;
    m.last_input = input;
    assert_eq!(m.gamepad_get_output(), 0xCF);
    m.set_mode(0x10);
    assert_eq!(m.gamepad_get_output(), 0xCE);
    m.set_mode(0x20);
    assert_eq!(m.gamepad_get_output(), 0xC7);
    let mut io = IOManager::new();
    io.update_input(input);
    io.write(0xFF00, 0x20);
    assert_eq!(io.read(0xFF00), 0xC7);
    io.write(0xFF0F, 0xFF);
    assert_eq!(io.read(0xFF0F), 0x1F);
    io.write(0xFF01, 0x55);
    assert_eq!(io.read(0xFF01), 0x55);
}

#[test]
fn oam_entry_fields() {
    let e = OamEntry::from_u32(0xF0_12_34_56);
    assert_eq!((e.y, e.x, e.tile_idx, e.attributes), (0x56, 0x34, 0x12, 0xF0));
    assert!(e.x_flipped() && e.y_flipped() && e.draw_under_bg());
    assert_eq!(e.palette(), 1);
    assert_eq!(OamEntry::empty().palette(), 0);
}

#[test]
fn dma_controller_sequence() {
    let mut d = DMA::new();
    assert_eq!(d.tick(), None);
    d.start(0xC1);
    assert!(d.transferring());
    assert_eq!(d.tick(), Some((0xC100, 0)));
    assert_eq!(d.tick(), Some((0xC101, 1)));
}

#[test]
fn lcd_registers() {
    let mut lcd = LCD::new();
    assert_eq!(lcd.lcds_mode(), Mode::HBlank);
    lcd.lcds_mode_set(Mode::XFER);
    assert_eq!(lcd.lcds_mode(), Mode::XFER);
    lcd.write(0xFF41, 0xFF);
    assert_eq!(lcd.lcds_mode(), Mode::XFER);
    assert_eq!(lcd.read(0xFF41), 0x7B);
    lcd.write(0xFF44, 0x20);
    assert_eq!(lcd.read(0xFF44), 0);
    lcd.write(0xFF47, 0xE4);
    assert_eq!(palette_shade(lcd.bg_pallete, 3), 3);
    assert_eq!(palette_shade(0xE4, 1), 1);
    assert_eq!(lcd.lcdc_bg_map_area(), 0x9800);
    assert_eq!(lcd.lcdc_bg_data_area(), 0x8000);
    assert_eq!(lcd.lcdc_obj_height(), 8);
}

#[test]
fn byte_pairs() {
    let mut v = u16::from_pair(0x34, 0x12);
    assert_eq!(v, 0x1234);
    v.set_low(0xCD);
    assert_eq!(v, 0x12CD);
    v.set_high(0xAB);
    assert_eq!(v, 0xABCD);
    assert_eq!(v.separate_bytes(), (0xCD, 0xAB));
}

#[test]
fn serial_capture() {
    let rom = header_rom(0x00, 0x00, 0x00, 0x8000);
    let mut bus = Bus::new(Cartridge::from_data("a.gb", rom).unwrap());
    let mut dbg = EmuDebug::new();
    assert_eq!(dbg.update(&mut bus), None);
    for c in b"OK" {
        bus.write8(0xFF01, *c);
        bus.write8(0xFF02, 0x81);
        assert_eq!(dbg.update(&mut bus), Some(*c));
        assert_eq!(bus.read8(0xFF02), 0);
    }
    assert_eq!(dbg.print(), "OK");
}

#[test]
fn machine_runs_frames() {
    // JR -2: loop forever
    let mut rom = header_rom(0x00, 0x00, 0x00, 0x8000);
    rom[0x100] = 0x18;
    rom[0x101] = 0xFE;
    let mut core = GBCore::new(Cartridge::from_data("a.gb", rom).unwrap());
    assert!(core.run_frame(100_000));
    assert_eq!(core.frames_completed, 1);
    assert!(!core.run_frame(10));
    assert_eq!(core.frames_completed, 1);
    assert_eq!(core.frame().len(), 160 * 144);
    assert!(core.frame().iter().all(|s| *s < 4));
    assert!(core.save_data().is_none());
    let mut input = Input::new();
    input.start = true;
    core.set_input(input);
    assert_eq!(core.cpu.bus.ioram.input.last_input, input);
    core.stop();
    assert!(!core.running);
}

#[test]
fn background_tile_fills_frame() {
    let mut rom = header_rom(0x00, 0x00, 0x00, 0x8000);
    rom[0x100] = 0x18;
    rom[0x101] = 0xFE;
    let mut core = GBCore::new(Cartridge::from_data("a.gb", rom).unwrap());
    // tile 0: every row low byte 0xFF, high byte 0x00 -> colour index 1
    for row in 0..8u16 {
        core.cpu.bus.write8(0x8000 + row * 2, 0xFF);
        core.cpu.bus.write8(0x8001 + row * 2, 0x00);
    }
    // BGP: index 1 -> shade 2
    core.cpu.bus.write8(0xFF47, 0b0000_1000);
    assert!(core.run_frame(200_000));
    assert!(core.run_frame(200_000));
    let frame = core.frame();
    assert!(frame.iter().all(|s| *s == 2));
}

#[test]
fn header_type_flags() {
    let rom = header_rom(0x10, 0x00, 0x00, 0x8000);
    let info = CartridgeInfo::from_data("a.gb", &rom).unwrap();
    assert!(info.timer && info.battery && info.ram && !info.rom);
    assert_eq!(info.mbc_index, 3);
    let rom = header_rom(0xFF, 0x00, 0x00, 0x8000);
    assert_eq!(CartridgeInfo::from_data("a.gb", &rom).unwrap().huc_index, 1);
}

#[test]
fn mbc3_clock_registers() {
    let rom = header_rom(0x10, 0x00, 0x03, 0x8000);
    let mut cart = Cartridge::from_data("a.gb", rom).unwrap();
    cart.write(0x0000, 0x0A);
    cart.write(0x4000, 0x09);
    cart.write(0xA000, 0x2A);
    assert_eq!(cart.read(0xA000), 0x2A);
    cart.write(0x4000, 0x00);
    assert_eq!(cart.read(0xA000), 0x00);
    cart.write(0xA000, 0x11);
    assert_eq!(cart.read(0xA000), 0x11);
    cart.write(0x4000, 0x09);
    assert_eq!(cart.read(0xA000), 0x2A);
}
