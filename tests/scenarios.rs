use gbcore::bus::Bus;
use gbcore::cartridge::Cartridge;
use gbcore::cpu::CPU;
use gbcore::memory::Memory;
use gbcore::ppu::PPU;
use gbcore::timer::Timer;

/// A 32 KiB image without controller, with `program` at 0x0100.
fn rom_with(program: &[u8]) -> Vec<u8> {
    let mut rom = vec![0u8; 0x8000];
    for (i, b) in program.iter().enumerate() {
        rom[0x100 + i] = *b;
    }
    rom
}

fn machine(program: &[u8]) -> CPU {
    let cart = Cartridge::from_data("test.gb", rom_with(program)).unwrap();
    CPU::new(Bus::new(cart))
}

#[test]
fn initial_state() {
    let cpu = machine(&[]);
    assert_eq!(cpu.regs.a, 0x01);
    assert_eq!(cpu.regs.f, 0xB0);
    assert_eq!(cpu.regs.read_reg(gbcore::instruction::RegisterType::BC), 0x0013);
    assert_eq!(cpu.regs.read_reg(gbcore::instruction::RegisterType::DE), 0x00D8);
    assert_eq!(cpu.regs.read_reg(gbcore::instruction::RegisterType::HL), 0x014D);
    assert_eq!(cpu.regs.sp, 0xFFFE);
    assert_eq!(cpu.regs.pc, 0x0100);
    assert!(!cpu.int_master_enabled);
}

#[test]
fn nop_benchmark() {
    let mut cpu = machine(&[0x00, 0xC3, 0x00, 0x01]);
    cpu.cpu_step();
    assert_eq!(cpu.regs.pc, 0x0101);
    assert_eq!(cpu.ticks, 4);
    cpu.cpu_step();
    assert_eq!(cpu.regs.pc, 0x0100);
    assert_eq!(cpu.ticks, 20);
    cpu.cpu_step();
    assert_eq!(cpu.regs.pc, 0x0101);
    cpu.cpu_step();
    assert_eq!(cpu.regs.pc, 0x0100);
    assert_eq!(cpu.ticks, 40);
}

#[test]
fn daa_after_add() {
    let mut cpu = machine(&[0x80, 0x27]);
    cpu.regs.a = 0x45;
    cpu.regs.b = 0x38;
    cpu.regs.f = 0;
    cpu.cpu_step();
    cpu.cpu_step();
    assert_eq!(cpu.regs.a, 0x83);
    assert_eq!(cpu.regs.f, 0x00);
}

#[test]
fn daa_after_subtract() {
    let mut cpu = machine(&[0x90, 0x27]);
    cpu.regs.a = 0x45;
    cpu.regs.b = 0x38;
    cpu.regs.f = 0;
    cpu.cpu_step();
    cpu.cpu_step();
    assert_eq!(cpu.regs.a, 0x07);
    // Z=0, N=1, H=0, C=0
    assert_eq!(cpu.regs.f, 0x40);
}

#[test]
fn timer_overflow() {
    let mut t = Timer::new();
    t.write_byte(0xFF06, 0xFE);
    t.write_byte(0xFF05, 0xFF);
    t.write_byte(0xFF07, 0x05);
    t.div = 0x000F;
    assert!(t.tick());
    assert_eq!(t.tima, 0xFE);
    assert_eq!(t.div, 0x0010);
}

#[test]
fn timer_overflow_raises_interrupt() {
    let cart = Cartridge::from_data("test.gb", rom_with(&[])).unwrap();
    let mut bus = Bus::new(cart);
    bus.write8(0xFF06, 0xFE);
    bus.write8(0xFF05, 0xFF);
    bus.write8(0xFF07, 0x05);
    let mut n = 0;
    while bus.read8(0xFF0F) & 0x04 == 0 && n < 64 {
        bus.tick_devices();
        n += 1;
    }
    assert_ne!(bus.read8(0xFF0F) & 0x04, 0);
    assert_eq!(bus.read8(0xFF05), 0xFE);
}

#[test]
fn dma_copies_page_to_oam() {
    let cart = Cartridge::from_data("test.gb", rom_with(&[])).unwrap();
    let mut bus = Bus::new(cart);
    for i in 0..0xA0u16 {
        bus.write8(0xC000 + i, (i + 1) as u8);
    }
    bus.write8(0xFF46, 0xC0);
    for k in 0..160 {
        for a in [0xFE00u16, 0xFE50, 0xFE9F] {
            assert_eq!(bus.read8(a), 0xFF, "read during copy at cycle {k}");
        }
        bus.dma_tick();
    }
    assert!(!bus.ppu.lcd.dma.active);
    for i in 0..0xA0u16 {
        assert_eq!(bus.read8(0xFE00 + i), (i + 1) as u8);
    }
}

#[test]
fn stack_push_pop_round_trip() {
    let mut m = Memory::new();
    let mut sp: u16 = 0xDFFE;
    m.stack_push16(&mut sp, 0xBEEF);
    assert_eq!(sp, 0xDFFC);
    assert_eq!(m.read(0xDFFD), 0xBE);
    assert_eq!(m.read(0xDFFC), 0xEF);
    assert_eq!(m.stack_pop16(&mut sp), 0xBEEF);
    assert_eq!(sp, 0xDFFE);
}

#[test]
fn push_pop_register_pairs() {
    // PUSH BC; POP BC; PUSH DE; POP DE; PUSH HL; POP HL; PUSH AF; POP AF
    let mut cpu = machine(&[0xC5, 0xC1, 0xD5, 0xD1, 0xE5, 0xE1, 0xF5, 0xF1]);
    let before = cpu.regs;
    for _ in 0..8 {
        cpu.cpu_step();
    }
    assert_eq!(cpu.regs.a, before.a);
    assert_eq!(cpu.regs.f, before.f);
    assert_eq!(cpu.regs.b, before.b);
    assert_eq!(cpu.regs.c, before.c);
    assert_eq!(cpu.regs.d, before.d);
    assert_eq!(cpu.regs.e, before.e);
    assert_eq!(cpu.regs.h, before.h);
    assert_eq!(cpu.regs.l, before.l);
    assert_eq!(cpu.regs.sp, before.sp);
}

#[test]
fn push_writes_high_byte_first() {
    // PUSH AF; POP BC
    let mut cpu = machine(&[0xF5, 0xC1]);
    cpu.cpu_step();
    assert_eq!(cpu.bus.read8(0xFFFD), 0x01);
    assert_eq!(cpu.bus.read8(0xFFFC), 0xB0);
    cpu.cpu_step();
    assert_eq!(cpu.regs.b, 0x01);
    assert_eq!(cpu.regs.c, 0xB0);
}

#[test]
fn pop_af_clears_low_nibble() {
    // LD BC,0xFFFF; PUSH BC; POP AF
    let mut cpu = machine(&[0x01, 0xFF, 0xFF, 0xC5, 0xF1]);
    for _ in 0..3 {
        cpu.cpu_step();
    }
    assert_eq!(cpu.regs.a, 0xFF);
    assert_eq!(cpu.regs.f, 0xF0);
    assert_eq!(cpu.regs.f & 0x0F, 0);
}

#[test]
fn rlca_then_rrca() {
    let mut cpu = machine(&[0x07, 0x0F]);
    cpu.regs.a = 0x35;
    cpu.regs.f = 0xF0;
    cpu.cpu_step();
    assert_eq!(cpu.regs.a, 0x6A);
    cpu.cpu_step();
    assert_eq!(cpu.regs.a, 0x35);
    assert_eq!(cpu.regs.f, 0x00);
}

#[test]
fn rlca_then_rrca_with_high_bit_keeps_carry() {
    let mut cpu = machine(&[0x07, 0x0F]);
    cpu.regs.a = 0x80;
    cpu.cpu_step();
    assert_eq!(cpu.regs.a, 0x01);
    cpu.cpu_step();
    assert_eq!(cpu.regs.a, 0x80);
    assert_eq!(cpu.regs.f, 0x10);
}

#[test]
fn divider_wraps() {
    let mut t = Timer::new();
    assert_eq!(t.div, 0xABCC);
    t.tick();
    assert_eq!(t.div, 0xABCD);
    t.div = 0xFFFF;
    t.tick();
    assert_eq!(t.div, 0);
    assert_eq!(t.read_byte(0xFF04), 0);
    t.div = 0x12FF;
    assert_eq!(t.read_byte(0xFF04), 0x12);
    t.write_byte(0xFF04, 0x77);
    assert_eq!(t.div, 0);
}

#[test]
fn line_and_frame_length() {
    let mut ppu = PPU::new();
    for _ in 0..455 {
        ppu.tick();
        assert_eq!(ppu.lcd.ly, 0);
    }
    ppu.tick();
    assert_eq!(ppu.lcd.ly, 1);
    assert_eq!(ppu.line_ticks, 0);
    for _ in 0..(153 * 456 - 1) {
        ppu.tick();
    }
    assert_eq!(ppu.lcd.ly, 153);
    ppu.tick();
    assert_eq!(ppu.lcd.ly, 0);
    assert_eq!(ppu.line_ticks, 0);
}

#[test]
fn vblank_interrupt_and_frame_ready() {
    let mut ppu = PPU::new();
    let mut vblanks = 0;
    for _ in 0..(154 * 456) {
        if ppu.tick().vblank {
            vblanks += 1;
            assert_eq!(ppu.lcd.ly, 144);
        }
    }
    assert_eq!(vblanks, 1);
    assert!(ppu.have_update());
    assert!(!ppu.have_update());
}

#[test]
fn interrupt_dispatch_picks_lowest() {
    // EI; NOP; NOP
    let mut cpu = machine(&[0xFB, 0x00, 0x00]);
    cpu.bus.write8(0xFFFF, 0x1F);
    cpu.bus.write8(0xFF0F, 0x14);
    cpu.cpu_step();
    assert!(cpu.int_master_enabled);
    cpu.cpu_step();
    assert_eq!(cpu.regs.pc, 0x50);
    assert!(!cpu.int_master_enabled);
    assert_eq!(cpu.bus.read8(0xFF0F), 0x10);
    assert_eq!(cpu.regs.sp, 0xFFFC);
    assert_eq!(cpu.bus.read8(0xFFFC), 0x02);
    assert_eq!(cpu.bus.read8(0xFFFD), 0x01);
}

#[test]
fn halt_wakes_on_pending_interrupt() {
    // HALT; NOP
    let mut cpu = machine(&[0x76, 0x00]);
    cpu.cpu_step();
    assert!(cpu.halted);
    cpu.cpu_step();
    assert!(cpu.halted);
    cpu.bus.write8(0xFFFF, 0x01);
    cpu.bus.write8(0xFF0F, 0x01);
    cpu.cpu_step();
    assert!(!cpu.halted);
}

#[test]
fn call_and_ret() {
    // CALL 0x0110 ... at 0x0110: RET
    let mut program = vec![0u8; 0x20];
    program[0] = 0xCD;
    program[1] = 0x10;
    program[2] = 0x01;
    program[0x10] = 0xC9;
    let mut cpu = machine(&program);
    cpu.cpu_step();
    assert_eq!(cpu.regs.pc, 0x0110);
    assert_eq!(cpu.regs.sp, 0xFFFC);
    cpu.cpu_step();
    assert_eq!(cpu.regs.pc, 0x0103);
    assert_eq!(cpu.regs.sp, 0xFFFE);
}

#[test]
fn cb_bit_set_res_swap() {
    // SET 3,B; BIT 3,B; RES 3,B; SWAP B
    let mut cpu = machine(&[0xCB, 0xD8, 0xCB, 0x58, 0xCB, 0x98, 0xCB, 0x30]);
    cpu.regs.b = 0x21;
    cpu.cpu_step();
    assert_eq!(cpu.regs.b, 0x29);
    cpu.cpu_step();
    assert_eq!(cpu.regs.f & 0x80, 0);
    assert_eq!(cpu.regs.f & 0x20, 0x20);
    cpu.cpu_step();
    assert_eq!(cpu.regs.b, 0x21);
    cpu.cpu_step();
    assert_eq!(cpu.regs.b, 0x12);
    assert_eq!(cpu.regs.f, 0x00);
}

#[test]
fn load_store_through_hl() {
    // LD HL,0xC000; LD (HL+),A; LD A,0x99; LD B,(HL); LD A,(HL-)
    let mut cpu = machine(&[0x21, 0x00, 0xC0, 0x22, 0x3E, 0x99, 0x46]);
    cpu.cpu_step();
    cpu.cpu_step();
    assert_eq!(cpu.bus.read8(0xC000), 0x01);
    assert_eq!(cpu.regs.read_reg(gbcore::instruction::RegisterType::HL), 0xC001);
    cpu.cpu_step();
    assert_eq!(cpu.regs.a, 0x99);
    cpu.bus.write8(0xC001, 0x5A);
    cpu.cpu_step();
    assert_eq!(cpu.regs.b, 0x5A);
}

#[test]
fn halt_bug_reads_next_byte_twice() {
    // HALT; INC A; NOP
    let mut cpu = machine(&[0x76, 0x3C, 0x00]);
    cpu.bus.write8(0xFFFF, 0x01);
    cpu.bus.write8(0xFF0F, 0x01);
    cpu.cpu_step();
    assert!(!cpu.halted);
    assert!(cpu.halt_bug);
    cpu.cpu_step();
    assert_eq!(cpu.regs.pc, 0x0101);
    cpu.cpu_step();
    assert_eq!(cpu.regs.a, 0x03);
    assert_eq!(cpu.regs.pc, 0x0102);
}

#[test]
fn di_right_after_ei_keeps_interrupts_off() {
    // EI; DI; NOP
    let mut cpu = machine(&[0xFB, 0xF3, 0x00]);
    cpu.cpu_step();
    assert!(cpu.int_master_enabled);
    cpu.cpu_step();
    assert!(!cpu.int_master_enabled);
    assert!(!cpu.ime_enabling);
    cpu.cpu_step();
    assert!(!cpu.int_master_enabled);
}

#[test]
fn ei_takes_effect_after_next_instruction() {
    // EI; NOP; NOP with a pending timer interrupt
    let mut cpu = machine(&[0xFB, 0x00, 0x00]);
    cpu.bus.write8(0xFFFF, 0x04);
    cpu.bus.write8(0xFF0F, 0x04);
    cpu.cpu_step();
    assert_eq!(cpu.regs.pc, 0x0101);
    assert_eq!(cpu.regs.sp, 0xFFFE);
    cpu.cpu_step();
    assert_eq!(cpu.regs.pc, 0x0050);
}

#[test]
fn oam_scan_keeps_table_order_for_equal_x() {
    let mut ppu = PPU::new();
    // three sprites on line 0 (y = 16), x = 20, 10, 20; tiles 1, 2, 3
    let sprites = [(16u8, 20u8, 1u8), (16, 10, 2), (16, 20, 3)];
    for (n, (y, x, t)) in sprites.iter().enumerate() {
        ppu.oam_write(0xFE00 + n * 4, *y);
        ppu.oam_write(0xFE00 + n * 4 + 1, *x);
        ppu.oam_write(0xFE00 + n * 4 + 2, *t);
    }
    ppu.load_line_sprites();
    let tiles: Vec<u8> = ppu.line_entries.iter().map(|e| e.tile_idx).collect();
    assert_eq!(tiles, vec![2, 1, 3]);
}

#[test]
fn ldh_stores_and_loads_high_page() {
    // LD A,0x5A; LDH (0x80),A; LD A,0x00; LDH A,(0x80); LD A,0x91; LDH (0x40),A
    let mut cpu = machine(&[0x3E, 0x5A, 0xE0, 0x80, 0x3E, 0x00, 0xF0, 0x80, 0x3E, 0x93, 0xE0, 0x40]);
    cpu.cpu_step();
    cpu.cpu_step();
    assert_eq!(cpu.bus.read8(0xFF80), 0x5A);
    assert_eq!(cpu.regs.a, 0x5A);
    cpu.cpu_step();
    assert_eq!(cpu.regs.a, 0x00);
    cpu.cpu_step();
    assert_eq!(cpu.regs.a, 0x5A);
    cpu.cpu_step();
    cpu.cpu_step();
    assert_eq!(cpu.bus.read8(0xFF40), 0x93);
}

#[test]
fn add_hl_and_sp_offsets() {
    // LD HL,0x8A23; LD BC,0x0605; ADD HL,BC; LD SP,0xFFF8; LD HL,SP+2; ADD SP,-2
    let mut cpu = machine(&[0x21, 0x23, 0x8A, 0x01, 0x05, 0x06, 0x09, 0x31, 0xF8, 0xFF, 0xF8, 0x02, 0xE8, 0xFE]);
    for _ in 0..3 {
        cpu.cpu_step();
    }
    assert_eq!(cpu.regs.read_reg(gbcore::instruction::RegisterType::HL), 0x9028);
    assert_eq!(cpu.regs.f & 0x20, 0x20);
    cpu.cpu_step();
    cpu.cpu_step();
    assert_eq!(cpu.regs.read_reg(gbcore::instruction::RegisterType::HL), 0xFFFA);
    cpu.cpu_step();
    assert_eq!(cpu.regs.sp, 0xFFF6);
}

#[test]
fn store_sp_to_absolute_address() {
    // LD SP,0xBEEF; LD (0xC010),SP
    let mut cpu = machine(&[0x31, 0xEF, 0xBE, 0x08, 0x10, 0xC0]);
    cpu.cpu_step();
    cpu.cpu_step();
    assert_eq!(cpu.bus.read8(0xC010), 0xEF);
    assert_eq!(cpu.bus.read8(0xC011), 0xBE);
}

#[test]
fn conditional_ret_and_reti() {
    // CALL 0x0110; at 0x0110: RET NZ (Z set -> not taken); RETI
    let mut program = vec![0u8; 0x20];
    program[0] = 0xCD;
    program[1] = 0x10;
    program[2] = 0x01;
    program[0x10] = 0xC0;
    program[0x11] = 0xD9;
    let mut cpu = machine(&program);
    cpu.cpu_step();
    cpu.cpu_step();
    assert_eq!(cpu.regs.pc, 0x0111);
    cpu.cpu_step();
    assert_eq!(cpu.regs.pc, 0x0103);
    assert!(cpu.int_master_enabled);
}
