use gbr::catridge::CartridgeError;
use gbr::catridge::Catridge;
use gbr::cpu::CPU;
use gbr::io_device::IODevice;
use gbr::joypad::Joypad;
use gbr::joypad::Key;
use gbr::mmu::Fault;
use gbr::mmu::MMU;
use gbr::ppu::PPU;
use gbr::timer::Timer;

/// A ROM image of `banks` 16 KiB banks (code 0 for two banks) with a valid
/// header and `code` placed at 0x0100.
fn rom_image(size_code: u8, code: &[u8]) -> Vec<u8> {
    let len = 0x8000usize << size_code;
    let mut rom = vec![0u8; len];
    rom[0x100..0x100 + code.len()].copy_from_slice(code);
    rom[0x147] = 0x01;
    rom[0x148] = size_code;
    rom[0x149] = 0x00;
    let mut chk: u8 = 0;
    for i in 0x134..0x14d {
        chk = chk.wrapping_sub(rom[i]).wrapping_sub(1);
    }
    rom[0x14d] = chk;
    rom
}

fn cpu_with(code: &[u8]) -> CPU {
    CPU::new(Catridge::new(rom_image(0, code)).unwrap())
}

fn run(cpu: &mut CPU, steps: usize) {
    for _ in 0..steps {
        cpu.step();
    }
}

#[test]
fn add_sets_half_carry() {
    // LD A, 0x0F; LD B, 0x01; ADD A, B
    let mut cpu = cpu_with(&[0x3e, 0x0f, 0x06, 0x01, 0x80]);
    run(&mut cpu, 3);
    assert_eq!(cpu.a, 0x10);
    assert!(!cpu.zf);
    assert!(!cpu.nf);
    assert!(cpu.hf);
    assert!(!cpu.cf);
    assert_eq!(cpu.f(), 0x20);
}

#[test]
fn sub_sets_borrow() {
    // LD A, 0x00; LD B, 0x01; SUB B
    let mut cpu = cpu_with(&[0x3e, 0x00, 0x06, 0x01, 0x90]);
    run(&mut cpu, 3);
    assert_eq!(cpu.a, 0xff);
    assert!(!cpu.zf);
    assert!(cpu.nf);
    assert!(cpu.hf);
    assert!(cpu.cf);
    assert_eq!(cpu.f(), 0x70);
}

#[test]
fn daa_after_bcd_addition() {
    // LD A, 0x45; LD B, 0x38; ADD A, B; DAA
    let mut cpu = cpu_with(&[0x3e, 0x45, 0x06, 0x38, 0x80, 0x27]);
    run(&mut cpu, 3);
    assert_eq!(cpu.a, 0x7d);
    cpu.step();
    assert_eq!(cpu.a, 0x83);
    assert!(!cpu.zf);
    assert!(!cpu.cf);
}

#[test]
fn mbc1_bank_zero_selects_bank_one() {
    let mut rom = rom_image(1, &[]);
    rom[0x4000] = 0x11;
    rom[0x8000] = 0x22;
    rom[0xc000] = 0x33;
    let mut mmu = MMU::new(Catridge::new(rom).unwrap());
    mmu.write(0x2000, 0x00);
    assert_eq!(mmu.read(0x4000), 0x11);
    mmu.write(0x2000, 0x02);
    assert_eq!(mmu.read(0x4000), 0x22);
    mmu.write(0x2000, 0x03);
    assert_eq!(mmu.read(0x4000), 0x33);
    // bank numbers are masked to the four banks of the ROM
    mmu.write(0x2000, 0x06);
    assert_eq!(mmu.read(0x4000), 0x22);
    assert_eq!(mmu.read(0x0000), 0x00);
}

#[test]
fn timer_overflow_reloads_and_requests() {
    let mut mmu = MMU::new(Catridge::new(rom_image(0, &[])).unwrap());
    mmu.write(0xff07, 0x05);
    mmu.write(0xff05, 0xff);
    mmu.write(0xff06, 0xa0);
    mmu.update(16);
    assert_eq!(mmu.read(0xff05), 0xa0);
    assert_ne!(mmu.read(0xff0f) & 0x04, 0);
}

#[test]
fn timer_counts_with_divider() {
    let mut t = Timer::new();
    t.write(0xff07, 0x04);
    for _ in 0..64 {
        t.update(16);
    }
    assert_eq!(t.read(0xff05), 1);
    assert_eq!(t.read(0xff04), 4);
    t.write(0xff04, 0x55);
    assert_eq!(t.read(0xff04), 0);
    assert_eq!(t.read(0xff07), 0x04);
}

#[test]
fn ppu_enters_vblank_after_144_lines() {
    let mut ppu = PPU::new();
    let mut vblanks = 0;
    for _ in 0..(65664 / 4) {
        ppu.update(4);
        if ppu.irq_vblank {
            vblanks += 1;
            ppu.irq_vblank = false;
        }
    }
    assert_eq!(ppu.regs.ly, 144);
    assert_eq!(ppu.mode(), 1);
    assert_eq!(ppu.read(0xff41) & 3, 1);
    assert_eq!(vblanks, 1);
}

#[test]
fn frame_is_70224_cycles() {
    let mut ppu = PPU::new();
    let mut cycles: u32 = 0;
    let mut last_ly = ppu.regs.ly;
    let mut starts = Vec::new();
    while starts.len() < 3 {
        ppu.update(4);
        cycles += 4;
        if ppu.regs.ly == 0 && last_ly != 0 {
            starts.push(cycles);
        }
        last_ly = ppu.regs.ly;
        assert_eq!(ppu.mode(), ppu.regs.stat & 3);
    }
    assert_eq!(starts[0], 70224);
    assert_eq!(starts[1] - starts[0], 70224);
    assert_eq!(starts[2] - starts[1], 70224);
}

#[test]
fn oam_dma_copies_page() {
    let mut mmu = MMU::new(Catridge::new(rom_image(0, &[])).unwrap());
    // LCD off, so that OAM can be read back
    mmu.write(0xff40, 0x00);
    for i in 0..0xa0u16 {
        mmu.write(0xc000 + i, i as u8);
    }
    mmu.write(0xff46, 0xc0);
    assert_eq!(mmu.read(0xfe42), 0x42);
    assert_eq!(mmu.read(0xfe9f), 0x9f);
    assert_eq!(mmu.fault, None);
}

#[test]
fn oam_dma_from_invalid_page_stops() {
    let mut mmu = MMU::new(Catridge::new(rom_image(0, &[])).unwrap());
    mmu.write(0xff46, 0xe0);
    assert_eq!(mmu.fault, Some(Fault::InvalidDmaSource(0xe0)));
}

#[test]
fn echo_ram_mirrors_work_ram() {
    let mut mmu = MMU::new(Catridge::new(rom_image(0, &[])).unwrap());
    mmu.write(0xc123, 0xab);
    assert_eq!(mmu.read(0xe123), 0xab);
    mmu.write(0xfdff, 0x5a);
    assert_eq!(mmu.read(0xddff), 0x5a);
}

#[test]
fn interrupt_flag_keeps_five_bits() {
    let mut mmu = MMU::new(Catridge::new(rom_image(0, &[])).unwrap());
    mmu.write(0xff0f, 0xff);
    assert_eq!(mmu.read(0xff0f), 0x1f);
    assert_eq!(mmu.read(0xfea0), 0xff);
}

#[test]
fn flags_low_nibble_after_pop_af() {
    // LD SP, 0xD000; LD HL, 0x12FF; PUSH HL; POP AF; PUSH AF; POP BC
    let mut cpu = cpu_with(&[0x31, 0x00, 0xd0, 0x21, 0xff, 0x12, 0xe5, 0xf1, 0xf5, 0xc1]);
    run(&mut cpu, 4);
    assert_eq!(cpu.a, 0x12);
    assert_eq!(cpu.f(), 0xf0);
    assert_eq!(cpu.af(), 0x12f0);
    run(&mut cpu, 2);
    assert_eq!(cpu.bc(), 0x12f0);
    assert_eq!(cpu.sp, 0xd000);
}

#[test]
fn pop_af_push_af_keeps_stack() {
    // LD SP, 0xD000; LD HL, 0x3450; PUSH HL; POP AF; PUSH AF
    let mut cpu = cpu_with(&[0x31, 0x00, 0xd0, 0x21, 0x50, 0x34, 0xe5, 0xf1, 0xf5]);
    run(&mut cpu, 3);
    let lo = cpu.mmu.read(0xcffe);
    let hi = cpu.mmu.read(0xcfff);
    run(&mut cpu, 2);
    assert_eq!(cpu.mmu.read(0xcffe), lo);
    assert_eq!(cpu.mmu.read(0xcfff), hi);
    assert_eq!(cpu.sp, 0xcffe);
}

#[test]
fn push_pop_round_trip() {
    // LD SP, 0xFFFE; LD DE, 0xBEEF; PUSH DE; LD DE, 0; POP DE
    let mut cpu = cpu_with(&[0x31, 0xfe, 0xff, 0x11, 0xef, 0xbe, 0xd5, 0x11, 0x00, 0x00, 0xd1]);
    run(&mut cpu, 5);
    assert_eq!(cpu.de(), 0xbeef);
    assert_eq!(cpu.sp, 0xfffe);
}

#[test]
fn add_then_sub_restores_a() {
    // LD A, 0xF0; ADD A, 0x20; SUB A, 0x20
    let mut cpu = cpu_with(&[0x3e, 0xf0, 0xc6, 0x20, 0xd6, 0x20]);
    run(&mut cpu, 2);
    assert_eq!(cpu.a, 0x10);
    assert!(cpu.cf);
    cpu.step();
    assert_eq!(cpu.a, 0xf0);
    assert!(!cpu.zf);
    assert!(cpu.cf);
}

#[test]
fn swap_twice_restores() {
    // LD C, 0x12; SWAP C; SWAP C
    let mut cpu = cpu_with(&[0x0e, 0x12, 0xcb, 0x31, 0xcb, 0x31]);
    run(&mut cpu, 2);
    assert_eq!(cpu.c, 0x21);
    cpu.step();
    assert_eq!(cpu.c, 0x12);
    assert!(!cpu.zf && !cpu.nf && !cpu.hf && !cpu.cf);
}

#[test]
fn cpl_twice_restores() {
    // LD A, 0x35; CPL; CPL
    let mut cpu = cpu_with(&[0x3e, 0x35, 0x2f, 0x2f]);
    run(&mut cpu, 2);
    assert_eq!(cpu.a, 0xca);
    assert!(cpu.nf && cpu.hf);
    cpu.step();
    assert_eq!(cpu.a, 0x35);
}

#[test]
fn instruction_timing() {
    // NOP; LD BC, d16; CALL a16 (to 0x0108); ... RET
    let mut cpu = cpu_with(&[0x00, 0x01, 0x34, 0x12, 0xcd, 0x08, 0x01, 0x00, 0xc9]);
    cpu.sp = 0xd000;
    assert_eq!(cpu.step(), 4);
    assert_eq!(cpu.step(), 12);
    assert_eq!(cpu.bc(), 0x1234);
    assert_eq!(cpu.step(), 24);
    assert_eq!(cpu.pc, 0x108);
    assert_eq!(cpu.step(), 16);
    assert_eq!(cpu.pc, 0x107);
}

#[test]
fn interrupt_vectors() {
    for (bit, vector) in [(0u8, 0x40u16), (1, 0x48), (2, 0x50), (3, 0x58), (4, 0x60)] {
        // EI; NOP
        let mut cpu = cpu_with(&[0xfb, 0x00]);
        cpu.sp = 0xd000;
        cpu.mmu.write(0xffff, 1 << bit);
        cpu.mmu.write(0xff0f, 1 << bit);
        let t = cpu.step();
        assert_eq!(cpu.pc, vector);
        assert_eq!(t, 24);
        assert!(!cpu.ime);
        assert_eq!(cpu.mmu.read(0xff0f) & (1 << bit), 0);
    }
}

#[test]
fn halt_waits_for_interrupt() {
    // EI; HALT
    let mut cpu = cpu_with(&[0xfb, 0x76]);
    cpu.sp = 0xd000;
    run(&mut cpu, 2);
    assert!(cpu.halted);
    assert_eq!(cpu.step(), 4);
    assert_eq!(cpu.pc, 0x102);
    cpu.mmu.write(0xffff, 0x04);
    cpu.mmu.write(0xff0f, 0x04);
    cpu.step();
    assert!(!cpu.halted);
    assert_eq!(cpu.pc, 0x50);
}

#[test]
fn undefined_opcode_stops() {
    let mut cpu = cpu_with(&[0x00, 0xd3]);
    run(&mut cpu, 2);
    assert_eq!(cpu.mmu.fault, Some(Fault::UndefinedOpcode { opcode: 0xd3, pc: 0x101 }));
    assert_eq!(cpu.step(), 0);
    assert_eq!(cpu.run_frame(), 0);
}

#[test]
fn run_frame_spends_one_frame() {
    // JR -2 (spin)
    let mut cpu = cpu_with(&[0x18, 0xfe]);
    let t = cpu.run_frame();
    assert!(t >= 70224 && t < 70224 + 24);
}

#[test]
fn background_rendered_through_palette() {
    let mut mmu = MMU::new(Catridge::new(rom_image(0, &[])).unwrap());
    mmu.write(0xff40, 0x00);
    // tile 0 row 0: colour 3 on the left half, colour 1 on the right half
    mmu.write(0x8000, 0xff);
    mmu.write(0x8001, 0xf0);
    mmu.write(0xff47, 0xe4);
    mmu.write(0xff40, 0x91);
    for _ in 0..(84 / 4) {
        mmu.update(4);
    }
    let fb = mmu.ppu.frame_buffer();
    assert_eq!(fb.len(), 160 * 144);
    assert_eq!(&fb[0..8], &[0x00, 0x00, 0x00, 0x00, 0xaa, 0xaa, 0xaa, 0xaa]);
}

#[test]
fn cartridge_header_errors() {
    assert_eq!(Catridge::new(vec![0u8; 0x100]).err(), Some(CartridgeError::SizeMismatch));
    let mut rom = rom_image(0, &[]);
    rom[0x14d] = rom[0x14d].wrapping_add(1);
    assert_eq!(Catridge::new(rom).err(), Some(CartridgeError::ChecksumMismatch));
    let mut rom = rom_image(0, &[]);
    rom[0x149] = 6;
    assert_eq!(Catridge::new(rom).err(), Some(CartridgeError::InvalidRamSize));
    let mut rom = rom_image(0, &[]);
    rom[0x148] = 9;
    assert_eq!(Catridge::new(rom).err(), Some(CartridgeError::InvalidRomSize));
    let mut rom = rom_image(0, &[]);
    rom.truncate(0x4000);
    assert_eq!(Catridge::new(rom).err(), Some(CartridgeError::SizeMismatch));
}

#[test]
fn cartridge_ram_enable_and_save() {
    let mut rom = rom_image(0, &[]);
    rom[0x149] = 2;
    let mut chk: u8 = 0;
    for i in 0x134..0x14d {
        chk = chk.wrapping_sub(rom[i]).wrapping_sub(1);
    }
    rom[0x14d] = chk;
    let mut cart = Catridge::new(rom).unwrap();
    assert_eq!(cart.ram_image().len(), 0x2000);
    cart.write(0xa010, 0x77);
    assert_eq!(cart.read(0xa010), 0xff);
    cart.write(0x0000, 0x0a);
    cart.write(0xa010, 0x77);
    assert_eq!(cart.read(0xa010), 0x77);
    assert_eq!(cart.ram_image()[0x10], 0x77);
    cart.load_ram(vec![0x42; 0x2000]);
    assert_eq!(cart.read(0xa000), 0x42);
}

#[test]
fn joypad_rows() {
    let mut pad = Joypad::new();
    assert_eq!(pad.read(0xff00), 0xff);
    pad.keydown(Key::A);
    pad.keydown(Key::Up);
    assert!(pad.irq);
    pad.write(0xff00, 0x20);
    assert_eq!(pad.read(0xff00) & 0x0f, 0x0b);
    pad.write(0xff00, 0x10);
    assert_eq!(pad.read(0xff00) & 0x0f, 0x0e);
    pad.keyup(Key::A);
    assert_eq!(pad.read(0xff00) & 0x0f, 0x0f);
}
