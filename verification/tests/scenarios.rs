use gbcore::bus::MemoryBus;
use gbcore::cartridge::Cartridge;
use gbcore::cpu::Cpu;
use gbcore::gameboy::{Color, Gameboy, Mode, TickResult};
use gbcore::registers::Register::{A, BC, DE, PC, SP};

fn rom_image(mbc_type: u8, ram_size: u8) -> Vec<u8> {
    let mut data = vec![0u8; 0x8000];
    data[0x147] = mbc_type;
    data[0x149] = ram_size;
    data
}

fn booted(mbc_type: u8, ram_size: u8) -> Gameboy {
    let cartridge = Cartridge::from_data(rom_image(mbc_type, ram_size), &[]);
    let mut gb = Gameboy::new(false, Mode::CGB);
    gb.boot(cartridge, true);
    gb
}

#[test]
fn banking_ram_write_survives_bank_switch() {
    // A cartridge of the first banking family with one 8 KB RAM bank:
    // enable RAM, write a byte, switch the ROM bank away and back, and the
    // byte must still be there.
    let mut gb = booted(0x01, 0x02);
    gb.bus.set8(0x0000, 0x0A);
    gb.bus.set8(0xA000, 0x77);
    assert_eq!(gb.bus.get8(0xA000), 0x77);
    gb.bus.set8(0x2000, 0x02);
    gb.bus.set8(0x2000, 0x01);
    assert_eq!(gb.bus.get8(0xA000), 0x77);
}

#[test]
fn inc_a_from_reset() {
    // From an all-zero register file, INC A leaves A=1 with all flags
    // clear, the program counter at 1, and one cycle consumed.
    let mut mb = MemoryBus::new_everything(&[0x3C]);
    let mut cpu = Cpu::new(Mode::DMG);
    assert_eq!(cpu.eval(&mut mb), 1);
    assert_eq!(cpu.registers.get8(A), 1);
    assert_eq!(cpu.registers.z_flag(), 0);
    assert_eq!(cpu.registers.n_flag(), 0);
    assert_eq!(cpu.registers.h_flag(), 0);
    assert_eq!(cpu.registers.pc(), 1);
}

#[test]
fn push_pop_transfers_pair_and_restores_sp() {
    // PUSH BC then POP DE leaves DE holding the original BC and the stack
    // pointer back where it started.
    let mut mb = MemoryBus::new_everything(&[0xC5, 0xD1]);
    let mut cpu = Cpu::new(Mode::DMG);
    cpu.registers.set16(SP, 0xFFFE);
    cpu.registers.set16(BC, 0xBEA7);
    assert_eq!(cpu.eval(&mut mb), 4);
    assert_eq!(cpu.eval(&mut mb), 4);
    assert_eq!(cpu.registers.get16(DE), 0xBEA7);
    assert_eq!(cpu.registers.get16(SP), 0xFFFE);
}

#[test]
fn jr_untaken_pays_penalty() {
    // A conditional relative jump whose condition fails costs one cycle
    // less than its taken cost from the decode table.
    let mut mb = MemoryBus::new_everything(&[0x20, 0x05]);
    let mut cpu = Cpu::new(Mode::DMG);
    cpu.registers.set_flags(true, false, false, false);
    assert_eq!(cpu.eval(&mut mb), 3);
    assert_eq!(cpu.registers.pc(), 2);
}

#[test]
fn jr_taken_full_cost() {
    let mut mb = MemoryBus::new_everything(&[0x20, 0x05]);
    let mut cpu = Cpu::new(Mode::DMG);
    cpu.registers.set_flags(false, false, false, false);
    assert_eq!(cpu.eval(&mut mb), 4);
    assert_eq!(cpu.registers.pc(), 7);
}

#[test]
fn call_untaken_pays_penalty() {
    let mut mb = MemoryBus::new_everything(&[0xC4, 0x00, 0x40]);
    let mut cpu = Cpu::new(Mode::DMG);
    cpu.registers.set16(SP, 0xFFFE);
    cpu.registers.set_flags(true, false, false, false);
    assert_eq!(cpu.eval(&mut mb), 3);
    assert_eq!(cpu.registers.pc(), 3);
}

#[test]
fn frame_completes_on_nop_rom() {
    // A ROM of no-ops with the display at its power-on state runs to the
    // frame-complete interrupt.
    let mut gb = booted(0x00, 0x00);
    let mut frame = vec![Color::new(0, 0, 0); 160 * 144];
    let mut audio: Vec<u16> = Vec::new();
    let r = gb.tick(&[], &mut frame, &mut audio);
    assert_eq!(r, TickResult::FrameComplete);
}

#[test]
fn unknown_opcode_faults() {
    // The first unrecognized primary byte aborts the frame with a fault:
    // the engine never silently aliases an invalid encoding.
    let mut gb = booted(0x00, 0x00);
    // Plant 0xD3, an invalid primary byte, in work RAM and execute it.
    let mut frame = vec![Color::new(0, 0, 0); 160 * 144];
    let mut audio: Vec<u16> = Vec::new();
    gb.bus.set8(0xC000, 0xD3);
    gb.cpu.registers.set16(PC, 0xC000);
    let r = gb.tick(&[], &mut frame, &mut audio);
    assert_eq!(r, TickResult::Fault);
}

#[test]
fn boot_rom_overlay_reads_header_window() {
    // Under the overlay the header bytes stay readable; after the
    // disable-register write the first bank reads from the image.
    let mut data = rom_image(0x00, 0x00);
    data[0x000] = 0xAA;
    data[0x140] = 0x55;
    let boot = [0x11u8, 0x22];
    let cartridge = Cartridge::from_data(data, &boot);
    let mut gb = Gameboy::new(false, Mode::CGB);
    gb.boot(cartridge, false);
    assert_eq!(gb.bus.get8(0x0000), 0x11);
    assert_eq!(gb.bus.get8(0x0001), 0x22);
    assert_eq!(gb.bus.get8(0x0140), 0x55);
    gb.bus.set8(0xFF50, 1);
    assert_eq!(gb.bus.get8(0x0000), 0xAA);
}

#[test]
fn sprite_table_dma_copies_through_bus() {
    // Writing the DMA trigger copies 160 bytes from the named page into
    // the sprite table.
    let mut gb = booted(0x00, 0x00);
    gb.bus.set8(0xC000, 0x12);
    gb.bus.set8(0xC001, 0x34);
    gb.bus.set8(0xFF46, 0xC0);
    assert_eq!(gb.bus.get8(0xFE00), 0x12);
    assert_eq!(gb.bus.get8(0xFE01), 0x34);
}

#[test]
fn vram_block_transfer_synchronous_copy() {
    // Writing the block-transfer control byte with its top bit clear
    // copies the configured block into video RAM at once, byte by byte
    // through the bus.
    let mut gb = booted(0x00, 0x00);
    for i in 0..16u16 {
        gb.bus.set8(0xC000 + i, (0x40 + i) as u8);
    }
    gb.bus.set8(0xFF51, 0xC0);
    gb.bus.set8(0xFF52, 0x00);
    gb.bus.set8(0xFF53, 0x00);
    gb.bus.set8(0xFF54, 0x00);
    gb.bus.set8(0xFF55, 0x00);
    for i in 0..16u16 {
        assert_eq!(gb.bus.get8(0x8000 + i), (0x40 + i) as u8);
    }
}

#[test]
fn dump_ram_returns_banked_store() {
    // The battery-RAM dump of a banking cartridge is the whole backing
    // store, with the bytes the guest wrote in place.
    let mut gb = booted(0x01, 0x02);
    gb.bus.set8(0x0000, 0x0A);
    gb.bus.set8(0xA000, 0x5A);
    let dump = gb.dump_ram();
    assert_eq!(dump.len(), 0x8000);
    assert_eq!(dump[0], 0x5A);
}

#[test]
fn halt_sets_latch_and_advances() {
    // HALT records the waiting latch, advances the program counter and
    // costs one cycle.
    let mut mb = MemoryBus::new_everything(&[0x76]);
    let mut cpu = Cpu::new(Mode::DMG);
    assert_eq!(cpu.eval(&mut mb), 1);
    assert!(cpu.halted);
    assert_eq!(cpu.registers.pc(), 1);
}

#[test]
fn starved_when_display_never_finishes_a_frame() {
    // With the display switched off no frame-complete interrupt can fire,
    // so a frame call exhausts its cycle budget and reports starvation.
    let mut gb = booted(0x00, 0x00);
    gb.bus.set8(0xFF40, 0x11);
    gb.bus.set8(0xC000, 0x18);
    gb.bus.set8(0xC001, 0xFE);
    gb.cpu.registers.set16(PC, 0xC000);
    let mut frame = vec![Color::new(0, 0, 0); 160 * 144];
    let mut audio: Vec<u16> = Vec::new();
    assert!(matches!(gb.tick(&[], &mut frame, &mut audio), TickResult::Starved));
}
