use gbcore::cartridge::Cartridge;
use gbcore::gameboy::Color;
use gbcore::devices::{EverythingDevice, RamDevice, RomDevice};
use gbcore::joypad::{JoypadController, JoypadInput};
use gbcore::lcd::LcdController;
use gbcore::mbc::{build_mbc, mbc_supported, Mbc, MbcType};
use gbcore::palette::{Palette, PaletteManager};
use gbcore::serial::SerialController;
use gbcore::sound::SoundController;
use gbcore::tiles::{Tile, TileSet};
use gbcore::interrupts::Interrupt;

#[test]
fn mbc_factory_maps_header_bytes() {
    assert!(mbc_supported(0x00));
    assert!(mbc_supported(0x03));
    assert!(mbc_supported(0x10));
    assert!(mbc_supported(0x1B));
    assert!(!mbc_supported(0x20));
    assert!(matches!(build_mbc(0).mbc_type(), MbcType::RomOnly));
    assert!(matches!(build_mbc(1).mbc_type(), MbcType::Mbc1));
    assert!(matches!(build_mbc(0x0F).mbc_type(), MbcType::Mbc3));
    assert!(matches!(build_mbc(0x19).mbc_type(), MbcType::Mbc5));
}

#[test]
fn mbc1_bank_zero_aliases_remap_up() {
    // Selecting an aliasing bank number reads back one higher: 0x20 turns
    // into 0x21, never 0x20.
    let mut m = build_mbc(1);
    m.set8(0x4000, 0x01);
    m.set8(0x2000, 0x00);
    assert_eq!(m.rom_bank_num(), 0x21);
    m.set8(0x4000, 0x00);
    assert_eq!(m.rom_bank_num(), 0x01);
    m.set8(0x2000, 0x12);
    assert_eq!(m.rom_bank_num(), 0x12);
}

#[test]
fn mbc3_bank_zero_reads_as_one() {
    let mut m = build_mbc(0x0F);
    assert_eq!(m.rom_bank_num(), 1);
    m.set8(0x2000, 0x45);
    assert_eq!(m.rom_bank_num(), 0x45);
    m.set8(0x2000, 0x00);
    assert_eq!(m.rom_bank_num(), 1);
}

#[test]
fn mbc5_nine_bit_bank_register() {
    let mut m = build_mbc(0x19);
    m.set8(0x2000, 0xFE);
    m.set8(0x3000, 0x01);
    assert_eq!(m.rom_bank_num(), 0x1FE);
}

#[test]
fn mbc_ram_dump_restore_round_trip() {
    let mut m = build_mbc(1);
    m.set8(0xA000, 0x42);
    m.set8(0xA001, 0x43);
    let saved = m.dump_ram();
    assert_eq!(saved.len(), 0x8000);
    let mut m2 = build_mbc(1);
    m2.load_ram(saved.as_slice());
    assert_eq!(m2.get8(0xA000), 0x42);
    assert_eq!(m2.get8(0xA001), 0x43);
}

#[test]
fn mbc3_clock_registers_read_zero() {
    let mut m = build_mbc(0x0F);
    m.set8(0x4000, 0x08);
    m.set8(0xA000, 0x99);
    assert_eq!(m.get8(0xA000), 0);
    m.set8(0x4000, 0x00);
    m.set8(0xA000, 0x55);
    assert_eq!(m.get8(0xA000), 0x55);
}

#[test]
fn ram_device_banks_and_bounds() {
    let mut r = RamDevice::new(0xD000, 0x1000, 7);
    r.set8(0xD000, 0x11);
    assert_eq!(r.get8(0xD000), 0x11);
    // Switch to bank 2 through the bank-select register; the cell reads
    // differently there, and the register reads the bank back.
    r.set8(0xFF70, 0x02);
    assert_eq!(r.get8(0xFF70), 2);
    assert_eq!(r.get8(0xD000), 0);
    r.set8(0xFF70, 0x01);
    assert_eq!(r.get8(0xD000), 0x11);
    // Out-of-range reads absorb to ones.
    assert_eq!(r.get8(0x8000), 0xFF);
}

#[test]
fn rom_device_loads_prefix() {
    let mut r = RomDevice::new(16);
    r.load(&[1, 2, 3]);
    assert_eq!(r.get8(0), 1);
    assert_eq!(r.get8(2), 3);
    assert_eq!(r.get8(3), 0);
}

#[test]
fn everything_device_round_trip() {
    let mut d = EverythingDevice::new(&[9, 8]);
    assert_eq!(d.get8(0), 9);
    d.set8(0xFFFF, 0x5A);
    assert_eq!(d.get8(0xFFFF), 0x5A);
}

#[test]
fn serial_shifts_ones_and_completes() {
    let mut s = SerialController::new();
    s.set8(0xFF01, 0x00);
    s.set8(0xFF02, 0x81);
    let mut raised = 0;
    for _ in 0..200 {
        if s.tick(1).is_some() {
            raised += 1;
        }
    }
    assert_eq!(raised, 1);
    assert_eq!(s.get8(0xFF01), 0x01);
    assert_eq!(s.get8(0xFF02), 0x01);
}

#[test]
fn joypad_selects_nibbles() {
    let mut j = JoypadController::new();
    j.set_pressed(&[JoypadInput::A, JoypadInput::Down]);
    j.set8(0xFF00, 0x20);
    assert_eq!(j.get8(0xFF00), 0x20 | 0x07);
    j.set8(0xFF00, 0x10);
    assert_eq!(j.get8(0xFF00), 0x10 | 0x0E);
    j.set8(0xFF00, 0x30);
    assert_eq!(j.get8(0xFF00), 0x3F);
}

#[test]
fn monochrome_palette_maps_shades() {
    let p = Palette::new(0b11100100);
    assert_eq!(p.color(0).r, 31);
    assert_eq!(p.color(1).r, 20);
    assert_eq!(p.color(2).r, 10);
    assert_eq!(p.color(3).r, 0);
}

#[test]
fn palette_manager_decodes_channels() {
    let mut pm = PaletteManager::new();
    pm.set_index(0x80);
    pm.set8(0xFF);
    pm.set8(0x7F);
    let px = gbcore::bgmap::BGPixel { value: 0, above_oam: false, palette_number: 0 };
    let c = pm.color(px);
    assert_eq!(c.r, 31);
    assert_eq!(c.g, 31);
    assert_eq!(c.b, 31);
}

#[test]
fn tile_rows_decode_two_bit_pixels() {
    let mut data = vec![0u8; 16];
    data[0] = 0b1010_0000;
    data[1] = 0b1100_0000;
    let t = Tile::new(data);
    let row = t.row(0);
    assert_eq!(row[0], 3);
    assert_eq!(row[1], 2);
    assert_eq!(row[2], 1);
    assert_eq!(row[3], 0);
}

#[test]
fn tile_set_signed_indexing() {
    let mut data = vec![0u8; 0x1000];
    data[0x800] = 0x7E;
    let ts = TileSet::new(data, true);
    let t = ts.tile(0);
    assert_eq!(t.data[0], 0x7E);
}

#[test]
fn lcd_registers_read_back() {
    let mut l = LcdController::new();
    assert_eq!(l.get8(0xFF40), 0x91);
    l.set8(0xFF42, 7);
    assert_eq!(l.get8(0xFF42), 7);
    l.set8(0x8000, 0xAB);
    assert_eq!(l.get8(0x8000), 0xAB);
    l.set8(0xFF4F, 1);
    assert_eq!(l.get8(0x8000), 0x00);
    l.set8(0xFF4F, 0);
    assert_eq!(l.get8(0x8000), 0xAB);
}

#[test]
fn sound_power_switch_gates_writes() {
    let mut s = SoundController::new();
    s.set8(0xFF24, 0x77);
    assert_eq!(s.get8(0xFF24), 0x00);
    s.set8(0xFF26, 0x80);
    s.set8(0xFF24, 0x77);
    assert_eq!(s.get8(0xFF24), 0x77);
    assert_eq!(s.get8(0xFF26) & 0x80, 0x80);
    s.set8(0xFF26, 0x00);
    assert_eq!(s.get8(0xFF24), 0x00);
}

#[test]
fn sound_tick_emits_stereo_pairs() {
    let mut s = SoundController::new();
    let mut q: Vec<u16> = Vec::new();
    s.tick(10, &mut q);
    assert_eq!(q.len(), 2);
    s.set8(0xFF26, 0x80);
    s.tick(10, &mut q);
    assert_eq!(q.len(), 22);
}

#[test]
fn cartridge_header_fields() {
    let mut data = vec![0u8; 0x8000];
    data[0x143] = 0x80;
    data[0x147] = 0x01;
    data[0x148] = 0x02;
    data[0x149] = 0x03;
    let c = Cartridge::from_data(data, &[]);
    assert!(c.cgb_compatible());
    assert!(matches!(c.mbc_type(), MbcType::Mbc1));
    assert_eq!(c.rom_size(), 0x02);
    assert_eq!(c.ram_size(), 0x03);
}

#[test]
fn cartridge_bank_window_wraps_modulo_image() {
    let mut data = vec![0u8; 0x8000];
    data[0x147] = 0x01;
    data[0x4000] = 0xEE;
    let mut c = Cartridge::from_data(data, &[]);
    assert_eq!(c.get8(0x4000), 0xEE);
    // Bank 2 of a two-bank image wraps to bank 0.
    c.set8(0x2000, 0x02);
    assert_eq!(c.get8(0x4000), 0x00);
    c.set8(0x2000, 0x01);
    assert_eq!(c.get8(0x4000), 0xEE);
}

#[test]
fn alu_flag_tables() {
    // The canonical worked example: 0x3A + 0xC6 = 0x00 with Z, H and C
    // set and N clear.
    let out = gbcore::alu::add8(0x3A, 0xC6, 0);
    assert_eq!(out.v, 0);
    assert!(out.z && !out.n && out.h && out.cy);
    let out = gbcore::alu::sub8(0x3E, 0x40, 0);
    assert_eq!(out.v, 0xFE);
    assert!(!out.z && out.n && !out.h && out.cy);
    let out = gbcore::alu::and8(0x5A, 0x3F);
    assert_eq!(out.v, 0x1A);
    assert!(out.h && !out.cy);
}

#[test]
fn combine_and_split_bytes() {
    assert_eq!(gbcore::bits::combine16(0xDE, 0xAD), 0xDEAD);
    assert_eq!(gbcore::bits::high_byte(0xDEAD), 0xDE);
    assert_eq!(gbcore::bits::low_byte(0xDEAD), 0xAD);
}

#[test]
fn symbol_file_parses_label_lines() {
    let text = b"; routine map\nnoise\n[labels]\n1:4A30 main_loop\n01:0150 start\n";
    let syms = gbcore::symbols::Symbols::parse(text).unwrap();
    assert_eq!(syms.labels.len(), 2);
    assert_eq!(syms.get(0x4A30).unwrap().as_slice(), b"main_loop");
    assert_eq!(syms.get(0x0150).unwrap().as_slice(), b"start");
    assert!(syms.get(0x9999).is_none());
}

#[test]
fn symbol_file_rejects_malformed_label() {
    let text = b"[labels]\n1:XYZ broken\n";
    assert!(gbcore::symbols::Symbols::parse(text).is_none());
}

#[test]
fn hex_numerals_parse_exactly() {
    assert_eq!(gbcore::symbols::parse_hex(b"0"), Some(0));
    assert_eq!(gbcore::symbols::parse_hex(b"ff"), Some(255));
    assert_eq!(gbcore::symbols::parse_hex(b"DEAD"), Some(0xDEAD));
    assert_eq!(gbcore::symbols::parse_hex(b"FFFFFFFF"), Some(0xFFFFFFFF));
    assert_eq!(gbcore::symbols::parse_hex(b""), None);
    assert_eq!(gbcore::symbols::parse_hex(b"123456789"), None);
    assert_eq!(gbcore::symbols::parse_hex(b"1g"), None);
}

#[test]
fn ram_enable_latch_needs_low_nibble_a() {
    // The enable latch is set exactly when the written byte's low nibble
    // is 0xA: 0x0A and 0x1A set it, 0x0B and 0x00 clear it.
    let mut m = build_mbc(1);
    m.set8(0x0000, 0x0B);
    assert!(matches!(m, Mbc::Mbc1 { ram_bank_enabled: false, .. }));
    m.set8(0x0000, 0x1A);
    assert!(matches!(m, Mbc::Mbc1 { ram_bank_enabled: true, .. }));
    m.set8(0x0000, 0x00);
    assert!(matches!(m, Mbc::Mbc1 { ram_bank_enabled: false, .. }));
}

#[test]
fn fresh_mbc1_aliasing_selector_reads_back_plus_one() {
    // On a controller fresh from the factory, selecting the combined bank
    // 0x20 (two-bit register one, five-bit register zero) reads back as
    // the effective bank 0x21, never 0x20.
    let mut m = build_mbc(0x01);
    m.set8(0x2000, 0x00);
    m.set8(0x4000, 0x01);
    assert_eq!(m.rom_bank_num(), 0x21);
}

#[test]
fn stat_write_touches_only_enable_bits() {
    // A status-register write lands only in the interrupt-enable bits;
    // the mode and coincidence bits are read-only, and the top bit reads
    // back set while the display is on.
    let mut lcd = LcdController::new();
    lcd.set8(0xFF41, 0xFF);
    assert_eq!(lcd.get8(0xFF41), 0xF8);
}

#[test]
fn lcdc_disable_resets_scanline() {
    // Switching the display off resets the scanline register and the
    // period machine.
    let mut lcd = LcdController::new();
    let mut fb = vec![Color::new(0, 0, 0); 160 * 144];
    lcd.tick(400, &mut fb);
    assert!(lcd.get8(0xFF44) > 0);
    lcd.set8(0xFF40, 0x11);
    assert_eq!(lcd.get8(0xFF44), 0);
}

#[test]
fn stat_interrupt_fires_on_hblank_entry() {
    // With the horizontal-blank enable bit set in the status register,
    // entering the horizontal blank raises the display-status interrupt;
    // with it clear, the same transition raises nothing.
    let mut fb = vec![Color::new(0, 0, 0); 160 * 144];
    let mut lcd = LcdController::new();
    lcd.set8(0xFF41, 0x08);
    let raised = lcd.tick(64, &mut fb);
    assert_eq!(raised.len(), 1);
    assert!(matches!(raised[0], Interrupt::Stat));
    let mut quiet = LcdController::new();
    let none = quiet.tick(64, &mut fb);
    assert_eq!(none.len(), 0);
}

#[test]
fn palette_data_port_auto_increments() {
    // Arming auto-increment through the index port steps the index after
    // every data-port store.
    let mut lcd = LcdController::new();
    lcd.set8(0xFF68, 0x80);
    lcd.set8(0xFF69, 0x12);
    lcd.set8(0xFF69, 0x34);
    assert_eq!(lcd.bg_palette_manager.data[0], 0x12);
    assert_eq!(lcd.bg_palette_manager.data[1], 0x34);
    assert_eq!(lcd.bg_palette_manager.index, 2);
}

#[test]
fn vram_dma_registers_assemble_source_and_destination() {
    // The four transfer registers assemble the source (low nibble
    // dropped) and the destination (clamped into video RAM).
    let mut lcd = LcdController::new();
    lcd.set8(0xFF51, 0xC1);
    lcd.set8(0xFF52, 0x23);
    lcd.set8(0xFF53, 0x7F);
    lcd.set8(0xFF54, 0xFF);
    assert_eq!(lcd.vram_dma_src, 0xC120);
    assert_eq!(lcd.vram_dma_dst, 0x1FF0);
}
