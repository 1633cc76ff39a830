use gbcore::bus::MemoryBus;
use gbcore::cpu::Cpu;
use gbcore::gameboy::Mode;
use gbcore::registers::Register::{A, B, C, D, E, F, H, L, AF, BC, DE, HL, SP, PC};


#[test]
fn cpu_test_nop() {
        let mut mb = MemoryBus::new_everything(&[0x00]);
        let mut cpu = Cpu::new(Mode::DMG);

        assert_eq!(cpu.step(&mut mb), 1);
        assert_eq!(cpu.registers.pc(), 0x01);
}

#[test]
fn cpu_test_02() {
        let mut mb = MemoryBus::new_everything(&[0x02]);
        let mut cpu = Cpu::new(Mode::DMG);
        cpu.registers.set16(BC, 0x1234);
        cpu.registers.set8(A, 42);

        assert_eq!(cpu.step(&mut mb), 2);
        assert_eq!(cpu.registers.pc(), 0x01);
        assert_eq!(mb.get8(0x1234), 42);
}

#[test]
fn cpu_test_06() {
        let mut mb = MemoryBus::new_everything(&[0x06, 42]);
        let mut cpu = Cpu::new(Mode::DMG);

        assert_eq!(cpu.step(&mut mb), 2);
        assert_eq!(cpu.registers.pc(), 0x02);
        assert_eq!(cpu.registers.get8(B), 42);
}

#[test]
fn cpu_test_0a() {
        let mut mb = MemoryBus::new_everything(&[0x0A, 42]);
        let mut cpu = Cpu::new(Mode::DMG);
        cpu.registers.set16(BC, 0x1234);
        mb.set8(0x1234, 42);

        assert_eq!(cpu.step(&mut mb), 2);
        assert_eq!(cpu.registers.pc(), 0x01);
        assert_eq!(cpu.registers.get8(A), 42);
}

#[test]
fn cpu_test_e2() {
        let mut mb = MemoryBus::new_everything(&[0xE2]);
        let mut cpu = Cpu::new(Mode::DMG);
        cpu.registers.set8(C, 0x34);
        cpu.registers.set8(A, 42);

        assert_eq!(cpu.step(&mut mb), 2);
        assert_eq!(cpu.registers.pc(), 0x01);
        assert_eq!(mb.get8(0xFF34), 42);
}

#[test]
fn cpu_test_ea() {
        let mut mb = MemoryBus::new_everything(&[0xEA, 0xAD, 0xDE]);
        let mut cpu = Cpu::new(Mode::DMG);
        cpu.registers.set8(C, 0x34);
        cpu.registers.set8(A, 42);

        assert_eq!(cpu.step(&mut mb), 4);
        assert_eq!(cpu.registers.pc(), 0x03);
        assert_eq!(mb.get8(0xDEAD), 42);
}

#[test]
fn cpu_test_f2() {
        let mut mb = MemoryBus::new_everything(&[0xF2]);
        let mut cpu = Cpu::new(Mode::DMG);
        mb.set8(0xFF34, 42);
        cpu.registers.set8(C, 0x34);

        assert_eq!(cpu.step(&mut mb), 2);
        assert_eq!(cpu.registers.pc(), 0x01);
        assert_eq!(mb.get8(0xFF34), 42);
}

#[test]
fn cpu_test_fa() {
        let mut mb = MemoryBus::new_everything(&[0xFA, 0xAD, 0xDE]);
        let mut cpu = Cpu::new(Mode::DMG);
        mb.set8(0xDEAD, 42);

        assert_eq!(cpu.step(&mut mb), 4);
        assert_eq!(cpu.registers.pc(), 0x03);
        assert_eq!(cpu.registers.get8(A), 42);
}

#[test]
fn cpu_test_e0() {
        let mut mb = MemoryBus::new_everything(&[0xE0, 0x34]);
        let mut cpu = Cpu::new(Mode::DMG);
        cpu.registers.set8(A, 42);

        assert_eq!(cpu.step(&mut mb), 3);
        assert_eq!(cpu.registers.pc(), 0x02);
        assert_eq!(mb.get8(0xFF34), 42);
}

#[test]
fn cpu_test_f0() {
        let mut mb = MemoryBus::new_everything(&[0xF0, 0x34]);
        let mut cpu = Cpu::new(Mode::DMG);
        mb.set8(0xFF34, 42);

        assert_eq!(cpu.step(&mut mb), 3);
        assert_eq!(cpu.registers.pc(), 0x02);
        assert_eq!(cpu.registers.get8(A), 42);
}

#[test]
fn cpu_test_22() {
        let mut mb = MemoryBus::new_everything(&[0x22]);
        let mut cpu = Cpu::new(Mode::DMG);
        cpu.registers.set16(HL, 0xDEAD);
        cpu.registers.set8(A, 42);

        assert_eq!(cpu.step(&mut mb), 2);
        assert_eq!(cpu.registers.pc(), 0x01);
        assert_eq!(mb.get8(0xDEAD), 42);
        assert_eq!(cpu.registers.get16(HL), 0xDEAE);
}

#[test]
fn cpu_test_2a() {
        let mut mb = MemoryBus::new_everything(&[0x2a]);
        let mut cpu = Cpu::new(Mode::DMG);
        cpu.registers.set16(HL, 0xDEAD);
        mb.set8(0xDEAD, 42);

        assert_eq!(cpu.step(&mut mb), 2);
        assert_eq!(cpu.registers.pc(), 0x01);
        assert_eq!(cpu.registers.get8(A), 42);
        assert_eq!(cpu.registers.get16(HL), 0xDEAE);
}

#[test]
fn cpu_test_32() {
        let mut mb = MemoryBus::new_everything(&[0x32]);
        let mut cpu = Cpu::new(Mode::DMG);
        cpu.registers.set16(HL, 0xDEAD);
        cpu.registers.set8(A, 42);

        assert_eq!(cpu.step(&mut mb), 2);
        assert_eq!(cpu.registers.pc(), 0x01);
        assert_eq!(mb.get8(0xDEAD), 42);
        assert_eq!(cpu.registers.get16(HL), 0xDEAC);
}

#[test]
fn cpu_test_3a() {
        let mut mb = MemoryBus::new_everything(&[0x3a]);
        let mut cpu = Cpu::new(Mode::DMG);
        cpu.registers.set16(HL, 0xDEAD);
        mb.set8(0xDEAD, 42);

        assert_eq!(cpu.step(&mut mb), 2);
        assert_eq!(cpu.registers.pc(), 0x01);
        assert_eq!(cpu.registers.get8(A), 42);
        assert_eq!(cpu.registers.get16(HL), 0xDEAC);
}

#[test]
fn cpu_test_01() {
        let mut mb = MemoryBus::new_everything(&[0x01, 0xAD, 0xDE]);
        let mut cpu = Cpu::new(Mode::DMG);

        assert_eq!(cpu.step(&mut mb), 3);
        assert_eq!(cpu.registers.pc(), 0x03);
        assert_eq!(cpu.registers.get16(BC), 0xDEAD);
}

#[test]
fn cpu_test_08() {
        let mut mb = MemoryBus::new_everything(&[0x08, 0xAD, 0xDE]);
        let mut cpu = Cpu::new(Mode::DMG);
        cpu.registers.set16(SP, 0x1234);

        assert_eq!(cpu.step(&mut mb), 5);
        assert_eq!(cpu.registers.pc(), 0x03);
        assert_eq!(mb.get8(0xDEAD), 0x12);
        assert_eq!(mb.get8(0xDEAE), 0x34);
}

#[test]
fn cpu_test_c5() {
        let mut mb = MemoryBus::new_everything(&[0xC5]);
        let mut cpu = Cpu::new(Mode::DMG);
        cpu.registers.set16(SP, 0xFFFE);
        cpu.registers.set16(BC, 0x1234);

        assert_eq!(cpu.step(&mut mb), 4);
        assert_eq!(cpu.registers.pc(), 0x01);
        assert_eq!(mb.get8(0xFFFC), 0x12);
        assert_eq!(mb.get8(0xFFFD), 0x34);
        assert_eq!(cpu.registers.get16(SP), 0xFFFC);
}

#[test]
fn cpu_test_e1() {
        let mut mb = MemoryBus::new_everything(&[0xE1]);
        let mut cpu = Cpu::new(Mode::DMG);
        cpu.registers.set16(SP, 0xFFFC);
        mb.set16(0xFFFC, 0xDEAD);

        assert_eq!(cpu.step(&mut mb), 4);
        assert_eq!(cpu.registers.pc(), 0x01);
        assert_eq!(cpu.registers.get16(HL), 0xDEAD);
        assert_eq!(cpu.registers.get16(SP), 0xFFFE);
}

#[test]
fn cpu_test_82() {
        let mut mb = MemoryBus::new_everything(&[0x82]);
        let mut cpu = Cpu::new(Mode::DMG);
        cpu.registers.set8(A, 2);
        cpu.registers.set8(D, 3);

        assert_eq!(cpu.step(&mut mb), 1);
        assert_eq!(cpu.registers.pc(), 0x01);
        assert_eq!(cpu.registers.get8(A), 5);
        assert_eq!(cpu.registers.z_flag(), 0);
        assert_eq!(cpu.registers.n_flag(), 0);
        assert_eq!(cpu.registers.h_flag(), 0);
        assert_eq!(cpu.registers.cy_flag(), 0);
        assert_eq!(cpu.registers.get8(F), 0b00000000);
}

#[test]
fn cpu_test_82_zhcy() {
        let mut mb = MemoryBus::new_everything(&[0x82]);
        let mut cpu = Cpu::new(Mode::DMG);
        cpu.registers.set8(A, 0x3A);
        cpu.registers.set8(D, 0xC6);

        assert_eq!(cpu.step(&mut mb), 1);
        assert_eq!(cpu.registers.pc(), 0x01);
        assert_eq!(cpu.registers.get8(A), 0);
        assert_eq!(cpu.registers.z_flag(), 1);
        assert_eq!(cpu.registers.n_flag(), 0);
        assert_eq!(cpu.registers.h_flag(), 1);
        assert_eq!(cpu.registers.cy_flag(), 1);
        assert_eq!(cpu.registers.get8(F), 0b10110000);
}

#[test]
fn cpu_test_82_h() {
        let mut mb = MemoryBus::new_everything(&[0x82]);
        let mut cpu = Cpu::new(Mode::DMG);
        cpu.registers.set8(A, 10);
        cpu.registers.set8(D, 11);

        assert_eq!(cpu.step(&mut mb), 1);
        assert_eq!(cpu.registers.pc(), 0x01);
        assert_eq!(cpu.registers.get8(A), 21);
        assert_eq!(cpu.registers.z_flag(), 0);
        assert_eq!(cpu.registers.n_flag(), 0);
        assert_eq!(cpu.registers.h_flag(), 1);
        assert_eq!(cpu.registers.cy_flag(), 0);
}

#[test]
fn cpu_test_c6_hcy() {
        let mut mb = MemoryBus::new_everything(&[0xC6, 0x7]);
        let mut cpu = Cpu::new(Mode::DMG);
        cpu.registers.set8(A, 250);

        assert_eq!(cpu.step(&mut mb), 2);
        assert_eq!(cpu.registers.pc(), 0x02);
        assert_eq!(cpu.registers.get8(A), 1);
        assert_eq!(cpu.registers.z_flag(), 0);
        assert_eq!(cpu.registers.n_flag(), 0);
        assert_eq!(cpu.registers.h_flag(), 1);
        assert_eq!(cpu.registers.cy_flag(), 1);
}

#[test]
fn cpu_test_8b() {
        let mut mb = MemoryBus::new_everything(&[0x8B]);
        let mut cpu = Cpu::new(Mode::DMG);
        cpu.registers.set8(A, 0xE1);
        cpu.registers.set8(E, 0x0F);
        cpu.registers.set_flags(false, false, false, true);

        assert_eq!(cpu.step(&mut mb), 1);
        assert_eq!(cpu.registers.pc(), 0x01);
        assert_eq!(cpu.registers.get8(A), 0xF1);
        assert_eq!(cpu.registers.z_flag(), 0);
        assert_eq!(cpu.registers.n_flag(), 0);
        assert_eq!(cpu.registers.h_flag(), 1);
        assert_eq!(cpu.registers.cy_flag(), 0);
}

#[test]
fn cpu_test_ce() {
        let mut mb = MemoryBus::new_everything(&[0xCE, 0x3B]);
        let mut cpu = Cpu::new(Mode::DMG);
        cpu.registers.set8(A, 0xE1);
        cpu.registers.set_flags(false, false, false, true);

        assert_eq!(cpu.step(&mut mb), 2);
        assert_eq!(cpu.registers.pc(), 0x02);
        assert_eq!(cpu.registers.get8(A), 0x1D);
        assert_eq!(cpu.registers.z_flag(), 0);
        assert_eq!(cpu.registers.n_flag(), 0);
        assert_eq!(cpu.registers.h_flag(), 0);
        assert_eq!(cpu.registers.cy_flag(), 1);
}

#[test]
fn cpu_test_8e() {
        let mut mb = MemoryBus::new_everything(&[0x8E]);
        let mut cpu = Cpu::new(Mode::DMG);
        cpu.registers.set8(A, 0xE1);
        cpu.registers.set16(HL, 0x1234);
        mb.set8(0x1234, 0x1E);
        cpu.registers.set_flags(false, false, false, true);

        assert_eq!(cpu.step(&mut mb), 2);
        assert_eq!(cpu.registers.pc(), 0x01);
        assert_eq!(cpu.registers.get8(A), 0x00);
        assert_eq!(cpu.registers.z_flag(), 1);
        assert_eq!(cpu.registers.n_flag(), 0);
        assert_eq!(cpu.registers.h_flag(), 1);
        assert_eq!(cpu.registers.cy_flag(), 1);
}

#[test]
fn cpu_test_93() {
        let mut mb = MemoryBus::new_everything(&[0x93]);
        let mut cpu = Cpu::new(Mode::DMG);
        cpu.registers.set8(A, 0x3E);
        cpu.registers.set8(E, 0x3E);

        assert_eq!(cpu.step(&mut mb), 1);
        assert_eq!(cpu.registers.pc(), 0x01);
        assert_eq!(cpu.registers.get8(A), 0x00);
        assert_eq!(cpu.registers.z_flag(), 1);
        assert_eq!(cpu.registers.n_flag(), 1);
        assert_eq!(cpu.registers.h_flag(), 0);
        assert_eq!(cpu.registers.cy_flag(), 0);
}

#[test]
fn cpu_test_d6() {
        let mut mb = MemoryBus::new_everything(&[0xD6, 0x0F]);
        let mut cpu = Cpu::new(Mode::DMG);
        cpu.registers.set8(A, 0x3E);

        assert_eq!(cpu.step(&mut mb), 2);
        assert_eq!(cpu.registers.pc(), 0x02);
        assert_eq!(cpu.registers.get8(A), 0x2F);
        assert_eq!(cpu.registers.z_flag(), 0);
        assert_eq!(cpu.registers.n_flag(), 1);
        assert_eq!(cpu.registers.h_flag(), 1);
        assert_eq!(cpu.registers.cy_flag(), 0);
}

#[test]
fn cpu_test_96() {
        let mut mb = MemoryBus::new_everything(&[0x96]);
        let mut cpu = Cpu::new(Mode::DMG);
        cpu.registers.set8(A, 0x3E);
        cpu.registers.set16(HL, 0x1234);
        mb.set8(0x1234, 0x40);

        assert_eq!(cpu.step(&mut mb), 2);
        assert_eq!(cpu.registers.pc(), 0x01);
        assert_eq!(cpu.registers.get8(A), 0xFE);
        assert_eq!(cpu.registers.z_flag(), 0);
        assert_eq!(cpu.registers.n_flag(), 1);
        assert_eq!(cpu.registers.h_flag(), 0);
        assert_eq!(cpu.registers.cy_flag(), 1);
}

#[test]
fn cpu_test_9c() {
        let mut mb = MemoryBus::new_everything(&[0x9c]);
        let mut cpu = Cpu::new(Mode::DMG);
        cpu.registers.set8(A, 0x3B);
        cpu.registers.set8(H, 0x2A);
        cpu.registers.set_flags(false, false, false, true);

        assert_eq!(cpu.step(&mut mb), 1);
        assert_eq!(cpu.registers.pc(), 0x01);
        assert_eq!(cpu.registers.get8(A), 0x10);
        assert_eq!(cpu.registers.z_flag(), 0);
        assert_eq!(cpu.registers.n_flag(), 1);
        assert_eq!(cpu.registers.h_flag(), 0);
        assert_eq!(cpu.registers.cy_flag(), 0);
}

#[test]
fn cpu_test_de() {
        let mut mb = MemoryBus::new_everything(&[0xDE, 0x3A]);
        let mut cpu = Cpu::new(Mode::DMG);
        cpu.registers.set8(A, 0x3B);
        cpu.registers.set_flags(false, false, false, true);

        assert_eq!(cpu.step(&mut mb), 2);
        assert_eq!(cpu.registers.pc(), 0x02);
        assert_eq!(cpu.registers.get8(A), 0x00);
        assert_eq!(cpu.registers.z_flag(), 1);
        assert_eq!(cpu.registers.n_flag(), 1);
        assert_eq!(cpu.registers.h_flag(), 0);
        assert_eq!(cpu.registers.cy_flag(), 0);
}

#[test]
fn cpu_test_9e() {
        let mut mb = MemoryBus::new_everything(&[0x9E]);
        let mut cpu = Cpu::new(Mode::DMG);
        cpu.registers.set8(A, 0x3B);
        cpu.registers.set16(HL, 0x1234);
        mb.set8(0x1234, 0x4F);
        cpu.registers.set_flags(false, false, false, true);

        assert_eq!(cpu.step(&mut mb), 2);
        assert_eq!(cpu.registers.pc(), 0x01);
        assert_eq!(cpu.registers.get8(A), 0xEB);
        assert_eq!(cpu.registers.z_flag(), 0);
        assert_eq!(cpu.registers.n_flag(), 1);
        assert_eq!(cpu.registers.h_flag(), 1);
        assert_eq!(cpu.registers.cy_flag(), 1);
}

#[test]
fn cpu_test_a5() {
        let mut mb = MemoryBus::new_everything(&[0xa5]);
        let mut cpu = Cpu::new(Mode::DMG);
        cpu.registers.set8(A, 0x5A);
        cpu.registers.set8(L, 0x3F);

        assert_eq!(cpu.step(&mut mb), 1);
        assert_eq!(cpu.registers.pc(), 0x01);
        assert_eq!(cpu.registers.get8(A), 0x1A);
        assert_eq!(cpu.registers.z_flag(), 0);
        assert_eq!(cpu.registers.n_flag(), 0);
        assert_eq!(cpu.registers.h_flag(), 1);
        assert_eq!(cpu.registers.cy_flag(), 0);
}

#[test]
fn cpu_test_f6() {
        let mut mb = MemoryBus::new_everything(&[0xF6, 0x03]);
        let mut cpu = Cpu::new(Mode::DMG);
        cpu.registers.set8(A, 0x5A);

        assert_eq!(cpu.step(&mut mb), 2);
        assert_eq!(cpu.registers.pc(), 0x02);
        assert_eq!(cpu.registers.get8(A), 0x5B);
        assert_eq!(cpu.registers.z_flag(), 0);
        assert_eq!(cpu.registers.n_flag(), 0);
        assert_eq!(cpu.registers.h_flag(), 0);
        assert_eq!(cpu.registers.cy_flag(), 0);
}

#[test]
fn cpu_test_ae() {
        let mut mb = MemoryBus::new_everything(&[0xae]);
        let mut cpu = Cpu::new(Mode::DMG);
        cpu.registers.set8(A, 0xFF);
        cpu.registers.set16(HL, 0x1234);
        mb.set8(0x1234, 0x8A);

        assert_eq!(cpu.step(&mut mb), 2);
        assert_eq!(cpu.registers.pc(), 0x01);
        assert_eq!(cpu.registers.get8(A), 0x75);
        assert_eq!(cpu.registers.z_flag(), 0);
        assert_eq!(cpu.registers.n_flag(), 0);
        assert_eq!(cpu.registers.h_flag(), 0);
        assert_eq!(cpu.registers.cy_flag(), 0);
}

#[test]
fn cpu_test_b8() {
        let mut mb = MemoryBus::new_everything(&[0xB8]);
        let mut cpu = Cpu::new(Mode::DMG);
        cpu.registers.set8(A, 0x3C);
        cpu.registers.set8(B, 0x2F);

        assert_eq!(cpu.step(&mut mb), 1);
        assert_eq!(cpu.registers.pc(), 0x01);
        assert_eq!(cpu.registers.get8(A), 0x3C);
        assert_eq!(cpu.registers.z_flag(), 0);
        assert_eq!(cpu.registers.n_flag(), 1);
        assert_eq!(cpu.registers.h_flag(), 1);
        assert_eq!(cpu.registers.cy_flag(), 0);
}

#[test]
fn cpu_test_fe() {
        let mut mb = MemoryBus::new_everything(&[0xFE, 0x3C]);
        let mut cpu = Cpu::new(Mode::DMG);
        cpu.registers.set8(A, 0x3C);

        assert_eq!(cpu.step(&mut mb), 2);
        assert_eq!(cpu.registers.pc(), 0x02);
        assert_eq!(cpu.registers.get8(A), 0x3C);
        assert_eq!(cpu.registers.z_flag(), 1);
        assert_eq!(cpu.registers.n_flag(), 1);
        assert_eq!(cpu.registers.h_flag(), 0);
        assert_eq!(cpu.registers.cy_flag(), 0);
}

#[test]
fn cpu_test_be() {
        let mut mb = MemoryBus::new_everything(&[0xBE]);
        let mut cpu = Cpu::new(Mode::DMG);
        cpu.registers.set8(A, 0x3C);
        cpu.registers.set16(HL, 0x1234);
        mb.set8(0x1234, 0x40);

        assert_eq!(cpu.step(&mut mb), 2);
        assert_eq!(cpu.registers.pc(), 0x01);
        assert_eq!(cpu.registers.get8(A), 0x3C);
        assert_eq!(cpu.registers.z_flag(), 0);
        assert_eq!(cpu.registers.n_flag(), 1);
        assert_eq!(cpu.registers.h_flag(), 0);
        assert_eq!(cpu.registers.cy_flag(), 1);
}

#[test]
fn cpu_test_3c() {
        let mut mb = MemoryBus::new_everything(&[0x3C]);
        let mut cpu = Cpu::new(Mode::DMG);
        cpu.registers.set8(A, 0xFF);
        cpu.registers.set_flags(false, false, false, true);

        assert_eq!(cpu.step(&mut mb), 1);
        assert_eq!(cpu.registers.pc(), 0x01);
        assert_eq!(cpu.registers.get8(A), 0x00);
        assert_eq!(cpu.registers.z_flag(), 1);
        assert_eq!(cpu.registers.n_flag(), 0);
        assert_eq!(cpu.registers.h_flag(), 1);
        assert_eq!(cpu.registers.cy_flag(), 1);
}

#[test]
fn cpu_test_34() {
        let mut mb = MemoryBus::new_everything(&[0x34]);
        let mut cpu = Cpu::new(Mode::DMG);
        cpu.registers.set16(HL, 0x1234);
        mb.set8(0x1234, 0x50);

        assert_eq!(cpu.step(&mut mb), 3);
        assert_eq!(cpu.registers.pc(), 0x01);
        assert_eq!(mb.get8(0x1234), 0x51);
        assert_eq!(cpu.registers.z_flag(), 0);
        assert_eq!(cpu.registers.n_flag(), 0);
        assert_eq!(cpu.registers.h_flag(), 0);
        assert_eq!(cpu.registers.cy_flag(), 0);
}

#[test]
fn cpu_test_2d() {
        let mut mb = MemoryBus::new_everything(&[0x2D]);
        let mut cpu = Cpu::new(Mode::DMG);
        cpu.registers.set8(L, 0x01);
        cpu.registers.set_flags(false, false, false, true);

        assert_eq!(cpu.step(&mut mb), 1);
        assert_eq!(cpu.registers.pc(), 0x01);
        assert_eq!(cpu.registers.get8(L), 0x00);
        assert_eq!(cpu.registers.z_flag(), 1);
        assert_eq!(cpu.registers.n_flag(), 1);
        assert_eq!(cpu.registers.h_flag(), 0);
        assert_eq!(cpu.registers.cy_flag(), 1);
}

#[test]
fn cpu_test_35() {
        let mut mb = MemoryBus::new_everything(&[0x35]);
        let mut cpu = Cpu::new(Mode::DMG);
        cpu.registers.set16(HL, 0x1234);
        mb.set8(0x1234, 0x00);

        assert_eq!(cpu.step(&mut mb), 3);
        assert_eq!(cpu.registers.pc(), 0x01);
        assert_eq!(mb.get8(0x1234), 0xFF);
        assert_eq!(cpu.registers.z_flag(), 0);
        assert_eq!(cpu.registers.n_flag(), 1);
        assert_eq!(cpu.registers.h_flag(), 1);
        assert_eq!(cpu.registers.cy_flag(), 0);
}

#[test]
fn cpu_test_09() {
        let mut mb = MemoryBus::new_everything(&[0x09]);
        let mut cpu = Cpu::new(Mode::DMG);
        cpu.registers.set16(HL, 0x8A23);
        cpu.registers.set16(BC, 0x0605);
        cpu.registers.set_flags(true, false, false, false);

        assert_eq!(cpu.step(&mut mb), 2);
        assert_eq!(cpu.registers.pc(), 0x01);
        assert_eq!(cpu.registers.get16(HL), 0x9028);
        assert_eq!(cpu.registers.z_flag(), 1);
        assert_eq!(cpu.registers.n_flag(), 0);
        assert_eq!(cpu.registers.h_flag(), 1);
        assert_eq!(cpu.registers.cy_flag(), 0);
}

#[test]
fn cpu_test_29() {
        let mut mb = MemoryBus::new_everything(&[0x29]);
        let mut cpu = Cpu::new(Mode::DMG);
        cpu.registers.set16(HL, 0x8A23);

        assert_eq!(cpu.step(&mut mb), 2);
        assert_eq!(cpu.registers.pc(), 0x01);
        assert_eq!(cpu.registers.get16(HL), 0x1446);
        assert_eq!(cpu.registers.z_flag(), 0);
        assert_eq!(cpu.registers.n_flag(), 0);
        assert_eq!(cpu.registers.h_flag(), 1);
        assert_eq!(cpu.registers.cy_flag(), 1);
}

#[test]
fn cpu_test_e8() {
        let mut mb = MemoryBus::new_everything(&[0xE8, 0x02]);
        let mut cpu = Cpu::new(Mode::DMG);
        cpu.registers.set16(SP, 0xFFF8);

        assert_eq!(cpu.step(&mut mb), 4);
        assert_eq!(cpu.registers.pc(), 0x02);
        assert_eq!(cpu.registers.get16(SP), 0xFFFA);
        assert_eq!(cpu.registers.z_flag(), 0);
        assert_eq!(cpu.registers.n_flag(), 0);
        assert_eq!(cpu.registers.h_flag(), 0);
        assert_eq!(cpu.registers.cy_flag(), 0);
}

#[test]
fn cpu_test_e8_neg() {
        let mut mb = MemoryBus::new_everything(&[0xE8, 0xFE]);
        let mut cpu = Cpu::new(Mode::DMG);
        cpu.registers.set16(SP, 0xFFF8);

        assert_eq!(cpu.step(&mut mb), 4);
        assert_eq!(cpu.registers.pc(), 0x02);
        assert_eq!(cpu.registers.get16(SP), 0xFFF6);
        assert_eq!(cpu.registers.z_flag(), 0);
        assert_eq!(cpu.registers.n_flag(), 0);
        assert_eq!(cpu.registers.h_flag(), 1);
        assert_eq!(cpu.registers.cy_flag(), 0);
}

#[test]
fn cpu_test_13() {
        let mut mb = MemoryBus::new_everything(&[0x13]);
        let mut cpu = Cpu::new(Mode::DMG);
        cpu.registers.set16(DE, 0x235F);

        assert_eq!(cpu.step(&mut mb), 2);
        assert_eq!(cpu.registers.pc(), 0x01);
        assert_eq!(cpu.registers.get16(DE), 0x2360);
}

#[test]
fn cpu_test_1b() {
        let mut mb = MemoryBus::new_everything(&[0x1B]);
        let mut cpu = Cpu::new(Mode::DMG);
        cpu.registers.set16(DE, 0x235F);

        assert_eq!(cpu.step(&mut mb), 2);
        assert_eq!(cpu.registers.pc(), 0x01);
        assert_eq!(cpu.registers.get16(DE), 0x235E);
}

#[test]
fn cpu_test_07() {
        let mut mb = MemoryBus::new_everything(&[0x07]);
        let mut cpu = Cpu::new(Mode::DMG);
        cpu.registers.set8(A, 0x85);

        assert_eq!(cpu.step(&mut mb), 1);
        assert_eq!(cpu.registers.pc(), 0x01);
        // example in gb programming manual is wrong?
        assert_eq!(cpu.registers.get8(A), 0x0B);
        assert_eq!(cpu.registers.cy_flag(), 1);
}

#[test]
fn cpu_test_17() {
        let mut mb = MemoryBus::new_everything(&[0x17]);
        let mut cpu = Cpu::new(Mode::DMG);
        cpu.registers.set8(A, 0x95);
        cpu.registers.set_flags(false, false, false, true);

        assert_eq!(cpu.step(&mut mb), 1);
        assert_eq!(cpu.registers.pc(), 0x01);
        assert_eq!(cpu.registers.get8(A), 0x2B);
        assert_eq!(cpu.registers.cy_flag(), 1);
}

#[test]
fn cpu_test_0f() {
        let mut mb = MemoryBus::new_everything(&[0x0F]);
        let mut cpu = Cpu::new(Mode::DMG);
        cpu.registers.set8(A, 0x3B);

        assert_eq!(cpu.step(&mut mb), 1);
        assert_eq!(cpu.registers.pc(), 0x01);
        assert_eq!(cpu.registers.get8(A), 0x9D);
        assert_eq!(cpu.registers.cy_flag(), 1);
}

#[test]
fn cpu_test_1f() {
        let mut mb = MemoryBus::new_everything(&[0x1F]);
        let mut cpu = Cpu::new(Mode::DMG);
        cpu.registers.set8(A, 0x81);
        cpu.registers.set_flags(false, false, false, false);

        assert_eq!(cpu.step(&mut mb), 1);
        assert_eq!(cpu.registers.pc(), 0x01);
        assert_eq!(cpu.registers.get8(A), 0x40);
        assert_eq!(cpu.registers.cy_flag(), 1);
}

#[test]
fn cpu_test_cb00() {
        let mut mb = MemoryBus::new_everything(&[0xCB, 0x00]);
        let mut cpu = Cpu::new(Mode::DMG);
        cpu.registers.set8(B, 0x85);

        assert_eq!(cpu.step(&mut mb), 2);
        assert_eq!(cpu.registers.pc(), 0x02);
        assert_eq!(cpu.registers.get8(B), 0x0B);
        assert_eq!(cpu.registers.cy_flag(), 1);
}

#[test]
fn cpu_test_cb06() {
        let mut mb = MemoryBus::new_everything(&[0xCB, 0x06]);
        let mut cpu = Cpu::new(Mode::DMG);
        cpu.registers.set16(HL, 0x1234);
        mb.set8(0x1234, 0);

        assert_eq!(cpu.step(&mut mb), 4);
        assert_eq!(cpu.registers.pc(), 0x02);
        assert_eq!(mb.get8(0x1234), 0x00);
        assert_eq!(cpu.registers.z_flag(), 1);
        assert_eq!(cpu.registers.cy_flag(), 0);
}

#[test]
fn cpu_test_cb15() {
        let mut mb = MemoryBus::new_everything(&[0xCB, 0x15]);
        let mut cpu = Cpu::new(Mode::DMG);
        cpu.registers.set8(L, 0x80);

        assert_eq!(cpu.step(&mut mb), 2);
        assert_eq!(cpu.registers.pc(), 0x02);
        assert_eq!(cpu.registers.get8(L), 0x00);
        assert_eq!(cpu.registers.z_flag(), 1);
        assert_eq!(cpu.registers.cy_flag(), 1);
}

#[test]
fn cpu_test_cb16() {
        let mut mb = MemoryBus::new_everything(&[0xCB, 0x16]);
        let mut cpu = Cpu::new(Mode::DMG);
        cpu.registers.set16(HL, 0x1234);
        mb.set8(0x1234, 0x11);

        assert_eq!(cpu.step(&mut mb), 4);
        assert_eq!(cpu.registers.pc(), 0x02);
        assert_eq!(mb.get8(0x1234), 0x22);
        assert_eq!(cpu.registers.z_flag(), 0);
        assert_eq!(cpu.registers.cy_flag(), 0);
}

#[test]
fn cpu_test_cb09() {
        let mut mb = MemoryBus::new_everything(&[0xCB, 0x09]);
        let mut cpu = Cpu::new(Mode::DMG);
        cpu.registers.set8(C, 0x01);

        assert_eq!(cpu.step(&mut mb), 2);
        assert_eq!(cpu.registers.pc(), 0x02);
        assert_eq!(cpu.registers.get8(C), 0x80);
        assert_eq!(cpu.registers.z_flag(), 0);
        assert_eq!(cpu.registers.cy_flag(), 1);
}

#[test]
fn cpu_test_cb1f() {
        let mut mb = MemoryBus::new_everything(&[0xCB, 0x1F]);
        let mut cpu = Cpu::new(Mode::DMG);
        cpu.registers.set8(A, 0x01);

        assert_eq!(cpu.step(&mut mb), 2);
        assert_eq!(cpu.registers.pc(), 0x02);
        assert_eq!(cpu.registers.get8(A), 0x00);
        assert_eq!(cpu.registers.z_flag(), 1);
        assert_eq!(cpu.registers.cy_flag(), 1);
}

#[test]
fn cpu_test_cb22() {
        let mut mb = MemoryBus::new_everything(&[0xCB, 0x22]);
        let mut cpu = Cpu::new(Mode::DMG);
        cpu.registers.set8(D, 0x80);

        assert_eq!(cpu.step(&mut mb), 2);
        assert_eq!(cpu.registers.pc(), 0x02);
        assert_eq!(cpu.registers.get8(D), 0x00);
        assert_eq!(cpu.registers.z_flag(), 1);
        assert_eq!(cpu.registers.cy_flag(), 1);
}

#[test]
fn cpu_test_cb2e() {
        let mut mb = MemoryBus::new_everything(&[0xCB, 0x2E]);
        let mut cpu = Cpu::new(Mode::DMG);
        cpu.registers.set16(HL, 0x1234);
        mb.set8(0x1234, 0x8A);

        assert_eq!(cpu.step(&mut mb), 4);
        assert_eq!(cpu.registers.pc(), 0x02);
        assert_eq!(mb.get8(0x1234), 0xC5);
        assert_eq!(cpu.registers.z_flag(), 0);
        assert_eq!(cpu.registers.cy_flag(), 0);
}

#[test]
fn cpu_test_cb36() {
        let mut mb = MemoryBus::new_everything(&[0xCB, 0x36]);
        let mut cpu = Cpu::new(Mode::DMG);
        cpu.registers.set16(HL, 0x1234);
        mb.set8(0x1234, 0xF0);

        assert_eq!(cpu.step(&mut mb), 4);
        assert_eq!(cpu.registers.pc(), 0x02);
        assert_eq!(mb.get8(0x1234), 0x0F);
        assert_eq!(cpu.registers.z_flag(), 0);
        assert_eq!(cpu.registers.cy_flag(), 0);
}

#[test]
fn cpu_test_cb3e() {
        let mut mb = MemoryBus::new_everything(&[0xCB, 0x3E]);
        let mut cpu = Cpu::new(Mode::DMG);
        cpu.registers.set16(HL, 0x1234);
        mb.set8(0x1234, 0xFF);

        assert_eq!(cpu.step(&mut mb), 4);
        assert_eq!(cpu.registers.pc(), 0x02);
        assert_eq!(mb.get8(0x1234), 0x7F);
        assert_eq!(cpu.registers.z_flag(), 0);
        assert_eq!(cpu.registers.cy_flag(), 1);
}

#[test]
fn cpu_test_cb7f() {
        let mut mb = MemoryBus::new_everything(&[0xCB, 0x7F]);
        let mut cpu = Cpu::new(Mode::DMG);
        cpu.registers.set8(A, 0x80);
        cpu.registers.set_flags(false, false, false, true);

        assert_eq!(cpu.step(&mut mb), 2);
        assert_eq!(cpu.registers.pc(), 0x02);
        assert_eq!(cpu.registers.z_flag(), 0);
        assert_eq!(cpu.registers.h_flag(), 1);
        assert_eq!(cpu.registers.n_flag(), 0);
        assert_eq!(cpu.registers.cy_flag(), 1);
}

#[test]
fn cpu_test_cb65() {
        let mut mb = MemoryBus::new_everything(&[0xCB, 0x65]);
        let mut cpu = Cpu::new(Mode::DMG);
        cpu.registers.set8(L, 0xEF);
        cpu.registers.set_flags(false, false, false, true);

        assert_eq!(cpu.step(&mut mb), 2);
        assert_eq!(cpu.registers.pc(), 0x02);
        assert_eq!(cpu.registers.z_flag(), 1);
        assert_eq!(cpu.registers.h_flag(), 1);
        assert_eq!(cpu.registers.n_flag(), 0);
        assert_eq!(cpu.registers.cy_flag(), 1);
}

#[test]
fn cpu_test_cb46() {
        let mut mb = MemoryBus::new_everything(&[0xCB, 0x46]);
        let mut cpu = Cpu::new(Mode::DMG);
        cpu.registers.set16(HL, 0x1234);
        mb.set8(0x1234, 0xFE);
        cpu.registers.set_flags(false, false, false, true);

        assert_eq!(cpu.step(&mut mb), 3);
        assert_eq!(cpu.registers.pc(), 0x02);
        assert_eq!(cpu.registers.z_flag(), 1);
        assert_eq!(cpu.registers.h_flag(), 1);
        assert_eq!(cpu.registers.n_flag(), 0);
        assert_eq!(cpu.registers.cy_flag(), 1);
}

#[test]
fn cpu_test_cb4e() {
        let mut mb = MemoryBus::new_everything(&[0xCB, 0x4E]);
        let mut cpu = Cpu::new(Mode::DMG);
        cpu.registers.set16(HL, 0x1234);
        mb.set8(0x1234, 0xFE);
        cpu.registers.set_flags(false, false, false, true);

        assert_eq!(cpu.step(&mut mb), 3);
        assert_eq!(cpu.registers.pc(), 0x02);
        assert_eq!(cpu.registers.z_flag(), 0);
        assert_eq!(cpu.registers.h_flag(), 1);
        assert_eq!(cpu.registers.n_flag(), 0);
        assert_eq!(cpu.registers.cy_flag(), 1);
}

#[test]
fn cpu_test_cbbf() {
        let mut mb = MemoryBus::new_everything(&[0xCB, 0xBF]);
        let mut cpu = Cpu::new(Mode::DMG);
        cpu.registers.set8(A, 0x80);

        assert_eq!(cpu.step(&mut mb), 2);
        assert_eq!(cpu.registers.pc(), 0x02);
        assert_eq!(cpu.registers.get8(A), 0x00);
}

#[test]
fn cpu_test_cb93() {
        let mut mb = MemoryBus::new_everything(&[0xCB, 0x9E]);
        let mut cpu = Cpu::new(Mode::DMG);
        cpu.registers.set16(HL, 0x1234);
        mb.set8(0x1234, 0xFF);

        assert_eq!(cpu.step(&mut mb), 4);
        assert_eq!(cpu.registers.pc(), 0x02);
        assert_eq!(mb.get8(0x1234), 0xF7);
}

#[test]
fn cpu_test_cbfd() {
        let mut mb = MemoryBus::new_everything(&[0xCB, 0xFD]);
        let mut cpu = Cpu::new(Mode::DMG);
        cpu.registers.set8(L, 0x3B);

        assert_eq!(cpu.step(&mut mb), 2);
        // example in gb programming manual is wrong?
        assert_eq!(cpu.registers.pc(), 0x02);
        assert_eq!(cpu.registers.get8(L), 0xBB);
}

#[test]
fn cpu_test_cbde() {
        let mut mb = MemoryBus::new_everything(&[0xCB, 0xDE]);
        let mut cpu = Cpu::new(Mode::DMG);
        cpu.registers.set16(HL, 0x1234);
        mb.set8(0x1234, 0x00);

        assert_eq!(cpu.step(&mut mb), 4);
        // example in gb programming manual is wrong?
        assert_eq!(cpu.registers.pc(), 0x02);
        assert_eq!(mb.get8(0x1234), 0x08);
}

#[test]
fn cpu_test_c3() {
        let mut mb = MemoryBus::new_everything(&[0xC3, 0x12, 0x80]);
        let mut cpu = Cpu::new(Mode::DMG);

        assert_eq!(cpu.step(&mut mb), 4);
        assert_eq!(cpu.registers.pc(), 0x8012);
}

#[test]
fn cpu_test_e9() {
        let mut mb = MemoryBus::new_everything(&[0xE9]);
        let mut cpu = Cpu::new(Mode::DMG);
        cpu.registers.set16(HL, 0x8012);

        assert_eq!(cpu.step(&mut mb), 1);
        assert_eq!(cpu.registers.pc(), 0x8012);
}

#[test]
fn cpu_test_c2() {
        let mut mb = MemoryBus::new_everything(&[0xC2, 0x00, 0x80]);
        let mut cpu = Cpu::new(Mode::DMG);
        cpu.registers.set_flags(true, false, false, false);

        assert_eq!(cpu.step(&mut mb), 3);
        assert_eq!(cpu.registers.pc(), 0x03);
}

#[test]
fn cpu_test_ca() {
        let mut mb = MemoryBus::new_everything(&[0xCA, 0x00, 0x80]);
        let mut cpu = Cpu::new(Mode::DMG);
        cpu.registers.set_flags(true, false, false, false);

        assert_eq!(cpu.step(&mut mb), 4);
        assert_eq!(cpu.registers.pc(), 0x8000);
}

#[test]
fn cpu_test_d2() {
        let mut mb = MemoryBus::new_everything(&[0xD2, 0x00, 0x80]);
        let mut cpu = Cpu::new(Mode::DMG);
        cpu.registers.set_flags(true, false, false, false);

        assert_eq!(cpu.step(&mut mb), 4);
        assert_eq!(cpu.registers.pc(), 0x8000);
}

#[test]
fn cpu_test_da() {
        let mut mb = MemoryBus::new_everything(&[0xDA, 0x00, 0x80]);
        let mut cpu = Cpu::new(Mode::DMG);
        cpu.registers.set_flags(true, false, false, false);

        assert_eq!(cpu.step(&mut mb), 3);
        assert_eq!(cpu.registers.pc(), 0x03);
}

#[test]
fn cpu_test_18() {
        let mut mb = MemoryBus::new_everything(&[0x18, 0x03]);
        let mut cpu = Cpu::new(Mode::DMG);

        assert_eq!(cpu.step(&mut mb), 3);
        assert_eq!(cpu.registers.pc(), 0x05);
}

#[test]
fn cpu_test_28() {
        let mut mb = MemoryBus::new_everything(&[0x00, 0x00, 0x00, 0x00, 0x28, 0xFD]);
        let mut cpu = Cpu::new(Mode::DMG);
        cpu.registers.set_flags(true, false, false, false);
        cpu.registers.set16(PC, 4);

        assert_eq!(cpu.step(&mut mb), 4);
        assert_eq!(cpu.registers.pc(), 0x03);
}

#[test]
fn cpu_test_cd() {
        let mut mb = MemoryBus::new_everything(&[0x00, 0x00, 0x00, 0xcd, 0x34, 0x12]);
        let mut cpu = Cpu::new(Mode::DMG);
        cpu.registers.set16(SP, 0xFFFE);
        cpu.registers.set16(PC, 0x03);

        assert_eq!(cpu.step(&mut mb), 6);
        assert_eq!(cpu.registers.pc(), 0x1234);
        let sp = cpu.registers.get16(SP);
        assert_eq!(sp, 0xFFFC);
        assert_eq!(mb.get8(sp), 0x06);
        assert_eq!(mb.get8(sp + 1), 0x00);
}

#[test]
fn cpu_test_c9() {
        let mut mb = MemoryBus::new_everything(&[0xC9]);
        let mut cpu = Cpu::new(Mode::DMG);
        mb.set8(0xFFFC, 0x02);
        mb.set8(0xFFFD, 0x00);
        cpu.registers.set16(SP, 0xFFFC);

        assert_eq!(cpu.step(&mut mb), 4);
        assert_eq!(cpu.registers.pc(), 0x02);
        let sp = cpu.registers.get16(SP);
        assert_eq!(sp, 0xFFFE);
}

#[test]
fn cpu_test_d9() {
        let mut mb = MemoryBus::new_everything(&[0xD9]);
        let mut cpu = Cpu::new(Mode::DMG);
        mb.set8(0xFFFC, 0x02);
        mb.set8(0xFFFD, 0x00);
        cpu.registers.set16(SP, 0xFFFC);

        assert_eq!(cpu.step(&mut mb), 4);
        assert_eq!(cpu.registers.pc(), 0x02);
        let sp = cpu.registers.get16(SP);
        assert_eq!(sp, 0xFFFE);
        assert!(cpu.ime);
}

#[test]
fn cpu_test_e7() {
        let mut mb = MemoryBus::new_everything(&[0x00, 0x00, 0x00, 0xe7]);
        let mut cpu = Cpu::new(Mode::DMG);
        cpu.registers.set16(SP, 0xFFFE);
        cpu.registers.set16(PC, 0x03);

        assert_eq!(cpu.step(&mut mb), 4);
        assert_eq!(cpu.registers.pc(), 0x20);
        let sp = cpu.registers.get16(SP);
        assert_eq!(sp, 0xFFFC);
        assert_eq!(mb.get8(sp), 0x04);
        assert_eq!(mb.get8(sp + 1), 0x00);
}
