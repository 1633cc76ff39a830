//! Core of a handheld game console emulator: CPU, memory-mapped bus,
//! cartridge bank switching, interrupt delivery and the peripheral devices
//! they drive, with machine-checked contracts on the instruction engine,
//! the banking rules and the bus routing.

pub mod alu;
pub mod bgmap;
pub mod bits;
pub mod bus;
pub mod cartridge;
pub mod cpu;
pub mod devices;
pub mod envelope;
pub mod frame_sequencer;
pub mod gameboy;
pub mod instr;
pub mod interrupts;
pub mod joypad;
pub mod lcd;
pub mod length_counter;
pub mod mbc;
pub mod memory;
pub mod noise;
pub mod oam;
pub mod palette;
pub mod registers;
pub mod serial;
pub mod sound;
pub mod square;
pub mod sweep;
pub mod symbols;
pub mod tiles;
pub mod timer;
pub mod wave;
