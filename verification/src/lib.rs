//! A verified instruction-level emulator core for the Sharp SM83 processor
//! and the memory-mapped address space of the original Game Boy.
//!
//! The crate models the register file with its packed flag register, the
//! cartridge header, the banked memory bus with its bank-switch control
//! ranges, and the fetch-decode-execute loop of the CPU.  Conditions that
//! halt emulation (undefined opcodes, accesses to unusable memory) surface
//! as error values carrying the program counter and address involved.

pub mod banked_memory;
pub mod cartridge;
pub mod cartridge_header;
pub mod cartridge_type;
pub mod cpu;
pub mod cpu_registers;
pub mod flag_register;
pub mod lcdc;
pub mod mbc;
pub mod ops;
pub mod pixel;
pub mod prefix_ops;
pub mod tile;
pub mod tile_dictionary;
pub mod utils;
pub mod video;
