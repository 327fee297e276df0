//! Fixed-offset fields of a cartridge image's header: title, hardware
//! support flags, ROM and RAM sizes and the destination code.  Every code
//! byte goes through a closed lookup; unrecognized codes decode to an
//! explicit fallback value rather than failing.

use vstd::prelude::*;

use crate::cartridge_type::CartridgeType;

verus! {

pub const GAME_TITLE_LOCATION: usize = 0x134;

pub const GAME_TITLE_END: usize = 0x143;

pub const MANUFACTURER_CODE_LOCATION: usize = 0x13F;

pub const MANUFACTURER_CODE_END: usize = 0x142;

pub const CGB_FLAG_LOCATION: usize = 0x143;

pub const SGB_FLAG_LOCATION: usize = 0x146;

pub const ROM_SIZE_LOCATION: usize = 0x148;

pub const RAM_SIZE_LOCATION: usize = 0x149;

pub const DESTINATION_CODE_LOCATION: usize = 0x14A;

/// The number of bytes a buffer must hold so that every header field can be
/// read from its fixed offset.
pub const HEADER_SIZE: usize = 0x14B;

/// The size in bytes of one external RAM bank.
pub const RAM_BANK_SIZE: usize = 0x8000;

#[derive(Clone, Copy, Debug, PartialEq, Eq, Structural)]
pub enum ColorGameboySupport {
    NoSupport,
    Both,
    OnlyColor,
}

#[derive(Clone, Copy, Debug, PartialEq, Eq, Structural)]
pub enum SuperGameboySupport {
    NoSupport,
    Support,
}

#[derive(Clone, Copy, Debug, PartialEq, Eq, Structural)]
pub enum DestinationCode {
    Japanese,
    NonJapanese,
}

/// The Color Game Boy support level encoded by the CGB flag byte.
pub open spec fn cgb_support_of(code: u8) -> ColorGameboySupport {
    match code {
        0x80 => ColorGameboySupport::Both,
        0xC0 => ColorGameboySupport::OnlyColor,
        _ => ColorGameboySupport::NoSupport,
    }
}

/// The Super Game Boy support level encoded by the SGB flag byte.
pub open spec fn sgb_support_of(code: u8) -> SuperGameboySupport {
    if code == 0x03 {
        SuperGameboySupport::Support
    } else {
        SuperGameboySupport::NoSupport
    }
}

/// The ROM size in bytes encoded by the ROM size code; unrecognized codes
/// decode to the sentinel `u32::MAX`.
pub open spec fn rom_size_bytes_of(code: u8) -> u32 {
    match code {
        0x00 => 32000,
        0x01 => 64000,
        0x02 => 128000,
        0x03 => 256000,
        0x04 => 512000,
        0x05 => 1000000,
        0x06 => 2000000,
        0x07 => 4000000,
        0x08 => 8000000,
        0x52 => 1100000,
        0x53 => 1200000,
        0x54 => 1500000,
        _ => 0xFFFFFFFF,
    }
}

/// The RAM bank count encoded by the RAM size code, or `None` when the
/// cartridge declares no external RAM.
pub open spec fn ram_size_of(code: u8) -> Option<u8> {
    match code {
        0x02 => Some(1u8),
        0x03 => Some(4u8),
        0x04 => Some(16u8),
        0x05 => Some(8u8),
        _ => None,
    }
}

/// The destination region encoded by the destination code byte: zero means
/// Japanese, anything else non-Japanese.
pub open spec fn destination_of(code: u8) -> DestinationCode {
    if code == 0x00 {
        DestinationCode::Japanese
    } else {
        DestinationCode::NonJapanese
    }
}

fn read_cgb_flag(buffer: &[u8]) -> (r: ColorGameboySupport)
    requires
        buffer@.len() > CGB_FLAG_LOCATION,
    ensures
        r == cgb_support_of(buffer@[CGB_FLAG_LOCATION as int]),
{
    match buffer[CGB_FLAG_LOCATION] {
        0x80 => ColorGameboySupport::Both,
        0xC0 => ColorGameboySupport::OnlyColor,
        _ => ColorGameboySupport::NoSupport,
    }
}

fn read_sgb_flag(buffer: &[u8]) -> (r: SuperGameboySupport)
    requires
        buffer@.len() > SGB_FLAG_LOCATION,
    ensures
        r == sgb_support_of(buffer@[SGB_FLAG_LOCATION as int]),
{
    if buffer[SGB_FLAG_LOCATION] == 0x03 {
        SuperGameboySupport::Support
    } else {
        SuperGameboySupport::NoSupport
    }
}

fn read_rom_size_bytes(buffer: &[u8]) -> (r: u32)
    requires
        buffer@.len() > ROM_SIZE_LOCATION,
    ensures
        r == rom_size_bytes_of(buffer@[ROM_SIZE_LOCATION as int]),
{
    match buffer[ROM_SIZE_LOCATION] {
        0x00 => 32000,
        0x01 => 64000,
        0x02 => 128000,
        0x03 => 256000,
        0x04 => 512000,
        0x05 => 1000000,
        0x06 => 2000000,
        0x07 => 4000000,
        0x08 => 8000000,
        0x52 => 1100000,
        0x53 => 1200000,
        0x54 => 1500000,
        _ => 0xFFFFFFFF,
    }
}

fn read_ram_size(buffer: &[u8]) -> (r: Option<u8>)
    requires
        buffer@.len() > RAM_SIZE_LOCATION,
    ensures
        r == ram_size_of(buffer@[RAM_SIZE_LOCATION as int]),
{
    match buffer[RAM_SIZE_LOCATION] {
        0x02 => Some(1),
        0x03 => Some(4),
        0x04 => Some(16),
        0x05 => Some(8),
        _ => None,
    }
}

fn read_destination_code(buffer: &[u8]) -> (r: DestinationCode)
    requires
        buffer@.len() > DESTINATION_CODE_LOCATION,
    ensures
        r == destination_of(buffer@[DESTINATION_CODE_LOCATION as int]),
{
    if buffer[DESTINATION_CODE_LOCATION] == 0x00 {
        DestinationCode::Japanese
    } else {
        DestinationCode::NonJapanese
    }
}

/// Copies the bytes of `buffer` from `start` up to but excluding `end`.
fn copy_range(buffer: &[u8], start: usize, end: usize) -> (r: Vec<u8>)
    requires
        start <= end <= buffer@.len(),
    ensures
        r@ == buffer@.subrange(start as int, end as int),
{
    let mut out: Vec<u8> = Vec::new();
    let mut i: usize = start;
    while i < end
        invariant
            start <= i <= end <= buffer@.len(),
            out@ == buffer@.subrange(start as int, i as int),
        decreases end - i,
    {
        out.push(buffer[i]);
        proof {
            assert(out@ =~= buffer@.subrange(start as int, i + 1 as int));
        }
        i = i + 1;
    }
    out
}

pub struct CartridgeHeader {
    pub title: Vec<u8>,
    pub manufacturer: Vec<u8>,
    pub cartridge_type: CartridgeType,
    pub color_gameboy_support: ColorGameboySupport,
    pub super_gameboy_support: SuperGameboySupport,
    pub rom_size_bytes: u32,
    pub ram_size: Option<u8>,
    pub destination_code: DestinationCode,
}

impl CartridgeHeader {
    /// Reads every header field from its fixed offset in a cartridge
    /// image.  Total over any buffer long enough to hold the header
    /// region: unrecognized code bytes decode to fallback values.
    pub fn from_binary(b: &[u8]) -> (r: CartridgeHeader)
        requires
            b@.len() >= HEADER_SIZE,
        ensures
            r.title@ == b@.subrange(GAME_TITLE_LOCATION as int, GAME_TITLE_END as int),
            r.manufacturer@ == b@.subrange(
                MANUFACTURER_CODE_LOCATION as int,
                MANUFACTURER_CODE_END as int,
            ),
            r.cartridge_type == crate::cartridge_type::cartridge_type_of(
                b@[crate::cartridge_type::CARTRIDGE_TYPE_LOCATION as int],
            ),
            r.color_gameboy_support == cgb_support_of(b@[CGB_FLAG_LOCATION as int]),
            r.super_gameboy_support == sgb_support_of(b@[SGB_FLAG_LOCATION as int]),
            r.rom_size_bytes == rom_size_bytes_of(b@[ROM_SIZE_LOCATION as int]),
            r.ram_size == ram_size_of(b@[RAM_SIZE_LOCATION as int]),
            r.destination_code == destination_of(b@[DESTINATION_CODE_LOCATION as int]),
    {
        CartridgeHeader {
            title: copy_range(b, GAME_TITLE_LOCATION, GAME_TITLE_END),
            manufacturer: copy_range(b, MANUFACTURER_CODE_LOCATION, MANUFACTURER_CODE_END),
            cartridge_type: CartridgeType::from_cartridge(b),
            color_gameboy_support: read_cgb_flag(b),
            super_gameboy_support: read_sgb_flag(b),
            rom_size_bytes: read_rom_size_bytes(b),
            ram_size: read_ram_size(b),
            destination_code: read_destination_code(b),
        }
    }
}

} // verus!
