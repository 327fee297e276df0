//! A loaded cartridge image: the parsed header together with the raw bytes.
//! Reading the image from disk is the driver's job; the library takes the
//! bytes as they are.

use vstd::prelude::*;

use crate::cartridge_header::{
    cgb_support_of, destination_of, ram_size_of, rom_size_bytes_of, sgb_support_of,
    CartridgeHeader, CGB_FLAG_LOCATION, DESTINATION_CODE_LOCATION, GAME_TITLE_END,
    GAME_TITLE_LOCATION, HEADER_SIZE, RAM_SIZE_LOCATION, ROM_SIZE_LOCATION, SGB_FLAG_LOCATION,
};
use crate::cartridge_type::{cartridge_type_of, CARTRIDGE_TYPE_LOCATION};

verus! {

pub struct Cartridge {
    pub header: CartridgeHeader,
    pub data: Vec<u8>,
}

impl Cartridge {
    /// Parses the header out of a raw cartridge image and keeps the bytes.
    /// The buffer must be at least as long as the header region.
    pub fn from_bytes(data: Vec<u8>) -> (r: Cartridge)
        requires
            data@.len() >= HEADER_SIZE,
        ensures
            r.data@ == data@,
            r.header.title@ == data@.subrange(GAME_TITLE_LOCATION as int, GAME_TITLE_END as int),
            r.header.cartridge_type == cartridge_type_of(data@[CARTRIDGE_TYPE_LOCATION as int]),
            r.header.color_gameboy_support == cgb_support_of(data@[CGB_FLAG_LOCATION as int]),
            r.header.super_gameboy_support == sgb_support_of(data@[SGB_FLAG_LOCATION as int]),
            r.header.rom_size_bytes == rom_size_bytes_of(data@[ROM_SIZE_LOCATION as int]),
            r.header.ram_size == ram_size_of(data@[RAM_SIZE_LOCATION as int]),
            r.header.destination_code == destination_of(data@[DESTINATION_CODE_LOCATION as int]),
    {
        let header = CartridgeHeader::from_binary(data.as_slice());
        Cartridge { header, data }
    }
}

} // verus!
