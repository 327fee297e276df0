use sm83_core::cartridge::Cartridge;
use sm83_core::cartridge_header::{
    CartridgeHeader, ColorGameboySupport, DestinationCode, SuperGameboySupport,
};
use sm83_core::cartridge_type::CartridgeType;

fn image() -> Vec<u8> {
    vec![0u8; 0x150]
}

#[test]
fn controller_type_decodes_from_the_header_byte() {
    let mut data = image();
    data[0x147] = 0x01;
    assert_eq!(CartridgeType::from_cartridge(&data), CartridgeType::MBC1);

    data[0x147] = 0x00;
    assert_eq!(CartridgeType::from_cartridge(&data), CartridgeType::RomOnly);

    data[0x147] = 0x03;
    assert_eq!(CartridgeType::from_cartridge(&data), CartridgeType::MBC1RamBattery);

    data[0x147] = 0x19;
    assert_eq!(CartridgeType::from_cartridge(&data), CartridgeType::MBC5);

    data[0x147] = 0x77;
    assert_eq!(CartridgeType::from_cartridge(&data), CartridgeType::Unknown);
}

#[test]
fn header_reads_every_fixed_offset() {
    let mut data = image();
    data[0x134] = b'T';
    data[0x135] = b'E';
    data[0x136] = b'S';
    data[0x137] = b'T';
    data[0x143] = 0x80;
    data[0x146] = 0x03;
    data[0x147] = 0x01;
    data[0x148] = 0x02;
    data[0x149] = 0x03;
    data[0x14A] = 0x01;

    let header = CartridgeHeader::from_binary(&data);
    assert_eq!(&header.title[0..4], b"TEST");
    assert_eq!(header.title.len(), 0x143 - 0x134);
    assert_eq!(header.cartridge_type, CartridgeType::MBC1);
    assert_eq!(header.color_gameboy_support, ColorGameboySupport::Both);
    assert_eq!(header.super_gameboy_support, SuperGameboySupport::Support);
    assert_eq!(header.rom_size_bytes, 128000);
    assert_eq!(header.ram_size, Some(4));
    assert_eq!(header.destination_code, DestinationCode::NonJapanese);
}

#[test]
fn unknown_codes_degrade_to_fallbacks() {
    let mut data = image();
    data[0x143] = 0x77;
    data[0x146] = 0x00;
    data[0x148] = 0x66;
    data[0x149] = 0x00;
    data[0x14A] = 0x00;

    let header = CartridgeHeader::from_binary(&data);
    assert_eq!(header.color_gameboy_support, ColorGameboySupport::NoSupport);
    assert_eq!(header.super_gameboy_support, SuperGameboySupport::NoSupport);
    assert_eq!(header.rom_size_bytes, u32::MAX);
    assert_eq!(header.ram_size, None);
    assert_eq!(header.destination_code, DestinationCode::Japanese);
}

#[test]
fn rom_size_codes_use_the_closed_table() {
    let mut data = image();
    data[0x148] = 0x00;
    assert_eq!(CartridgeHeader::from_binary(&data).rom_size_bytes, 32000);
    data[0x148] = 0x08;
    assert_eq!(CartridgeHeader::from_binary(&data).rom_size_bytes, 8000000);
    data[0x148] = 0x52;
    assert_eq!(CartridgeHeader::from_binary(&data).rom_size_bytes, 1100000);
}

#[test]
fn cartridge_keeps_its_bytes() {
    let mut data = image();
    data[0x100] = 0xC3;
    let cartridge = Cartridge::from_bytes(data.clone());
    assert_eq!(cartridge.data, data);
    assert_eq!(cartridge.header.cartridge_type, CartridgeType::RomOnly);
}
