use sm83_core::banked_memory::BankedMemory;
use sm83_core::cartridge::Cartridge;
use sm83_core::mbc::{MemoryError, MBC, RAM_ENABLE_VALUE};

/// A cartridge image of the given size; byte 0x149 declares four RAM
/// banks so that the external RAM window is backed.
fn image(size: usize) -> Vec<u8> {
    let mut data = vec![0u8; size];
    data[0x149] = 0x03;
    data
}

fn mbc(size: usize) -> MBC {
    MBC::new(Cartridge::from_bytes(image(size)))
}

#[test]
fn test_write_ram_enable() {
    let mut value = mbc(0x8000);

    assert!(!value.ram_enabled);

    value.write(0x0000, RAM_ENABLE_VALUE).unwrap();

    assert!(value.ram_enabled);
}

#[test]
fn ram_enable_follows_the_low_nibble() {
    let mut value = mbc(0x8000);
    value.write(0x0000, 0x0A).unwrap();
    assert!(value.ram_enabled);
    value.write(0x0000, 0x00).unwrap();
    assert!(!value.ram_enabled);
    value.write(0x1FFF, 0xFA).unwrap();
    assert!(value.ram_enabled);
    value.write(0x0100, 0x0B).unwrap();
    assert!(!value.ram_enabled);
}

#[test]
fn fixed_window_ignores_the_active_bank() {
    let mut data = image(0x8000);
    data[0x0000] = 0x11;
    data[0x4000] = 0x22;
    let mut bus = MBC::new(Cartridge::from_bytes(data));

    assert_eq!(bus.read(0x0000).unwrap(), 0x11);
    assert_eq!(bus.read(0x4000).unwrap(), 0x22);

    // Select bank 0 into the switchable window: the fixed window still
    // reads bank 0 through its own range, and the switchable window now
    // shows bank 0 as well.
    bus.write(0x2000, 0x00).unwrap();
    assert_eq!(bus.read(0x0000).unwrap(), 0x11);
    assert_eq!(bus.read(0x4000).unwrap(), 0x11);

    bus.write(0x2000, 0x01).unwrap();
    assert_eq!(bus.read(0x4000).unwrap(), 0x22);
}

#[test]
fn rom_bank_select_takes_five_bits() {
    let mut bus = mbc(0x8000);
    bus.write(0x3000, 0xE1).unwrap();
    assert_eq!(bus.rom.active_bank, 0x01);
    bus.write(0x2000, 0x1F).unwrap();
    assert_eq!(bus.rom.active_bank, 0x1F);
}

#[test]
fn switched_out_bank_is_out_of_bounds() {
    let mut bus = mbc(0x8000);
    bus.write(0x2000, 0x05).unwrap();
    assert_eq!(
        bus.read(0x4000),
        Err(MemoryError::BankBounds { bank: 5, location: 0x4000 })
    );
}

#[test]
fn unusable_range_is_fatal() {
    let mut bus = mbc(0x8000);
    assert_eq!(bus.read(0xFEA0), Err(MemoryError::Unusable { location: 0xFEA0 }));
    assert_eq!(bus.read(0xFEFF), Err(MemoryError::Unusable { location: 0xFEFF }));
    assert_eq!(
        bus.write(0xFEA0, 0x12),
        Err(MemoryError::Unusable { location: 0xFEA0 })
    );
    assert_eq!(bus.read(0x10000), Err(MemoryError::Unmapped { location: 0x10000 }));
    assert_eq!(
        bus.write(0x10000, 0x12),
        Err(MemoryError::Unmapped { location: 0x10000 })
    );
}

#[test]
fn work_ram_echo_mirrors_work_ram() {
    let mut bus = mbc(0x8000);
    bus.write(0xC123, 0x77).unwrap();
    assert_eq!(bus.read(0xE123).unwrap(), 0x77);
    bus.write(0xE456, 0x55).unwrap();
    assert_eq!(bus.read(0xC456).unwrap(), 0x55);
}

#[test]
fn external_ram_is_gated_by_the_enable_flag() {
    let mut bus = mbc(0x8000);

    // Disabled: the write is absorbed.
    bus.write(0xA000, 0x99).unwrap();
    assert_eq!(bus.read(0xA000).unwrap(), 0x00);

    bus.write(0x0000, 0x0A).unwrap();
    bus.write(0xA000, 0x99).unwrap();
    assert_eq!(bus.read(0xA000).unwrap(), 0x99);

    // The RAM bank select switches which bank the window shows.
    bus.write(0x4000, 0x01).unwrap();
    assert_eq!(bus.read(0xA000).unwrap(), 0x00);
    bus.write(0x4000, 0x00).unwrap();
    assert_eq!(bus.read(0xA000).unwrap(), 0x99);
}

#[test]
fn high_regions_store_and_return_bytes() {
    let mut bus = mbc(0x8000);
    bus.write(0x8010, 0x34).unwrap();
    assert_eq!(bus.read(0x8010).unwrap(), 0x34);
    bus.write(0xFE00, 0x12).unwrap();
    assert_eq!(bus.read(0xFE00).unwrap(), 0x12);
    bus.write(0xFF40, 0x91).unwrap();
    assert_eq!(bus.read(0xFF40).unwrap(), 0x91);
    bus.write(0xFF80, 0x56).unwrap();
    assert_eq!(bus.read(0xFF80).unwrap(), 0x56);
    bus.write(0xFFFF, 0x1F).unwrap();
    assert_eq!(bus.read(0xFFFF).unwrap(), 0x1F);
}

#[test]
fn get_next_u16_is_little_endian() {
    let mut data = image(0x8000);
    data[0x101] = 0x34;
    data[0x102] = 0x12;
    let bus = MBC::new(Cartridge::from_bytes(data));
    assert_eq!(bus.get_next_u8(0x100).unwrap(), 0x34);
    assert_eq!(bus.get_next_u16(0x100).unwrap(), 0x1234);
}

#[test]
fn read_slice_returns_the_inclusive_range() {
    let mut data = image(0x8000);
    data[0x200] = 1;
    data[0x201] = 2;
    data[0x202] = 3;
    let bus = MBC::new(Cartridge::from_bytes(data));
    assert_eq!(bus.read_slice(0x200, 0x202).unwrap(), vec![1, 2, 3]);
    assert!(bus.read_slice(0xFE9F, 0xFEA0).is_err());
}

#[test]
fn banked_memory_reads_the_active_bank() {
    let mut banks = BankedMemory::new(0, 4, 2);
    assert_eq!(banks.value_at(0), 0);
    banks.set_at(1, 0xAB);
    assert_eq!(banks.value_at(1), 0xAB);
    assert_eq!(banks.value_in_bank(1, 1), 0x00);
    assert_eq!(banks.value_in_bank(0, 1), 0xAB);

    let of_none = BankedMemory::of_size(None);
    assert_eq!(of_none.banks.len(), 1);
    let of_four = BankedMemory::of_size(Some(4));
    assert_eq!(of_four.banks.len(), 4);
    assert_eq!(of_four.banks[0].len(), 0x8000);
}

#[test]
fn rom_banks_are_cut_from_the_image() {
    let mut data = image(0x4000 * 2 + 5);
    data[0x4000] = 0xAA;
    data[0x8000] = 0xBB;
    let banks = BankedMemory::from_rom_bytes(&data);
    assert_eq!(banks.active_bank, 1);
    assert_eq!(banks.banks.len(), 3);
    assert_eq!(banks.banks[1][0], 0xAA);
    assert_eq!(banks.banks[2][0], 0xBB);
    assert_eq!(banks.banks[2].len(), 5);
}
