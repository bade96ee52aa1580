use rustyboy::cartridge::{Cartridge, CartridgeType};

fn rom() -> Vec<u8> {
    let mut data = vec![0u8; 0x8000];
    for (i, b) in data.iter_mut().enumerate() {
        *b = (i % 251) as u8;
    }
    let title = b"TETRIS\0\0\0\0\0\0\0\0\0";
    data[0x134..0x143].copy_from_slice(title);
    data[0x146] = 0x03;
    data[0x147] = 0x01;
    data[0x148] = 0x02;
    data[0x149] = 0x03;
    data[0x14a] = 0x01;
    data[0x14b] = 0x33;
    data[0x14c] = 0x02;
    data[0x14d] = 0x9c;
    data[0x14e] = 0xbe;
    data[0x14f] = 0xef;
    data
}

#[test]
fn header_fields() {
    let c = Cartridge::new(rom());
    assert_eq!(c.title(), "TETRIS\0\0\0\0\0\0\0\0\0");
    assert!(c.sgb());
    assert_eq!(c.cartridge_type(), Some(CartridgeType::Mbc1));
    assert_eq!(c.rom_size(), 128 * 1024);
    assert_eq!(c.ram_size(), Some(32 * 1024));
    assert_eq!(c.destination_code(), 0x01);
    assert_eq!(c.mask_rom_version(), 0x02);
    assert_eq!(c.header_checksum(), 0x9c);
    assert_eq!(c.global_checksum(), 0xbeef);
}

#[test]
fn invalid_utf8_in_title_is_replaced() {
    let mut data = rom();
    data[0x134] = 0xff;
    let c = Cartridge::new(data);
    assert!(c.title().starts_with('\u{fffd}'));
    assert_ne!(c.title().len(), 15);
}

#[test]
fn sections() {
    let data = rom();
    let c = Cartridge::new(data.clone());
    assert_eq!(c.interrupts(), &data[0x0000..0x0100]);
    assert_eq!(c.header(), &data[0x0100..0x0150]);
    assert_eq!(c.bank0(), &data[0x0150..0x4000]);
    assert_eq!(c.bank1(), &data[0x4000..0x8000]);
    assert_eq!(c.nintendo_logo(), &data[0x104..0x133]);
    assert_eq!(c.manufactor_code(), "\0\0\0");
}

#[test]
fn cartridge_type_codes() {
    assert_eq!(CartridgeType::new(0x00), Some(CartridgeType::RomOnly));
    assert_eq!(CartridgeType::new(0x13), Some(CartridgeType::Mbc3RamBattery));
    assert_eq!(CartridgeType::new(0xff), Some(CartridgeType::Huc1RamBattery));
    assert_eq!(CartridgeType::new(0x04), None);
    assert_eq!(CartridgeType::new(0x21), None);
}

#[test]
fn rom_and_ram_size_codes() {
    let mut data = rom();
    data[0x148] = 0;
    data[0x149] = 0;
    let c = Cartridge::new(data.clone());
    assert_eq!(c.rom_size(), 32 * 1024);
    assert_eq!(c.ram_size(), None);
    data[0x148] = 16;
    data[0x149] = 5;
    let c = Cartridge::new(data.clone());
    assert_eq!(c.rom_size(), 0x8000_0000);
    assert_eq!(c.ram_size(), Some(64 * 1024));
    data[0x148] = 17;
    let c = Cartridge::new(data);
    assert_eq!(c.rom_size(), 0);
}
