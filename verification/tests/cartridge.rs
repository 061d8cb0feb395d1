use gb_rs::cartridge::models::{from_id, known_model, ModelKind};
use gb_rs::cartridge::rtc::{Date, Rtc};
use gb_rs::cartridge::{ram_banks_for, rom_banks_for, Cartridge};

/// A 64KB MBC1 ROM with 8KB of RAM, titled `title`
fn mbc1_rom(title: &[u8]) -> Vec<u8> {
    let mut rom = vec![0u8; 0x10000];
    rom[0x134..0x134 + title.len()].copy_from_slice(title);
    rom[0x147] = 0x03;
    rom[0x148] = 0x01;
    rom[0x149] = 0x02;
    // Mark each bank with its number
    for bank in 0..4 {
        rom[bank * 0x4000 + 0x200] = bank as u8;
    }
    rom
}

#[test]
fn header_sizes() {
    assert_eq!(rom_banks_for(0x00), Some(2));
    assert_eq!(rom_banks_for(0x05), Some(64));
    assert_eq!(rom_banks_for(0x52), Some(72));
    assert_eq!(rom_banks_for(0x07), None);
    assert_eq!(ram_banks_for(0x00), Some((0, 0)));
    assert_eq!(ram_banks_for(0x01), Some((1, 2048)));
    assert_eq!(ram_banks_for(0x03), Some((4, 8192)));
    assert_eq!(ram_banks_for(0x05), None);
}

#[test]
fn known_models() {
    assert!(known_model(0x00));
    assert!(known_model(0x13));
    assert!(known_model(0xfc));
    assert!(!known_model(0x04));
    assert_eq!(from_id(0x01).kind, ModelKind::Mbc1);
    assert_eq!(from_id(0x06).kind, ModelKind::Mbc2);
    assert_eq!(from_id(0x10).kind, ModelKind::Mbc3);
    assert_eq!(from_id(0xfc).kind, ModelKind::Camera);
    assert_eq!(from_id(0x01).name, "MBC1");
    assert_eq!(from_id(0xfc).name, "GB Camera");
}

#[test]
fn invalid_headers_are_refused() {
    // Too short to hold a header
    assert!(!Cartridge::valid_header(&vec![0u8; 0x100]));
    // Unknown cartridge type
    let mut rom = mbc1_rom(b"X");
    rom[0x147] = 0x04;
    assert!(!Cartridge::valid_header(&rom));
    // Unknown ROM size
    let mut rom = mbc1_rom(b"X");
    rom[0x148] = 0x09;
    assert!(!Cartridge::valid_header(&rom));
    assert!(Cartridge::valid_header(&mbc1_rom(b"X")));
    // Fewer bytes than the banks declared is accepted
    let mut rom = mbc1_rom(b"X");
    rom[0x148] = 0x02;
    assert!(Cartridge::valid_header(&rom));
}

#[test]
fn cartridge_name() {
    let cart = Cartridge::from_rom(mbc1_rom(b"POKEMON RED"));
    assert_eq!(cart.name(), Some(String::from("POKEMON RED")));
    // A byte that isn't printable ASCII makes the name invalid
    let cart = Cartridge::from_rom(mbc1_rom(b"BAD\x01NAME"));
    assert_eq!(cart.name(), None);
}

#[test]
fn cartridge_ram_is_cleared_and_sized() {
    let cart = Cartridge::from_rom(mbc1_rom(b"X"));
    assert_eq!(cart.ram().len(), 8192);
    assert!(cart.ram().iter().all(|&b| b == 0));
}

#[test]
fn cartridge_load_ram() {
    let mut cart = Cartridge::from_rom(mbc1_rom(b"X"));
    // An image of the wrong size is refused and changes nothing
    assert!(!cart.load_ram(&[1u8; 100]));
    assert!(cart.ram().iter().all(|&b| b == 0));
    // An empty image is accepted and changes nothing
    assert!(cart.load_ram(&[]));
    let image = vec![0x5au8; 8192];
    assert!(cart.load_ram(&image));
    assert_eq!(cart.ram(), &image[..]);
}

#[test]
fn mbc1_bank_switching() {
    let mut cart = Cartridge::from_rom(mbc1_rom(b"X"));
    // Bank 1 is mapped at power up
    assert_eq!(cart.rom_byte(0x4200), 1);
    // Select bank 3
    cart.set_rom_byte(0x2000, 3);
    assert_eq!(cart.rom_byte(0x4200), 3);
    // Bank 0 can't be selected: it maps bank 1
    cart.set_rom_byte(0x2000, 0);
    assert_eq!(cart.rom_byte(0x4200), 1);
    // Bank 0 is always at the start
    assert_eq!(cart.rom_byte(0x0200), 0);
}

#[test]
fn mbc1_ram_write_protect() {
    let mut cart = Cartridge::from_rom(mbc1_rom(b"X"));
    // RAM is write protected at power up
    cart.set_ram_byte(0x0010, 0x42);
    assert_eq!(cart.ram_byte(0x0010), 0);
    // Enable RAM writes
    cart.set_rom_byte(0x0000, 0x0a);
    cart.set_ram_byte(0x0010, 0x42);
    assert_eq!(cart.ram_byte(0x0010), 0x42);
}

#[test]
fn rtc_dump_roundtrip() {
    let rtc = Rtc::Halted(12345);
    assert_eq!(Rtc::from_dump(rtc.dump()), rtc);
    let rtc = Rtc::Counting(1_400_000_000);
    assert_eq!(Rtc::from_dump(rtc.dump()), rtc);
    // The high bit marks a halted RTC
    assert_eq!(Rtc::Halted(1).dump(), 0x8000_0000_0000_0001);
}

#[test]
fn rtc_counter_at() {
    let mut rtc = Rtc::Halted(300);
    assert_eq!(rtc.counter_at(1000), 300);
    rtc.start_at(1000);
    assert_eq!(rtc, Rtc::Counting(700));
    assert_eq!(rtc.counter_at(1010), 310);
    // A clock that went backwards reads 0
    assert_eq!(rtc.counter_at(600), 0);
}

#[test]
fn rtc_start_keeps_counter() {
    let mut rtc = Rtc::new();
    assert_eq!(rtc.counter(), 0);
    rtc.start();
    let c = rtc.counter();
    assert!(c >= 0 && c < 5);
    rtc.stop();
    assert!(matches!(rtc, Rtc::Halted(_)));
}

#[test]
fn date_fields() {
    // 2 days, 3 hours, 4 minutes and 5 seconds
    let d = Date(2 * 86400 + 3 * 3600 + 4 * 60 + 5);
    assert_eq!(d.seconds(), 5);
    assert_eq!(d.minutes(), 4);
    assert_eq!(d.hours(), 3);
    assert_eq!(d.days(), 2);
}

#[test]
fn rtc_stop_at_keeps_counter() {
    let mut rtc = Rtc::Halted(300);
    rtc.start_at(1000);
    // Stopping at the same instant changes nothing
    rtc.stop_at(1000);
    assert_eq!(rtc, Rtc::Halted(300));
    // Stopping 25 seconds later keeps the counter of that time
    rtc.start_at(2000);
    rtc.stop_at(2025);
    assert_eq!(rtc, Rtc::Halted(325));
    // Stopping a stopped RTC changes nothing
    rtc.stop_at(5000);
    assert_eq!(rtc, Rtc::Halted(325));
}

#[test]
fn rtc_date_at() {
    let rtc = Rtc::Counting(1000);
    assert_eq!(rtc.date_at(1000 + 86400 + 61), Date(86461));
    assert_eq!(rtc.date_at(1000 + 86400 + 61).days(), 1);
    assert_eq!(Rtc::Halted(7).date_at(123), Date(7));
}

/// An image shorter than the banks it declares loads, and the missing
/// bytes read as 0xff
#[test]
fn short_rom_loads() {
    let mut rom = vec![0u8; 0x6000];
    rom[0x5000] = 0x42;
    assert!(Cartridge::valid_header(&rom));
    let cart = Cartridge::from_rom(rom);
    assert_eq!(cart.rom_byte(0x5000), 0x42);
    assert_eq!(cart.rom_byte(0x7000), 0xff);
}
