use rustic_yellow::mbc5::{CartridgeError, Mbc5};
use rustic_yellow::mmu::Mmu;

/// An image of four banks that passes the header check; the first byte of
/// each switchable bank is the bank's number.
fn image_for_memory() -> Vec<u8> {
    let mut rom = vec![0u8; 4 * 0x4000];
    rom[0x143] = 0x80;
    rom[0x147] = 0x1B;
    rom[0x149] = 0x03;
    for bank in 0..4 {
        rom[bank * 0x4000] = bank as u8;
    }
    rom[0x3FFF] = 0x77;
    rom
}

fn memory() -> Mmu {
    Mmu::new(image_for_memory()).unwrap()
}

#[test]
fn image_needs_whole_banks() {
    assert_eq!(Mbc5::validate(&vec![0u8; 0x4000]), Err(CartridgeError::BadRomSize));
    assert_eq!(Mbc5::validate(&vec![0u8; 0x8001]), Err(CartridgeError::BadRomSize));
    assert_eq!(Mbc5::validate(&Vec::new()), Err(CartridgeError::BadRomSize));
}

#[test]
fn image_needs_its_header_bytes() {
    let mut rom = image_for_memory();
    assert_eq!(Mbc5::validate(&rom), Ok(()));
    rom[0x143] = 0x00;
    assert_eq!(Mbc5::validate(&rom), Err(CartridgeError::BadColorFlag));
    rom[0x143] = 0x80;
    rom[0x147] = 0x13;
    assert_eq!(Mbc5::validate(&rom), Err(CartridgeError::BadCartridgeType));
    rom[0x147] = 0x1B;
    rom[0x149] = 0x02;
    assert_eq!(Mbc5::validate(&rom), Err(CartridgeError::BadRamSize));
}

#[test]
fn faults_are_reported_in_the_order_of_the_checks() {
    let mut rom = image_for_memory();
    rom[0x143] = 0;
    rom[0x147] = 0;
    rom[0x149] = 0;
    assert_eq!(Mbc5::validate(&rom), Err(CartridgeError::BadColorFlag));
    assert!(matches!(Mmu::new(rom), Err(CartridgeError::BadColorFlag)));
}

#[test]
fn writable_regions_read_back_what_was_written() {
    let mut m = memory();
    for &(addr, value) in &[
        (0x8000u16, 0x11u8),
        (0x9FFF, 0x12),
        (0xC000, 0x13),
        (0xDFFF, 0x14),
        (0xFE00, 0x15),
        (0xFE9F, 0x16),
        (0xFF00, 0x17),
        (0xFF7F, 0x18),
        (0xFF80, 0x19),
        (0xFFFE, 0x1A),
        (0xFFFF, 0x1B),
    ] {
        m.write_byte(addr, value);
        assert_eq!(m.read_byte(addr), value, "at {:04x}", addr);
    }
}

#[test]
fn a_write_leaves_other_regions_alone() {
    let mut m = memory();
    m.write_byte(0xC123, 0xAA);
    m.write_byte(0x8123, 0xBB);
    m.write_byte(0xFF90, 0xCC);
    m.write_byte(0xC124, 0x01);
    assert_eq!(m.read_byte(0xC123), 0xAA);
    assert_eq!(m.read_byte(0x8123), 0xBB);
    assert_eq!(m.read_byte(0xFF90), 0xCC);
    assert_eq!(m.read_byte(0x0000), 0x00);
    assert_eq!(m.read_byte(0x3FFF), 0x77);
}

#[test]
fn unmapped_addresses_read_the_open_bus_value_and_drop_writes() {
    let mut m = memory();
    for &addr in &[0xE000u16, 0xF000, 0xFDFF, 0xFEA0, 0xFEFF] {
        assert_eq!(m.read_byte(addr), 0xFF);
        m.write_byte(addr, 0x12);
        assert_eq!(m.read_byte(addr), 0xFF);
    }
    assert_eq!(m.read_byte(0xC000), 0);
}

#[test]
fn rom_cannot_be_written() {
    let mut m = memory();
    m.write_byte(0x3FFF, 0x01);
    assert_eq!(m.read_byte(0x3FFF), 0x77);
}

#[test]
fn rom_bank_select_maps_the_bank() {
    let mut m = memory();
    assert_eq!(m.read_byte(0x4000), 1);
    m.write_byte(0x2000, 2);
    assert_eq!(m.read_byte(0x4000), 2);
    m.write_byte(0x3FFF, 3);
    assert_eq!(m.read_byte(0x4000), 3);
    m.write_byte(0x2000, 0);
    assert_eq!(m.read_byte(0x4000), 0);
    assert_eq!(m.read_byte(0x0000), 0);
}

#[test]
fn rom_bank_select_is_reduced_to_the_banks_present() {
    let mut m = memory();
    m.write_byte(0x2000, 6);
    assert_eq!(m.read_byte(0x4000), 2);
    m.write_byte(0x2000, 0xFF);
    assert_eq!(m.read_byte(0x4000), 3);
}

#[test]
fn enabled_external_ram_stores() {
    let mut m = memory();
    m.write_byte(0x0000, 0x0A);
    m.write_byte(0xA000, 0x42);
    m.write_byte(0xBFFF, 0x43);
    assert_eq!(m.read_byte(0xA000), 0x42);
    assert_eq!(m.read_byte(0xBFFF), 0x43);
}

#[test]
fn any_address_of_the_enable_range_enables() {
    let mut m = memory();
    m.write_byte(0x1FFF, 0x0A);
    m.write_byte(0xA010, 0x42);
    assert_eq!(m.read_byte(0xA010), 0x42);
}

#[test]
fn external_ram_is_inert_until_enabled() {
    let mut m = memory();
    assert_eq!(m.read_byte(0xA000), 0xFF);
    m.write_byte(0xA000, 0x42);
    assert_eq!(m.read_byte(0xA000), 0xFF);
    m.write_byte(0x0000, 0x0A);
    assert_eq!(m.read_byte(0xA000), 0x00);
}

#[test]
fn any_other_value_disables_external_ram() {
    for &key in &[0x00u8, 0x01, 0x0B, 0x1A, 0xA0, 0xFF] {
        let mut m = memory();
        m.write_byte(0x0000, 0x0A);
        m.write_byte(0xA000, 0x42);
        m.write_byte(0x0000, key);
        assert_eq!(m.read_byte(0xA000), 0xFF, "key {:02x}", key);
        m.write_byte(0xA000, 0x99);
        m.write_byte(0x0000, 0x0A);
        assert_eq!(m.read_byte(0xA000), 0x42, "key {:02x}", key);
    }
}

#[test]
fn ram_bank_select_needs_the_advanced_mode() {
    let mut m = memory();
    m.write_byte(0x0000, 0x0A);
    m.write_byte(0xA000, 0x10);
    m.write_byte(0x4000, 1);
    assert_eq!(m.read_byte(0xA000), 0x10);
    m.write_byte(0x6000, 1);
    assert_eq!(m.read_byte(0xA000), 0x00);
    m.write_byte(0xA000, 0x11);
    m.write_byte(0x4000, 0);
    assert_eq!(m.read_byte(0xA000), 0x10);
    m.write_byte(0x4000, 5);
    assert_eq!(m.read_byte(0xA000), 0x11);
    m.write_byte(0x6000, 0);
    assert_eq!(m.read_byte(0xA000), 0x10);
}

#[test]
fn words_are_stored_low_byte_first() {
    let mut m = memory();
    m.write_word(0xC000, 0x1234);
    assert_eq!(m.read_byte(0xC000), 0x34);
    assert_eq!(m.read_byte(0xC001), 0x12);
    assert_eq!(m.read_word(0xC000), 0x1234);
}

#[test]
fn a_word_at_the_last_address_wraps_around() {
    let mut m = memory();
    m.write_byte(0xFFFF, 0x34);
    assert_eq!(m.read_word(0xFFFF), 0x0034);
}

#[test]
fn replace_ram_splices_the_whole_image() {
    let mut m = memory();
    m.write_byte(0xC000, 0x55);
    m.write_byte(0x6000, 1);
    m.write_byte(0x4000, 2);
    let mut image = vec![0u8; 0x8000];
    image[0] = 0x01;
    image[0x4000] = 0x02;
    image[0x7FFF] = 0x03;
    assert!(m.replace_ram(image.clone()));
    assert_eq!(m.dump_ram(), image);
    assert_eq!(m.read_byte(0xA000), 0xFF);
    m.write_byte(0x0000, 0x0A);
    assert_eq!(m.read_byte(0xA000), 0x02);
    assert_eq!(m.read_byte(0xC000), 0x55);
    assert_eq!(m.read_byte(0x4000), 1);
}

#[test]
fn replace_ram_refuses_an_image_of_another_size() {
    let mut m = memory();
    m.write_byte(0x0000, 0x0A);
    m.write_byte(0xA000, 0x42);
    assert!(!m.replace_ram(vec![1u8; 0x7FFF]));
    assert!(!m.replace_ram(Vec::new()));
    assert_eq!(m.read_byte(0xA000), 0x42);
}
