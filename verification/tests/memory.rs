use tonzoboy::memory::{ColorMode, LoadError, Mmu};

#[test]
fn new_memory_is_zeroed() {
    let mmu = Mmu::new();
    for address in 0..=u16::MAX {
        assert_eq!(mmu.read_byte_at(address), 0);
    }
}

#[test]
fn a_written_byte_is_read_back() {
    let mut mmu = Mmu::new();
    mmu.write_byte_at(0x0000, 0x11);
    mmu.write_byte_at(0x8000, 0x42);
    mmu.write_byte_at(0xFFFF, 0x99);
    assert_eq!(mmu.read_byte_at(0x0000), 0x11);
    assert_eq!(mmu.read_byte_at(0x8000), 0x42);
    assert_eq!(mmu.read_byte_at(0xFFFF), 0x99);
    assert_eq!(mmu.read_byte_at(0x0001), 0x00);
    assert_eq!(mmu.read_byte_at(0x7FFF), 0x00);
    assert_eq!(mmu.read_byte_at(0x8001), 0x00);
    assert_eq!(mmu.read_byte_at(0xFFFE), 0x00);
}

#[test]
fn a_write_to_the_echo_window_lands_in_work_ram() {
    let mut mmu = Mmu::new();
    mmu.write_byte_at(0xE000, 0x11);
    assert_eq!(mmu.read_byte_at(0xC000), 0x11);
    assert_eq!(mmu.read_byte_at(0xE000), 0x11);
    mmu.write_byte_at(0xF123, 0x22);
    assert_eq!(mmu.read_byte_at(0xD123), 0x22);
    mmu.write_byte_at(0xFDFF, 0x33);
    assert_eq!(mmu.read_byte_at(0xDDFF), 0x33);
}

#[test]
fn a_write_to_work_ram_shows_in_the_echo_window() {
    let mut mmu = Mmu::new();
    mmu.write_byte_at(0xC000, 0x44);
    assert_eq!(mmu.read_byte_at(0xE000), 0x44);
    mmu.write_byte_at(0xC123, 0x55);
    assert_eq!(mmu.read_byte_at(0xE123), 0x55);
    mmu.write_byte_at(0xDDFF, 0x66);
    assert_eq!(mmu.read_byte_at(0xFDFF), 0x66);
}

#[test]
fn the_whole_echo_window_mirrors_work_ram() {
    let mut mmu = Mmu::new();
    for address in 0xE000..=0xFDFFu16 {
        let value = (address % 251) as u8 + 1;
        mmu.write_byte_at(address, value);
        assert_eq!(mmu.read_byte_at(address - 0x2000), value);
    }
    let mut mmu = Mmu::new();
    for address in 0xC000..=0xDDFFu16 {
        let value = (address % 241) as u8 + 1;
        mmu.write_byte_at(address, value);
        assert_eq!(mmu.read_byte_at(address + 0x2000), value);
    }
}

#[test]
fn the_echo_window_ends_at_fdff() {
    let mut mmu = Mmu::new();
    mmu.write_byte_at(0xFE00, 0x77);
    assert_eq!(mmu.read_byte_at(0xFE00), 0x77);
    assert_eq!(mmu.read_byte_at(0xDE00), 0x00);
    mmu.write_byte_at(0xDE00, 0x88);
    assert_eq!(mmu.read_byte_at(0xFE00), 0x77);
    mmu.write_byte_at(0xDFFF, 0x99);
    assert_eq!(mmu.read_byte_at(0xFFFF), 0x00);
}

#[test]
fn the_echo_window_starts_at_e000() {
    let mut mmu = Mmu::new();
    mmu.write_byte_at(0xDFFF, 0x12);
    assert_eq!(mmu.read_byte_at(0xDFFF), 0x12);
    assert_eq!(mmu.read_byte_at(0xBFFF), 0x00);
    mmu.write_byte_at(0xBFFF, 0x34);
    assert_eq!(mmu.read_byte_at(0xDFFF), 0x12);
}

#[test]
fn load_rom_copies_the_image_from_address_zero() {
    let mut mmu = Mmu::new();
    mmu.write_byte_at(0x0002, 0xEE);
    mmu.write_byte_at(0x0003, 0xDD);
    mmu.write_byte_at(0x4000, 0xCC);
    assert_eq!(mmu.load_rom(&[0x01, 0x02, 0x03]), Ok(()));
    assert_eq!(mmu.read_byte_at(0x0000), 0x01);
    assert_eq!(mmu.read_byte_at(0x0001), 0x02);
    assert_eq!(mmu.read_byte_at(0x0002), 0x03);
    assert_eq!(mmu.read_byte_at(0x0003), 0xDD);
    assert_eq!(mmu.read_byte_at(0x4000), 0xCC);
}

#[test]
fn load_rom_accepts_an_empty_image() {
    let mut mmu = Mmu::new();
    mmu.write_byte_at(0x0000, 0xAB);
    assert_eq!(mmu.load_rom(&[]), Ok(()));
    assert_eq!(mmu.read_byte_at(0x0000), 0xAB);
}

#[test]
fn load_rom_accepts_an_image_that_fills_the_memory() {
    let mut image = vec![0u8; 0x10000];
    image[0x0000] = 0x01;
    image[0x7FFF] = 0x02;
    image[0xC000] = 0x03;
    image[0xE000] = 0x04;
    image[0xFFFF] = 0x05;
    let mut mmu = Mmu::new();
    assert_eq!(mmu.load_rom(&image), Ok(()));
    assert_eq!(mmu.read_byte_at(0x0000), 0x01);
    assert_eq!(mmu.read_byte_at(0x7FFF), 0x02);
    assert_eq!(mmu.read_byte_at(0xC000), 0x03);
    assert_eq!(mmu.read_byte_at(0xE000), 0x03);
    assert_eq!(mmu.read_byte_at(0xFFFF), 0x05);
}

#[test]
fn load_rom_refuses_an_image_that_is_too_large() {
    let image = vec![0xAAu8; 0x10001];
    let mut mmu = Mmu::new();
    mmu.write_byte_at(0x0000, 0x12);
    assert_eq!(mmu.load_rom(&image), Err(LoadError::ImageTooLarge { size: 0x10001 }));
    assert_eq!(mmu.read_byte_at(0x0000), 0x12);
    assert_eq!(mmu.read_byte_at(0x0001), 0x00);
    assert_eq!(mmu.read_byte_at(0xFFFF), 0x00);
}

#[test]
fn game_title_reads_fifteen_bytes_of_the_header() {
    let mut image = vec![0u8; 0x150];
    let title = b"SUPER MARIOLAND";
    image[0x134..0x143].copy_from_slice(title);
    image[0x133] = b'<';
    image[0x143] = b'>';
    let mut mmu = Mmu::new();
    assert_eq!(mmu.load_rom(&image), Ok(()));
    assert_eq!(mmu.game_title(), "SUPER MARIOLAND");
}

#[test]
fn game_title_keeps_padding_bytes() {
    let mut mmu = Mmu::new();
    for (i, byte) in b"TETRIS".iter().enumerate() {
        mmu.write_byte_at(0x134 + i as u16, *byte);
    }
    let title = mmu.game_title();
    assert_eq!(title.chars().count(), 15);
    assert_eq!(title, "TETRIS\0\0\0\0\0\0\0\0\0");
}

#[test]
fn game_title_of_an_empty_memory_is_fifteen_nul_characters() {
    let title = Mmu::new().game_title();
    assert_eq!(title, "\0".repeat(15));
}

#[test]
fn game_title_maps_each_byte_to_the_character_with_that_code() {
    let mut mmu = Mmu::new();
    mmu.write_byte_at(0x134, 0x41);
    mmu.write_byte_at(0x135, 0xE9);
    mmu.write_byte_at(0x142, 0xFF);
    let title: Vec<char> = mmu.game_title().chars().collect();
    assert_eq!(title.len(), 15);
    assert_eq!(title[0], 'A');
    assert_eq!(title[1], '\u{E9}');
    assert_eq!(title[2], '\0');
    assert_eq!(title[14], '\u{FF}');
}

#[test]
fn color_mode_is_color_only_for_0x80() {
    let mut mmu = Mmu::new();
    assert_eq!(mmu.color_mode(), ColorMode::NoColor);
    mmu.write_byte_at(0x143, 0x80);
    assert_eq!(mmu.color_mode(), ColorMode::Color);
    mmu.write_byte_at(0x143, 0xC0);
    assert_eq!(mmu.color_mode(), ColorMode::NoColor);
    mmu.write_byte_at(0x143, 0x01);
    assert_eq!(mmu.color_mode(), ColorMode::NoColor);
    mmu.write_byte_at(0x143, 0x81);
    assert_eq!(mmu.color_mode(), ColorMode::NoColor);
}
