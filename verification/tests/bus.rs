use x86_emulator::bus::{load_image, Bus};

#[test]
fn read_u32_is_little_endian() {
    let bus = Bus::new(vec![0x78, 0x56, 0x34, 0x12]);
    assert_eq!(bus.get_code32(0, 0), 0x12345678);
}

#[test]
fn read_u32_adds_base_and_index() {
    let bus = Bus::new(vec![0xAA, 0xBB, 0x01, 0x02, 0x03, 0x04, 0xCC]);
    assert_eq!(bus.get_code32(2, 0), 0x04030201);
    assert_eq!(bus.get_code32(0, 2), 0x04030201);
    assert_eq!(bus.get_code32(1, 1), 0x04030201);
    assert_eq!(bus.get_code32(1, 2), 0xCC040302);
}

#[test]
fn read_u32_extremes() {
    let bus = Bus::new(vec![0xFF, 0xFF, 0xFF, 0xFF, 0x00, 0x00, 0x00, 0x00]);
    assert_eq!(bus.get_code32(0, 0), 0xFFFF_FFFF);
    assert_eq!(bus.get_code32(4, 0), 0);
    assert_eq!(bus.get_code32(2, 0), 0x0000_FFFF);
}

#[test]
fn read_u8_returns_the_addressed_byte() {
    let bus = Bus::new(vec![0x10, 0x20, 0x30, 0xFF]);
    assert_eq!(bus.get_code8(0, 0), 0x10);
    assert_eq!(bus.get_code8(1, 1), 0x30);
    assert_eq!(bus.get_code8(3, 0), 0xFF);
    assert_eq!(bus.get_code8(0, 3), 0xFF);
}

#[test]
fn read_i8_is_twos_complement() {
    let bus = Bus::new(vec![0x00, 0x7F, 0x80, 0xFE, 0xFF]);
    assert_eq!(bus.get_sign_code8(0, 0), 0);
    assert_eq!(bus.get_sign_code8(0, 1), 127);
    assert_eq!(bus.get_sign_code8(0, 2), -128);
    assert_eq!(bus.get_sign_code8(0, 3), -2);
    assert_eq!(bus.get_sign_code8(4, 0), -1);
}

#[test]
fn read_i32_is_twos_complement() {
    let bus = Bus::new(vec![
        0xFF, 0xFF, 0xFF, 0xFF, 0x00, 0x00, 0x00, 0x80, 0xFF, 0xFF, 0xFF, 0x7F, 0xFB, 0xFF, 0xFF,
        0xFF,
    ]);
    assert_eq!(bus.get_sign_code32(0, 0), -1);
    assert_eq!(bus.get_sign_code32(4, 0), i32::MIN);
    assert_eq!(bus.get_sign_code32(0, 8), i32::MAX);
    assert_eq!(bus.get_sign_code32(6, 6), -5);
}

#[test]
fn bus_len_is_the_size_of_the_image() {
    assert_eq!(Bus::new(vec![]).len(), 0);
    assert_eq!(Bus::new(vec![0; 37]).len(), 37);
}

#[test]
fn write_u8_changes_one_byte() {
    let mut bus = Bus::new(vec![1, 2, 3, 4]);
    bus.set_memory8(2, 0xAB);
    assert_eq!(bus.get_code8(0, 0), 1);
    assert_eq!(bus.get_code8(0, 1), 2);
    assert_eq!(bus.get_code8(0, 2), 0xAB);
    assert_eq!(bus.get_code8(0, 3), 4);
    assert_eq!(bus.len(), 4);
}

#[test]
fn write_u32_stores_least_significant_byte_first() {
    let mut bus = Bus::new(vec![0x11; 8]);
    bus.set_memory32(2, 0xDEADBEEF);
    assert_eq!(bus.get_code8(0, 0), 0x11);
    assert_eq!(bus.get_code8(0, 1), 0x11);
    assert_eq!(bus.get_code8(0, 2), 0xEF);
    assert_eq!(bus.get_code8(0, 3), 0xBE);
    assert_eq!(bus.get_code8(0, 4), 0xAD);
    assert_eq!(bus.get_code8(0, 5), 0xDE);
    assert_eq!(bus.get_code8(0, 6), 0x11);
    assert_eq!(bus.get_code8(0, 7), 0x11);
}

#[test]
fn write_u32_then_read_gives_the_word() {
    for &word in &[0u32, 1, 0x12345678, 0x8000_0000, 0xFFFF_FFFF, 0x00FF_00FF] {
        let mut bus = Bus::new(vec![0x55; 6]);
        bus.set_memory32(1, word);
        assert_eq!(bus.get_code32(1, 0), word);
        assert_eq!(bus.get_code8(0, 0), 0x55);
        assert_eq!(bus.get_code8(5, 0), 0x55);
    }
}

#[test]
fn write_u32_at_the_last_four_bytes() {
    let mut bus = Bus::new(vec![0; 4]);
    bus.set_memory32(0, 0x01020304);
    assert_eq!(bus.get_code32(0, 0), 0x01020304);
    assert_eq!(bus.get_code8(0, 0), 0x04);
    assert_eq!(bus.get_code8(0, 3), 0x01);
}

#[test]
fn load_image_places_the_program_at_the_offset() {
    let memory = load_image(&vec![0xB8, 0x01, 0x02], 4, 10);
    assert_eq!(memory, vec![0, 0, 0, 0, 0xB8, 0x01, 0x02, 0, 0, 0]);
}

#[test]
fn load_image_cuts_off_what_does_not_fit() {
    assert_eq!(load_image(&vec![1, 2, 3, 4], 2, 4), vec![0, 0, 1, 2]);
    assert_eq!(load_image(&vec![1, 2, 3, 4], 4, 4), vec![0, 0, 0, 0]);
    assert_eq!(load_image(&vec![1, 2, 3, 4], 9, 4), vec![0, 0, 0, 0]);
    assert_eq!(load_image(&vec![1, 2, 3, 4], 0, 0), Vec::<u8>::new());
}

#[test]
fn load_image_of_an_empty_program_is_all_zero() {
    assert_eq!(load_image(&vec![], 0, 3), vec![0, 0, 0]);
}
