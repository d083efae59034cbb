use x86_emulator::dump::format_hex8;
use x86_emulator::emulator::Emulator;

#[test]
fn hex8_pads_to_eight_digits() {
    assert_eq!(format_hex8(0), "00000000");
    assert_eq!(format_hex8(1), "00000001");
    assert_eq!(format_hex8(0x2A), "0000002A");
    assert_eq!(format_hex8(0xABCDEF), "00ABCDEF");
    assert_eq!(format_hex8(0x7c00), "00007C00");
}

#[test]
fn hex8_of_a_full_word() {
    assert_eq!(format_hex8(0x12345678), "12345678");
    assert_eq!(format_hex8(0xFFFF_FFFF), "FFFFFFFF");
    assert_eq!(format_hex8(0x9ABCDEF0), "9ABCDEF0");
    assert_eq!(format_hex8(0x1000_0000), "10000000");
}

#[test]
fn hex8_of_a_wider_value_takes_the_digits_it_needs() {
    assert_eq!(format_hex8(0x1_0000_0000), "100000000");
    assert_eq!(format_hex8(0xFEDC_BA98_7654_3210), "FEDCBA9876543210");
    assert_eq!(format_hex8(u64::MAX), "FFFFFFFFFFFFFFFF");
}

#[test]
fn hex8_agrees_with_the_standard_format() {
    for value in [0u64, 9, 10, 15, 16, 255, 256, 0xDEAD, 0xBEEF_CAFE, 0x1234_5678_9ABC] {
        assert_eq!(format_hex8(value), format!("{:0>8X}", value));
    }
}

#[test]
fn dump_of_a_new_machine() {
    let emu = Emulator::new(0x7c00, 0x7c00, vec![]);
    assert_eq!(
        emu.dump_register(),
        vec![
            "EAX = 00000000",
            "ECX = 00000000",
            "EDX = 00000000",
            "EBX = 00000000",
            "ESP = 00007C00",
            "EBP = 00000000",
            "ESI = 00000000",
            "EDI = 00000000",
            "EIP = 00007C00",
        ]
    );
}

#[test]
fn dump_after_a_run() {
    let mut emu = Emulator::new(
        0,
        0xFFFF_FFFF,
        vec![0xB8, 1, 0, 0, 0, 0xBE, 0xEF, 0xBE, 0xAD, 0xDE],
    );
    assert!(emu.run(10).is_ok());
    assert_eq!(
        emu.dump_register(),
        vec![
            "EAX = 00000001",
            "ECX = 00000000",
            "EDX = 00000000",
            "EBX = 00000000",
            "ESP = FFFFFFFF",
            "EBP = 00000000",
            "ESI = DEADBEEF",
            "EDI = 00000000",
            "EIP = 0000000A",
        ]
    );
}
