use dotnes::{
    parse_header, ConsoleType, ExpansionDevice, ExtendedConsoleType, Header, Mirroring,
    ParseHeaderError, Timing, VsHardwareType, VsInfo, VsPPUType,
};

fn record(rest: [u8; 12]) -> Vec<u8> {
    let mut v = vec![b'N', b'E', b'S', 0x1A];
    v.extend_from_slice(&rest);
    v
}

#[test]
fn extended_record_round_trip() {
    let input = b"NES\x1A\x12\x34\x5C\x69\x77\x77\x07\x70\x01\x36\x03\x17";
    let header = parse_header(input).unwrap();
    assert_eq!(
        header,
        Header {
            prg_rom_size: 0x712 * 16 * 1024,
            chr_rom_size: 0x734 * 8 * 1024,
            prg_ram_size: 0,
            prg_nvram_size: 8192,
            chr_ram_size: 8192,
            chr_nvram_size: 0,
            miscellaneous_rom_count: 3,
            mapper: 0x765,
            sub_mapper: 7,
            is_four_screen: true,
            has_trainer: true,
            has_persistent_memory: false,
            mirroring: Mirroring::HorizontalOrMapperControlled,
            has_bus_conflicts: false,
            timing: Timing::PAL,
            is_nes2: true,
            console_type: ConsoleType::Vs(VsInfo {
                ppu_type: VsPPUType::RC2C03B,
                hardware_type: VsHardwareType::UniSystemSuperXeviousProtection,
            }),
            default_expansion_device: ExpansionDevice::OekaKidsTablet,
        }
    );
}

#[test]
fn decoding_twice_gives_the_same_header() {
    let input = b"NES\x1A\x12\x34\x5C\x69\x77\x77\x07\x70\x01\x36\x03\x17";
    assert_eq!(parse_header(input), parse_header(input));
    let legacy = record([2, 1, 0x13, 0, 0, 0, 0x12, 0, 0, 0, 0, 0]);
    assert_eq!(parse_header(&legacy), parse_header(&legacy));
}

#[test]
fn wrong_magic_is_rejected() {
    let mut input = record([0; 12]);
    for i in 0..4 {
        let saved = input[i];
        input[i] ^= 0x20;
        assert_eq!(parse_header(&input), Err(ParseHeaderError::MagicConstantNotMatch));
        input[i] = saved;
    }
    assert_eq!(parse_header(b""), Err(ParseHeaderError::MagicConstantNotMatch));
    assert_eq!(parse_header(b"NES"), Err(ParseHeaderError::MagicConstantNotMatch));
    assert_eq!(parse_header(b"nes\x1A"), Err(ParseHeaderError::MagicConstantNotMatch));
}

#[test]
fn short_record_is_rejected() {
    for n in 4..16 {
        let input = record([0; 12]);
        assert_eq!(parse_header(&input[..n]), Err(ParseHeaderError::NotEnough));
    }
    assert!(parse_header(&record([0; 12])).is_ok());
}

#[test]
fn legacy_record_fields() {
    let input = record([2, 1, 0x13, 0x40, 0, 0, 0x20, 0, 0, 0, 0, 0]);
    let header = parse_header(&input).unwrap();
    assert_eq!(
        header,
        Header {
            prg_rom_size: 2 * 16384,
            chr_rom_size: 8192,
            prg_ram_size: 8192,
            prg_nvram_size: 0,
            chr_ram_size: 0,
            chr_nvram_size: 0,
            miscellaneous_rom_count: 0,
            mapper: 0x41,
            sub_mapper: 0,
            is_four_screen: false,
            has_trainer: false,
            has_persistent_memory: true,
            mirroring: Mirroring::Vertical,
            has_bus_conflicts: true,
            timing: Timing::NTSC,
            is_nes2: false,
            console_type: ConsoleType::NES,
            default_expansion_device: ExpansionDevice::Unspecified,
        }
    );
}

#[test]
fn legacy_prg_ram_units() {
    let ram = |b8: u8, b10: u8| parse_header(&record([1, 1, 0, 0, b8, 0, b10, 0, 0, 0, 0, 0])).unwrap().prg_ram_size;
    assert_eq!(ram(0, 0), 8192);
    assert_eq!(ram(1, 0), 8192);
    assert_eq!(ram(4, 0), 4 * 8192);
    assert_eq!(ram(255, 0), 255 * 8192);
    assert_eq!(ram(4, 0x10), 0);
    assert_eq!(ram(0, 0x10), 0);
}

#[test]
fn legacy_ignores_bytes_eleven_to_fifteen() {
    let a = parse_header(&record([1, 1, 0, 0, 0, 0, 0, 0xFF, 0xFF, 0xFF, 0xFF, 0xFF]));
    let b = parse_header(&record([1, 1, 0, 0, 0, 0, 0, 0, 0, 0, 0, 0]));
    assert_eq!(a, b);
}

fn legacy_timing(b9: u8, b10: u8) -> Result<Timing, ParseHeaderError> {
    parse_header(&record([1, 1, 0, 0, 0, b9, b10, 0, 0, 0, 0, 0])).map(|h| h.timing)
}

#[test]
fn legacy_timing_indicators() {
    assert_eq!(legacy_timing(0, 0), Ok(Timing::NTSC));
    assert_eq!(legacy_timing(0x01, 0), Ok(Timing::NTSC));
    assert_eq!(legacy_timing(0x80, 0), Ok(Timing::MultipleRegion));
    assert_eq!(legacy_timing(0, 2), Ok(Timing::PAL));
    assert_eq!(legacy_timing(0, 1), Ok(Timing::MultipleRegion));
    assert_eq!(legacy_timing(0, 3), Ok(Timing::MultipleRegion));
    assert_eq!(legacy_timing(0x80, 1), Ok(Timing::MultipleRegion));
}

#[test]
fn legacy_conflicting_timing_is_rejected() {
    assert_eq!(legacy_timing(0x80, 2), Err(ParseHeaderError::TwoDifferTiming));
    assert_eq!(legacy_timing(0x80, 3), Err(ParseHeaderError::TwoDifferTiming));
    assert_eq!(legacy_timing(0xFF, 0xFE), Err(ParseHeaderError::TwoDifferTiming));
}

#[test]
fn extended_format_ignores_legacy_timing_bits() {
    let input = record([1, 1, 0, 0x08, 0, 0x80, 0x02, 0, 0, 0, 0, 0]);
    assert_eq!(parse_header(&input).unwrap().timing, Timing::NTSC);
}

#[test]
fn version_bits_other_than_two_are_legacy() {
    for version in [0u8, 1, 3] {
        let h = parse_header(&record([1, 1, 0, version << 2, 0, 0, 0, 0, 0, 0, 0, 0])).unwrap();
        assert!(!h.is_nes2);
    }
}

fn console(b7: u8, b13: u8) -> ConsoleType {
    parse_header(&record([1, 1, 0, b7, 0, 0, 0, 0, 0, b13, 0, 0])).unwrap().console_type
}

#[test]
fn console_type_selector() {
    assert_eq!(console(0x00, 0), ConsoleType::NES);
    assert_eq!(console(0x01, 0), ConsoleType::Vs(VsInfo::default()));
    assert_eq!(console(0x02, 0), ConsoleType::PC10);
    assert_eq!(console(0x03, 0x05), ConsoleType::Vs(VsInfo::default()));
    assert_eq!(console(0x0B, 0x05), ConsoleType::Extend(ExtendedConsoleType::VT01WithRedCyanSTN));
    assert_eq!(console(0x0B, 0x0A), ConsoleType::Extend(ExtendedConsoleType::VT369));
    assert_eq!(console(0x0B, 0x0F), ConsoleType::Extend(ExtendedConsoleType::Reversed));
    assert_eq!(console(0x0A, 0x55), ConsoleType::PC10);
    assert_eq!(
        console(0x09, 0x6D),
        ConsoleType::Vs(VsInfo {
            ppu_type: VsPPUType::Reserved,
            hardware_type: VsHardwareType::DualSystemRaidOnBungelingBayProtection,
        })
    );
    assert_eq!(
        console(0x09, 0x7C),
        ConsoleType::Vs(VsInfo {
            ppu_type: VsPPUType::RC2C0505,
            hardware_type: VsHardwareType::Reserved,
        })
    );
}

#[test]
fn vs_info_default() {
    assert_eq!(
        VsInfo::default(),
        VsInfo { ppu_type: VsPPUType::RP2C03B, hardware_type: VsHardwareType::UniSystemNormal }
    );
}

fn extended(b4: u8, b5: u8, b9: u8) -> Header {
    parse_header(&record([b4, b5, 0, 0x08, 0, b9, 0, 0, 0, 0, 0, 0])).unwrap()
}

#[test]
fn extended_rom_sizes_with_high_nibbles() {
    let h = extended(0x12, 0x34, 0x21);
    assert_eq!(h.prg_rom_size, 0x212 * 16384);
    assert_eq!(h.chr_rom_size, 0x134 * 8192);
    let h = extended(0xFF, 0xFF, 0xEE);
    assert_eq!(h.prg_rom_size, 0xEFF * 16384);
    assert_eq!(h.chr_rom_size, 0xEFF * 8192);
}

#[test]
fn extended_exponent_rom_sizes() {
    for e in [0u8, 1, 10] {
        for mm in 0u8..4 {
            let low = e << 2 | mm;
            let expected = [1u128, 2, 1024][[0u8, 1, 10].iter().position(|&x| x == e).unwrap()]
                * [1u128, 3, 5, 7][mm as usize];
            assert_eq!(expected, (1u128 << e) * (2 * mm as u128 + 1));
            assert_eq!(extended(low, 0, 0xF0).prg_rom_size, expected);
            assert_eq!(extended(0, low, 0x0F).chr_rom_size, expected);
        }
    }
    assert_eq!(extended(0x02, 0, 0xF0).prg_rom_size, 5);
    assert_eq!(extended(0x2B, 0, 0xF0).prg_rom_size, 1024 * 7);
    assert_eq!(extended(0xFF, 0xFC, 0xFF).prg_rom_size, 7u128 << 63);
    assert_eq!(extended(0xFF, 0xFC, 0xFF).chr_rom_size, 1u128 << 63);
}

#[test]
fn extended_ram_sizes() {
    let h = parse_header(&record([0, 0, 0, 0x08, 0, 0, 0x1F, 0xE0, 0, 0, 0, 0])).unwrap();
    assert_eq!(h.prg_ram_size, 128);
    assert_eq!(h.prg_nvram_size, 64 << 15);
    assert_eq!(h.chr_ram_size, 64 << 14);
    assert_eq!(h.chr_nvram_size, 0);
}

#[test]
fn extended_mapper_and_misc_fields() {
    let h = parse_header(&record([0, 0, 0xF0, 0xF8, 0x3C, 0, 0, 0, 0xFB, 0, 0xFE, 0xEE])).unwrap();
    assert_eq!(h.mapper, 0xCFF);
    assert_eq!(h.sub_mapper, 3);
    assert_eq!(h.timing, Timing::Dendy);
    assert_eq!(h.miscellaneous_rom_count, 2);
    assert_eq!(h.default_expansion_device, ExpansionDevice::ROBStackUp);
    assert!(!h.has_bus_conflicts);
}

#[test]
fn unknown_expansion_device_is_reversed() {
    let h = parse_header(&record([0, 0, 0, 0x08, 0, 0, 0, 0, 0, 0, 0, 0x2F])).unwrap();
    assert_eq!(h.default_expansion_device, ExpansionDevice::Reversed);
    let h = parse_header(&record([0, 0, 0, 0x08, 0, 0, 0, 0, 0, 0, 0, 0xC1])).unwrap();
    assert_eq!(h.default_expansion_device, ExpansionDevice::NES);
}

#[test]
fn code_tables() {
    assert_eq!(Timing::from_code(3), Timing::Dendy);
    assert_eq!(Mirroring::from_code(1), Mirroring::Vertical);
    assert_eq!(VsPPUType::from_code(0xC), VsPPUType::RC2C0505);
    assert_eq!(VsPPUType::from_code(0xD), VsPPUType::Reserved);
    assert_eq!(VsHardwareType::from_code(7), VsHardwareType::Reserved);
    assert_eq!(ExtendedConsoleType::from_code(0xB), ExtendedConsoleType::Reversed);
    assert_eq!(ExpansionDevice::from_code(0x2E), ExpansionDevice::ROBStackUp);
    assert_eq!(ExpansionDevice::from_code(0xFF), ExpansionDevice::Reversed);
}
