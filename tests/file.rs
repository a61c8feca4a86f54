use dotnes::{parse, ParseError, ParseHeaderError};

fn file(b4: u8, b5: u8, b6: u8, tail: usize) -> Vec<u8> {
    let mut v = vec![b'N', b'E', b'S', 0x1A, b4, b5, b6, 0, 0, 0, 0, 0, 0, 0, 0, 0];
    for i in 0..tail {
        v.push((i % 251) as u8);
    }
    v
}

#[test]
fn regions_without_trainer() {
    let data = file(1, 1, 0, 16384 + 8192 + 5);
    let nes = parse(&data).unwrap();
    assert!(nes.trainer.is_empty());
    assert_eq!(nes.prg_rom.len(), 16384);
    assert_eq!(nes.chr_rom.len(), 8192);
    assert_eq!(nes.miscellaneous_roms.len(), 5);
    assert_eq!(nes.prg_rom, &data[16..16 + 16384]);
    assert_eq!(nes.chr_rom, &data[16 + 16384..16 + 16384 + 8192]);
    assert_eq!(nes.miscellaneous_roms, &data[16 + 16384 + 8192..]);
    assert_eq!(nes.header.prg_rom_size, 16384);
}

#[test]
fn regions_with_trainer() {
    let data = file(1, 0, 0x04, 512 + 16384 + 3);
    let nes = parse(&data).unwrap();
    assert_eq!(nes.trainer, &data[16..528]);
    assert_eq!(nes.prg_rom, &data[528..528 + 16384]);
    assert!(nes.chr_rom.is_empty());
    assert_eq!(nes.miscellaneous_roms, &data[528 + 16384..]);
}

#[test]
fn exact_length_leaves_no_misc_rom() {
    let data = file(1, 1, 0x04, 512 + 16384 + 8192);
    let nes = parse(&data).unwrap();
    assert!(nes.miscellaneous_roms.is_empty());
    let header_only = file(0, 0, 0, 0);
    let nes = parse(&header_only).unwrap();
    assert!(nes.prg_rom.is_empty() && nes.chr_rom.is_empty() && nes.miscellaneous_roms.is_empty());
}

#[test]
fn short_input_is_not_enough() {
    for n in 0..16 {
        let data = file(0, 0, 0, 0);
        assert_eq!(parse(&data[..n]).err(), Some(ParseError::NotEnough));
    }
    assert_eq!(parse(b"NOT A ROM").err(), Some(ParseError::NotEnough));
}

#[test]
fn truncated_regions_are_not_enough() {
    assert_eq!(parse(&file(0, 0, 0x04, 511)).err(), Some(ParseError::NotEnough));
    assert_eq!(parse(&file(1, 0, 0x04, 512 + 16383)).err(), Some(ParseError::NotEnough));
    assert_eq!(parse(&file(1, 1, 0, 16384 + 8191)).err(), Some(ParseError::NotEnough));
    assert_eq!(parse(&file(1, 1, 0, 100)).err(), Some(ParseError::NotEnough));
    let mut huge = file(0xFF, 0xFF, 0, 10);
    huge[7] = 0x08;
    huge[9] = 0xFF;
    assert_eq!(parse(&huge).err(), Some(ParseError::NotEnough));
}

#[test]
fn header_errors_are_passed_on() {
    let mut data = file(0, 0, 0, 10);
    data[0] = b'X';
    assert_eq!(parse(&data).err(), Some(ParseError::InvalidHeader(ParseHeaderError::MagicConstantNotMatch)));
    let mut data = file(0, 0, 0, 10);
    data[9] = 0x80;
    data[10] = 0x02;
    assert_eq!(parse(&data).err(), Some(ParseError::InvalidHeader(ParseHeaderError::TwoDifferTiming)));
}

#[test]
fn header_error_converts() {
    assert_eq!(
        ParseError::from(ParseHeaderError::TwoDifferTiming),
        ParseError::InvalidHeader(ParseHeaderError::TwoDifferTiming)
    );
}

#[test]
fn parsing_twice_gives_the_same_file() {
    let data = file(1, 1, 0x04, 512 + 16384 + 8192 + 7);
    let a = parse(&data).unwrap();
    let b = parse(&data).unwrap();
    assert_eq!(a.header, b.header);
    assert_eq!(a.miscellaneous_roms, b.miscellaneous_roms);
}
