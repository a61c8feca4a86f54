//! Decoding the 16-byte header record.
//!
//! Byte by byte, the record reads as follows; each byte is cut into fields
//! by [`split_byte`], most significant bits first.
//!
//! * 0-3: the magic `N`, `E`, `S`, `0x1A`
//! * 4, 5: low bytes of the PRG-ROM and CHR-ROM sizes
//! * 6 (4,1,1,1,1): mapper bits 0-3, four-screen, trainer, battery, mirroring
//! * 7 (4,2,2): mapper bits 4-7, format version (`0b10`: extended), console
//!   type selector
//!
//! Extended format:
//! * 8 (4,4): sub-mapper, mapper bits 8-11
//! * 9 (4,4): PRG-ROM and CHR-ROM size high nibbles
//! * 10 (4,4), 11 (4,4): PRG-RAM, PRG-NVRAM, CHR-RAM, CHR-NVRAM shift counts
//! * 12 (6,2): timing code in the low two bits
//! * 13 (4,4): Vs. hardware type and Vs. PPU type, or the extended console
//!   kind in the low nibble
//! * 14 (6,2): miscellaneous ROM count in the low two bits
//! * 15 (2,6): default expansion device in the low six bits
//!
//! Legacy format:
//! * 8: PRG-RAM size in 8 KiB units, 0 read as 1
//! * 9 (1,7): a PAL indicator in the top bit
//! * 10 (2,1,1,2,2): bus conflicts, no PRG-RAM, timing code in the low two
//!   bits
//! * 11-15: unused
use crate::header::{
    ConsoleType, ExpansionDevice, ExtendedConsoleType, Header, Mirroring, Timing, VsHardwareType,
    VsInfo, VsPPUType,
};
use crate::layout::{field, split_byte, total_width};
use vstd::arithmetic::power2::{lemma2_to64, lemma_pow2_strictly_increases, pow2};
use vstd::bits::{lemma_u32_shl_is_mul, lemma_u64_pow2_no_overflow, lemma_u64_shl_is_mul};
use vstd::prelude::*;

verus! {

/// Why a header record could not be decoded.
#[derive(Debug, Clone, Copy, PartialEq, Eq, Hash, Structural)]
pub enum ParseHeaderError {
    /// The first four bytes are not `N`, `E`, `S`, `0x1A`
    MagicConstantNotMatch,
    /// The two timing indicators of a legacy record disagree
    TwoDifferTiming,
    /// The record is shorter than 16 bytes
    NotEnough,
}

/// Byte 6: mapper bits 0-3, four-screen, trainer, battery, mirroring.
pub open spec fn flags6() -> Seq<u8> {
    seq![4u8, 1, 1, 1, 1]
}

/// Byte 7: mapper bits 4-7, format version, console type selector.
pub open spec fn flags7() -> Seq<u8> {
    seq![4u8, 2, 2]
}

/// Two nibbles, high one first.
pub open spec fn nibbles() -> Seq<u8> {
    seq![4u8, 4]
}

/// Six high bits, then two low bits.
pub open spec fn high6_low2() -> Seq<u8> {
    seq![6u8, 2]
}

/// Two high bits, then six low bits.
pub open spec fn high2_low6() -> Seq<u8> {
    seq![2u8, 6]
}

/// Legacy byte 9: the PAL indicator on top of seven unused bits.
pub open spec fn legacy_flags9() -> Seq<u8> {
    seq![1u8, 7]
}

/// Legacy byte 10: unused, bus conflicts, no PRG-RAM, unused, timing code.
pub open spec fn legacy_flags10() -> Seq<u8> {
    seq![2u8, 1, 1, 2, 2]
}

pub open spec fn has_magic(input: Seq<u8>) -> bool {
    &&& input.len() >= 4
    &&& input[0] == 0x4E
    &&& input[1] == 0x45
    &&& input[2] == 0x53
    &&& input[3] == 0x1A
}

/// Whether byte 7 marks the extended format.
pub open spec fn is_extended(input: Seq<u8>) -> bool {
    field(input[7], flags7(), 1) == 2
}

/// Size of a ROM from its low byte and high nibble, `unit` bytes per count.
/// With the high nibble all ones, the low byte holds an exponent `E` in its
/// six high bits and a multiplier `MM` in its two low bits instead.
pub open spec fn rom_size(low: u8, high: nat, unit: nat) -> nat {
    if high == 15 {
        pow2(field(low, high6_low2(), 0)) * (2 * field(low, high6_low2(), 1) + 1)
    } else {
        (low as nat + 256 * high) * unit
    }
}

/// Size of a RAM from its shift count: none for 0, else `64 << shift`.
pub open spec fn ram_size(shift: nat) -> nat {
    if shift == 0 {
        0
    } else {
        64 * pow2(shift)
    }
}

/// The console named by the selector of byte 7, before byte 13 is read.
/// A legacy record with selector 3 is read as a Vs. System.
pub open spec fn console_of(selector: nat, extended: bool) -> ConsoleType {
    if selector == 0 {
        ConsoleType::NES
    } else if selector == 2 {
        ConsoleType::PC10
    } else if selector == 3 && extended {
        ConsoleType::Extend(ExtendedConsoleType::Regular)
    } else {
        ConsoleType::Vs(VsInfo { ppu_type: VsPPUType::RP2C03B, hardware_type: VsHardwareType::UniSystemNormal })
    }
}

/// `console` with the details of byte 13 of an extended record filled in.
pub open spec fn refine_console(console: ConsoleType, b13: u8) -> ConsoleType {
    match console {
        ConsoleType::Vs(_) => ConsoleType::Vs(
            VsInfo {
                ppu_type: VsPPUType::spec_from_code(field(b13, nibbles(), 1) as u8),
                hardware_type: VsHardwareType::spec_from_code(field(b13, nibbles(), 0) as u8),
            },
        ),
        ConsoleType::Extend(_) => ConsoleType::Extend(
            ExtendedConsoleType::spec_from_code(field(b13, nibbles(), 1) as u8),
        ),
        _ => console,
    }
}

/// The fields that both formats read from bytes 6 and 7.
pub open spec fn common_fields(input: Seq<u8>, h: Header) -> bool {
    &&& h.is_four_screen == (field(input[6], flags6(), 1) == 1)
    &&& h.has_trainer == (field(input[6], flags6(), 2) == 1)
    &&& h.has_persistent_memory == (field(input[6], flags6(), 3) == 1)
    &&& h.mirroring == Mirroring::spec_from_code(field(input[6], flags6(), 4) as u8)
    &&& h.is_nes2 == is_extended(input)
}

/// Mapper bits 0-7, from bytes 6 and 7.
pub open spec fn mapper_low_byte(input: Seq<u8>) -> nat {
    field(input[6], flags6(), 0) + 16 * field(input[7], flags7(), 0)
}

/// The header that an extended record describes.
pub open spec fn extended_fields(input: Seq<u8>, h: Header) -> bool {
    &&& common_fields(input, h)
    &&& h.mapper == mapper_low_byte(input) + 256 * field(input[8], nibbles(), 1)
    &&& h.sub_mapper == field(input[8], nibbles(), 0)
    &&& h.prg_rom_size == rom_size(input[4], field(input[9], nibbles(), 0), 16384)
    &&& h.chr_rom_size == rom_size(input[5], field(input[9], nibbles(), 1), 8192)
    &&& h.prg_ram_size == ram_size(field(input[10], nibbles(), 0))
    &&& h.prg_nvram_size == ram_size(field(input[10], nibbles(), 1))
    &&& h.chr_ram_size == ram_size(field(input[11], nibbles(), 0))
    &&& h.chr_nvram_size == ram_size(field(input[11], nibbles(), 1))
    &&& h.timing == Timing::spec_from_code(field(input[12], high6_low2(), 1) as u8)
    &&& h.miscellaneous_rom_count == field(input[14], high6_low2(), 1)
    &&& h.default_expansion_device == ExpansionDevice::spec_from_code(
        field(input[15], high2_low6(), 1) as u8,
    )
    &&& h.console_type == refine_console(
        console_of(field(input[7], flags7(), 2), true),
        input[13],
    )
    &&& !h.has_bus_conflicts
}

/// The PAL indicator of legacy byte 9.
pub open spec fn legacy_timing1(input: Seq<u8>) -> nat {
    field(input[9], legacy_flags9(), 0)
}

/// The timing code of legacy byte 10.
pub open spec fn legacy_timing2(input: Seq<u8>) -> nat {
    field(input[10], legacy_flags10(), 4)
}

/// Both timing indicators of a legacy record are set, to different values.
pub open spec fn timing_conflict(t1: nat, t2: nat) -> bool {
    t1 != 0 && t2 != 0 && t1 != t2
}

/// Timing of a legacy record from its two indicators, which do not conflict.
pub open spec fn legacy_timing(t1: nat, t2: nat) -> Timing {
    let t = if t1 >= t2 { t1 } else { t2 };
    if t == 0 {
        Timing::NTSC
    } else if t == 2 {
        Timing::PAL
    } else {
        Timing::MultipleRegion
    }
}

/// PRG-RAM size of a legacy record, in bytes.
pub open spec fn legacy_prg_ram_size(input: Seq<u8>) -> nat {
    if field(input[10], legacy_flags10(), 2) != 0 {
        0
    } else if input[8] == 0 {
        8192
    } else {
        input[8] as nat * 8192
    }
}

/// The header that a legacy record describes.
pub open spec fn legacy_fields(input: Seq<u8>, h: Header) -> bool {
    &&& common_fields(input, h)
    &&& h.mapper == mapper_low_byte(input)
    &&& h.sub_mapper == 0
    &&& h.prg_rom_size == input[4] * 16384
    &&& h.chr_rom_size == input[5] * 8192
    &&& h.prg_ram_size == legacy_prg_ram_size(input)
    &&& h.prg_nvram_size == 0
    &&& h.chr_ram_size == 0
    &&& h.chr_nvram_size == 0
    &&& h.timing == legacy_timing(legacy_timing1(input), legacy_timing2(input))
    &&& h.miscellaneous_rom_count == 0
    &&& h.default_expansion_device == ExpansionDevice::Unspecified
    &&& h.console_type == console_of(field(input[7], flags7(), 2), false)
    &&& h.has_bus_conflicts == (field(input[10], legacy_flags10(), 1) != 0)
}

/// What decoding `input` yields.
pub open spec fn decodes_to(input: Seq<u8>, r: Result<Header, ParseHeaderError>) -> bool {
    if !has_magic(input) {
        r == Err::<Header, ParseHeaderError>(ParseHeaderError::MagicConstantNotMatch)
    } else if input.len() < 16 {
        r == Err::<Header, ParseHeaderError>(ParseHeaderError::NotEnough)
    } else if is_extended(input) {
        r matches Ok(h) && extended_fields(input, h)
    } else if timing_conflict(legacy_timing1(input), legacy_timing2(input)) {
        r == Err::<Header, ParseHeaderError>(ParseHeaderError::TwoDifferTiming)
    } else {
        r matches Ok(h) && legacy_fields(input, h)
    }
}


/// Decoding is a function of the bytes: two results that both match what
/// `input` describes are the same value.
pub proof fn lemma_decoding_is_deterministic(
    input: Seq<u8>,
    r1: Result<Header, ParseHeaderError>,
    r2: Result<Header, ParseHeaderError>,
)
    requires
        decodes_to(input, r1),
        decodes_to(input, r2),
    ensures
        r1 == r2,
{
    if has_magic(input) && input.len() >= 16 {
        if r1 is Ok && r2 is Ok {
            let h1 = r1->Ok_0;
            let h2 = r2->Ok_0;
            assert(h1.console_type == h2.console_type);
            assert(h1 == h2);
        }
    }
}

proof fn lemma_layouts()
    ensures
        total_width(flags6()) == 8,
        total_width(flags7()) == 8,
        total_width(nibbles()) == 8,
        total_width(high6_low2()) == 8,
        total_width(high2_low6()) == 8,
        total_width(legacy_flags9()) == 8,
        total_width(legacy_flags10()) == 8,
        pow2(1) == 2,
        pow2(2) == 4,
        pow2(4) == 16,
        pow2(6) == 64,
{
    reveal_with_fuel(total_width, 6);
    lemma2_to64();
}

/// Size in bytes of a ROM from its low byte and high nibble.
fn rom_size_bytes(low: u8, high: u8, unit: u32) -> (r: u128)
    requires
        high < 16,
        unit <= 16384,
    ensures
        r as nat == rom_size(low, high as nat, unit as nat),
{
    if high == 15 {
        let w: [u8; 2] = [6, 2];
        proof {
            lemma_layouts();
            assert(w@ == high6_low2());
        }
        let f = split_byte(low, &w);
        let exponent: u8 = f[0];
        let multiplier: u8 = f[1];
        assert(exponent as nat == field(low, high6_low2(), 0));
        assert(multiplier as nat == field(low, high6_low2(), 1));
        proof {
            lemma_u64_pow2_no_overflow(exponent as nat);
            lemma_u64_shl_is_mul(1, exponent as u64);
        }
        let scale: u64 = 1u64 << (exponent as u64);
        let factor: u128 = multiplier as u128 * 2 + 1;
        assert(scale as u128 * factor <= 0xffff_ffff_ffff_ffff * 7) by (nonlinear_arith)
            requires
                factor <= 7,
        ;
        (scale as u128) * factor
    } else {
        let count: u128 = low as u128 + 256 * high as u128;
        assert(count * unit as u128 <= 0x1_0000 * 16384) by (nonlinear_arith)
            requires
                count <= 0x1_0000,
                unit <= 16384,
        ;
        count * unit as u128
    }
}

/// Size in bytes of a RAM from its shift count.
fn ram_size_bytes(shift: u8) -> (r: u32)
    requires
        shift < 16,
    ensures
        r as nat == ram_size(shift as nat),
{
    if shift == 0 {
        0
    } else {
        proof {
            lemma2_to64();
            lemma_pow2_strictly_increases(shift as nat, 16);
            lemma_u32_shl_is_mul(64, shift as u32);
        }
        64u32 << (shift as u32)
    }
}

/// Decodes the header record at the start of `input`.
pub fn parse_header(input: &[u8]) -> (r: Result<Header, ParseHeaderError>)
    ensures
        decodes_to(input@, r),
        !has_magic(input@) ==> r == Err::<Header, ParseHeaderError>(
            ParseHeaderError::MagicConstantNotMatch,
        ),
        has_magic(input@) && input@.len() < 16 ==> r == Err::<Header, ParseHeaderError>(
            ParseHeaderError::NotEnough,
        ),
        input@.len() < 16 ==> r is Err,
        has_magic(input@) && input@.len() >= 16 && !is_extended(input@) && timing_conflict(
            legacy_timing1(input@),
            legacy_timing2(input@),
        ) ==> r == Err::<Header, ParseHeaderError>(ParseHeaderError::TwoDifferTiming),
        has_magic(input@) && input@.len() >= 16 && is_extended(input@) && field(
            input@[9],
            nibbles(),
            0,
        ) == 15 ==> (r matches Ok(h) && h.prg_rom_size == pow2(field(input@[4], high6_low2(), 0))
            * (2 * field(input@[4], high6_low2(), 1) + 1)),
        has_magic(input@) && input@.len() >= 16 && is_extended(input@) && field(
            input@[9],
            nibbles(),
            1,
        ) == 15 ==> (r matches Ok(h) && h.chr_rom_size == pow2(field(input@[5], high6_low2(), 0))
            * (2 * field(input@[5], high6_low2(), 1) + 1)),
{
    if input.len() < 4 || input[0] != 0x4E || input[1] != 0x45 || input[2] != 0x53 || input[3]
        != 0x1A {
        return Err(ParseHeaderError::MagicConstantNotMatch);
    }
    if input.len() < 16 {
        return Err(ParseHeaderError::NotEnough);
    }
    proof {
        lemma_layouts();
    }
    let prg_rom_low: u8 = input[4];
    let chr_rom_low: u8 = input[5];

    let w6: [u8; 5] = [4, 1, 1, 1, 1];
    assert(w6@ == flags6());
    let f6 = split_byte(input[6], &w6);
    let mapper_low: u8 = f6[0];
    let is_four_screen = f6[1] == 1;
    let has_trainer = f6[2] == 1;
    let has_persistent_memory = f6[3] == 1;
    let mirroring = Mirroring::from_code(f6[4]);

    let w7: [u8; 3] = [4, 2, 2];
    assert(w7@ == flags7());
    let f7 = split_byte(input[7], &w7);
    let mapper_mid: u8 = f7[0];
    let is_nes2 = f7[1] == 2;
    let selector: u8 = f7[2];
    let mapper: u16 = mapper_low as u16 + 16 * mapper_mid as u16;
    let console_type = match selector {
        0 => ConsoleType::NES,
        2 => ConsoleType::PC10,
        3 if is_nes2 => ConsoleType::Extend(ExtendedConsoleType::Regular),
        _ => ConsoleType::Vs(VsInfo::default()),
    };
    proof {
        assert(f6@[1] as nat == field(input@[6], flags6(), 1));
        assert(f6@[2] as nat == field(input@[6], flags6(), 2));
        assert(f6@[3] as nat == field(input@[6], flags6(), 3));
        assert(f6@[4] as nat == field(input@[6], flags6(), 4));
        assert(mapper_low as nat == field(input@[6], flags6(), 0));
        assert(mapper_mid as nat == field(input@[7], flags7(), 0));
        assert(f7@[1] as nat == field(input@[7], flags7(), 1));
        assert(selector as nat == field(input@[7], flags7(), 2));
        assert(console_type == console_of(selector as nat, is_nes2));
    }

    if is_nes2 {
        let w: [u8; 2] = [4, 4];
        assert(w@ == nibbles());
        let w62: [u8; 2] = [6, 2];
        assert(w62@ == high6_low2());
        let w26: [u8; 2] = [2, 6];
        assert(w26@ == high2_low6());
        let f8 = split_byte(input[8], &w);
        let f9 = split_byte(input[9], &w);
        let f10 = split_byte(input[10], &w);
        let f11 = split_byte(input[11], &w);
        let f12 = split_byte(input[12], &w62);
        let f13 = split_byte(input[13], &w);
        let f14 = split_byte(input[14], &w62);
        let f15 = split_byte(input[15], &w26);
        proof {
            assert(f8@[0] < pow2(w@[0] as nat) && f8@[1] < pow2(w@[1] as nat));
            assert(f9@[0] < pow2(w@[0] as nat) && f9@[1] < pow2(w@[1] as nat));
            assert(f10@[0] < pow2(w@[0] as nat) && f10@[1] < pow2(w@[1] as nat));
            assert(f11@[0] < pow2(w@[0] as nat) && f11@[1] < pow2(w@[1] as nat));
            assert(f12@[1] < pow2(w62@[1] as nat));
            assert(f14@[1] < pow2(w62@[1] as nat));
        }
        let sub_mapper: u8 = f8[0];
        let mapper: u16 = mapper + 256 * f8[1] as u16;

        let prg_rom_size = rom_size_bytes(prg_rom_low, f9[0], 16384);
        let chr_rom_size = rom_size_bytes(chr_rom_low, f9[1], 8192);
        let prg_ram_size = ram_size_bytes(f10[0]);
        let prg_nvram_size = ram_size_bytes(f10[1]);
        let chr_ram_size = ram_size_bytes(f11[0]);
        let chr_nvram_size = ram_size_bytes(f11[1]);
        let timing = Timing::from_code(f12[1]);
        let hardware_code: u8 = f13[0];
        let detail_code: u8 = f13[1];
        let console_type = match console_type {
            ConsoleType::Vs(_) => ConsoleType::Vs(
                VsInfo {
                    ppu_type: VsPPUType::from_code(detail_code),
                    hardware_type: VsHardwareType::from_code(hardware_code),
                },
            ),
            ConsoleType::Extend(_) => ConsoleType::Extend(ExtendedConsoleType::from_code(detail_code)),
            other => other,
        };
        let miscellaneous_rom_count: u8 = f14[1];
        let default_expansion_device = ExpansionDevice::from_code(f15[1]);
        proof {
            assert(sub_mapper as nat == field(input@[8], nibbles(), 0));
            assert(f8@[1] as nat == field(input@[8], nibbles(), 1));
            assert(f9@[0] as nat == field(input@[9], nibbles(), 0));
            assert(f9@[1] as nat == field(input@[9], nibbles(), 1));
            assert(f10@[0] as nat == field(input@[10], nibbles(), 0));
            assert(f10@[1] as nat == field(input@[10], nibbles(), 1));
            assert(f11@[0] as nat == field(input@[11], nibbles(), 0));
            assert(f11@[1] as nat == field(input@[11], nibbles(), 1));
            assert(f12@[1] as nat == field(input@[12], high6_low2(), 1));
            assert(hardware_code as nat == field(input@[13], nibbles(), 0));
            assert(detail_code as nat == field(input@[13], nibbles(), 1));
            assert(miscellaneous_rom_count as nat == field(input@[14], high6_low2(), 1));
            assert(f15@[1] as nat == field(input@[15], high2_low6(), 1));
        }
        Ok(
            Header {
                prg_rom_size,
                chr_rom_size,
                prg_ram_size,
                prg_nvram_size,
                chr_ram_size,
                chr_nvram_size,
                miscellaneous_rom_count,
                mapper,
                sub_mapper,
                is_four_screen,
                has_trainer,
                has_persistent_memory,
                mirroring,
                has_bus_conflicts: false,
                timing,
                is_nes2,
                console_type,
                default_expansion_device,
            },
        )
    } else {
        let w9: [u8; 2] = [1, 7];
        assert(w9@ == legacy_flags9());
        let w10: [u8; 5] = [2, 1, 1, 2, 2];
        assert(w10@ == legacy_flags10());
        let f9 = split_byte(input[9], &w9);
        let f10 = split_byte(input[10], &w10);
        let timing1: u8 = f9[0];
        let has_bus_conflicts = f10[1] != 0;
        let no_prg_ram: u8 = f10[2];
        let timing2: u8 = f10[4];
        proof {
            assert(timing1 as nat == legacy_timing1(input@));
            assert(timing2 as nat == legacy_timing2(input@));
            assert(f10@[1] as nat == field(input@[10], legacy_flags10(), 1));
            assert(no_prg_ram as nat == field(input@[10], legacy_flags10(), 2));
        }

        let prg_rom_size: u128 = prg_rom_low as u128 * 16384;
        let chr_rom_size: u128 = chr_rom_low as u128 * 8192;

        let prg_ram_units: u8 = if no_prg_ram != 0 {
            0
        } else if input[8] == 0 {
            1
        } else {
            input[8]
        };
        let prg_ram_size: u32 = prg_ram_units as u32 * 8192;

        if timing1 != 0 && timing2 != 0 && timing1 != timing2 {
            return Err(ParseHeaderError::TwoDifferTiming);
        }
        let t: u8 = if timing1 >= timing2 {
            timing1
        } else {
            timing2
        };
        let timing = if t == 0 {
            Timing::NTSC
        } else if t == 2 {
            Timing::PAL
        } else {
            Timing::MultipleRegion
        };

        Ok(
            Header {
                prg_rom_size,
                chr_rom_size,
                prg_ram_size,
                prg_nvram_size: 0,
                chr_ram_size: 0,
                chr_nvram_size: 0,
                miscellaneous_rom_count: 0,
                mapper,
                sub_mapper: 0,
                is_four_screen,
                has_trainer,
                has_persistent_memory,
                mirroring,
                has_bus_conflicts,
                timing,
                is_nes2,
                console_type,
                default_expansion_device: ExpansionDevice::Unspecified,
            },
        )
    }
}

} // verus!
