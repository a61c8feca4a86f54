//! Decoder for the iNES / NES 2.0 cartridge-dump file format.
//!
//! [`parse`] splits a whole file into its header and payload regions without
//! copying; [`parse_header`] decodes the 16-byte header record alone.
pub mod header;
pub mod layout;
pub mod parser;

pub use header::{
    ConsoleType, ExpansionDevice, ExtendedConsoleType, Header, Mirroring, Timing, VsHardwareType,
    VsInfo, VsPPUType,
};
pub use layout::split_byte;
pub use parser::{parse_header, ParseHeaderError};

use parser::decodes_to;
use vstd::prelude::*;
use vstd::slice::slice_subrange;

verus! {

/// A file split into its regions; every region borrows from the input.
#[derive(Debug, Clone, Hash)]
pub struct NESFile<'a> {
    /// The decoded header
    pub header: Header,
    /// Trainer: 512 bytes when present, empty otherwise
    pub trainer: &'a [u8],
    /// PRG-ROM
    pub prg_rom: &'a [u8],
    /// CHR-ROM, possibly empty
    pub chr_rom: &'a [u8],
    /// Everything after CHR-ROM: the miscellaneous ROMs, not split further
    pub miscellaneous_roms: &'a [u8],
}

/// Why a file could not be parsed.
#[derive(Debug, Clone, Copy, PartialEq, Eq, Hash, Structural)]
pub enum ParseError {
    /// The input is shorter than its header requires
    NotEnough,
    /// The 16-byte header record could not be decoded
    InvalidHeader(ParseHeaderError),
}

impl From<ParseHeaderError> for ParseError {
    fn from(err: ParseHeaderError) -> (r: ParseError)
        ensures
            r == ParseError::InvalidHeader(err),
    {
        ParseError::InvalidHeader(err)
    }
}

impl vstd::std_specs::convert::FromSpecImpl<ParseHeaderError> for ParseError {
    open spec fn obeys_from_spec() -> bool {
        true
    }

    open spec fn from_spec(err: ParseHeaderError) -> ParseError {
        ParseError::InvalidHeader(err)
    }
}

/// Length of the header record.
pub const HEADER_SIZE: usize = 16;

/// Length of a trainer.
pub const TRAINER_SIZE: usize = 512;

/// Where the trainer ends and PRG-ROM begins.
pub open spec fn trainer_end(h: Header) -> nat {
    if h.has_trainer {
        (HEADER_SIZE + TRAINER_SIZE) as nat
    } else {
        HEADER_SIZE as nat
    }
}

/// Where PRG-ROM ends and CHR-ROM begins.
pub open spec fn prg_rom_end(h: Header) -> nat {
    trainer_end(h) + h.prg_rom_size as nat
}

/// Where CHR-ROM ends and the miscellaneous ROMs begin.
pub open spec fn chr_rom_end(h: Header) -> nat {
    prg_rom_end(h) + h.chr_rom_size as nat
}

/// Splits `input` into header, trainer, PRG-ROM, CHR-ROM and the rest.
/// Nothing is copied.
pub fn parse<'a>(input: &'a [u8]) -> (r: Result<NESFile<'a>, ParseError>)
    ensures
        input@.len() < HEADER_SIZE ==> r == Err::<NESFile<'a>, ParseError>(ParseError::NotEnough),
        forall|e: ParseHeaderError|
            input@.len() >= HEADER_SIZE && #[trigger] decodes_to(
                input@.take(HEADER_SIZE as int),
                Err(e),
            ) ==> r == Err::<NESFile<'a>, ParseError>(ParseError::InvalidHeader(e)),
        forall|h: Header|
            input@.len() >= HEADER_SIZE && #[trigger] decodes_to(
                input@.take(HEADER_SIZE as int),
                Ok(h),
            ) ==> if input@.len() < chr_rom_end(h) {
                r == Err::<NESFile<'a>, ParseError>(ParseError::NotEnough)
            } else {
                r matches Ok(f) && f.header == h
            },
        r matches Ok(f) ==> {
            &&& input@.len() >= chr_rom_end(f.header)
            &&& decodes_to(input@.take(HEADER_SIZE as int), Ok(f.header))
            &&& f.trainer@ == input@.subrange(HEADER_SIZE as int, trainer_end(f.header) as int)
            &&& f.prg_rom@ == input@.subrange(
                trainer_end(f.header) as int,
                prg_rom_end(f.header) as int,
            )
            &&& f.chr_rom@ == input@.subrange(
                prg_rom_end(f.header) as int,
                chr_rom_end(f.header) as int,
            )
            &&& f.miscellaneous_roms@ == input@.subrange(
                chr_rom_end(f.header) as int,
                input@.len() as int,
            )
            &&& f.prg_rom@.len() == f.header.prg_rom_size
            &&& f.chr_rom@.len() == f.header.chr_rom_size
            &&& input@ == input@.take(HEADER_SIZE as int) + f.trainer@ + f.prg_rom@ + f.chr_rom@
                + f.miscellaneous_roms@
        },
{
    if input.len() < HEADER_SIZE {
        return Err(ParseError::NotEnough);
    }
    let record = slice_subrange(input, 0, HEADER_SIZE);
    let header = match parse_header(record) {
        Ok(h) => h,
        Err(e) => {
            proof {
                assert forall|e2: ParseHeaderError| #[trigger]
                    decodes_to(input@.take(HEADER_SIZE as int), Err(e2)) implies e2 == e by {
                    parser::lemma_decoding_is_deterministic(record@, Err(e), Err(e2));
                }
                assert forall|h: Header| #[trigger]
                    decodes_to(input@.take(HEADER_SIZE as int), Ok(h)) implies false by {
                    parser::lemma_decoding_is_deterministic(record@, Err(e), Ok(h));
                }
            }
            return Err(ParseError::from(e));
        },
    };
    assert(record@ =~= input@.take(HEADER_SIZE as int));
    proof {
        assert forall|e2: ParseHeaderError| #[trigger]
            decodes_to(input@.take(HEADER_SIZE as int), Err(e2)) implies false by {
            parser::lemma_decoding_is_deterministic(record@, Ok(header), Err(e2));
        }
        assert forall|h: Header| #[trigger]
            decodes_to(input@.take(HEADER_SIZE as int), Ok(h)) implies h == header by {
            parser::lemma_decoding_is_deterministic(record@, Ok(header), Ok(h));
        }
    }

    let prg_rom_start: usize = if header.has_trainer {
        if input.len() < HEADER_SIZE + TRAINER_SIZE {
            return Err(ParseError::NotEnough);
        }
        HEADER_SIZE + TRAINER_SIZE
    } else {
        HEADER_SIZE
    };
    let trainer = slice_subrange(input, HEADER_SIZE, prg_rom_start);

    let len: u128 = input.len() as u128;
    if len - (prg_rom_start as u128) < header.prg_rom_size {
        return Err(ParseError::NotEnough);
    }
    let chr_rom_start_wide: u128 = prg_rom_start as u128 + header.prg_rom_size;
    if len - chr_rom_start_wide < header.chr_rom_size {
        return Err(ParseError::NotEnough);
    }
    let chr_rom_end_wide: u128 = chr_rom_start_wide + header.chr_rom_size;
    let chr_rom_start: usize = chr_rom_start_wide as usize;
    let chr_rom_end: usize = chr_rom_end_wide as usize;

    let prg_rom = slice_subrange(input, prg_rom_start, chr_rom_start);
    let chr_rom = slice_subrange(input, chr_rom_start, chr_rom_end);
    let miscellaneous_roms = slice_subrange(input, chr_rom_end, input.len());
    assert(input@ =~= input@.take(HEADER_SIZE as int) + trainer@ + prg_rom@ + chr_rom@
        + miscellaneous_roms@);
    Ok(NESFile { header, trainer, prg_rom, chr_rom, miscellaneous_roms })
}

} // verus!
