//! The decoded header record and the closed sets its fields range over.
use vstd::prelude::*;

verus! {

/// Name-table mirroring.
#[derive(Debug, Clone, Copy, PartialEq, Eq, Hash, Structural)]
pub enum Mirroring {
    HorizontalOrMapperControlled,
    Vertical,
}

impl Mirroring {
    /// The member that `code` names; `code` is below 2.
    pub open spec fn spec_from_code(code: u8) -> Mirroring {
        match code {
            0x0 => Mirroring::HorizontalOrMapperControlled,
            _ => Mirroring::Vertical,
        }
    }

    pub fn from_code(code: u8) -> (r: Mirroring)
        requires
            code < 2,
        ensures
            r == Mirroring::spec_from_code(code),
    {
        match code {
            0x0 => Mirroring::HorizontalOrMapperControlled,
            _ => Mirroring::Vertical,
        }
    }
}

/// CPU/PPU timing.
#[derive(Debug, Clone, Copy, PartialEq, Eq, Hash, Structural)]
pub enum Timing {
    /// RP2C02: North America, Japan, South Korea, Taiwan
    NTSC,
    /// RP2C07: Western Europe, Australia
    PAL,
    /// Released unchanged in NTSC and PAL regions, or adapts to the console
    MultipleRegion,
    /// UMC 6527P: Eastern Europe, Russia, mainland China, India, Africa
    Dendy,
}

impl Timing {
    /// The member that `code` names; `code` is below 4.
    pub open spec fn spec_from_code(code: u8) -> Timing {
        match code {
            0x0 => Timing::NTSC,
            0x1 => Timing::PAL,
            0x2 => Timing::MultipleRegion,
            _ => Timing::Dendy,
        }
    }

    pub fn from_code(code: u8) -> (r: Timing)
        requires
            code < 4,
        ensures
            r == Timing::spec_from_code(code),
    {
        match code {
            0x0 => Timing::NTSC,
            0x1 => Timing::PAL,
            0x2 => Timing::MultipleRegion,
            _ => Timing::Dendy,
        }
    }
}

/// Vs. System PPU model.
#[derive(Debug, Clone, Copy, PartialEq, Eq, Hash, Structural)]
pub enum VsPPUType {
    RP2C03B,
    RP2C03G,
    RP2C040001,
    RP2C040002,
    RP2C040003,
    RP2C040004,
    RC2C03B,
    RC2C03C,
    RC2C0501,
    RC2C0502,
    RC2C0503,
    RC2C0504,
    RC2C0505,
    /// A code that names no known member
    Reserved,
}

impl VsPPUType {
    /// The member that `code` names; codes past 0xC give `Reserved`.
    pub open spec fn spec_from_code(code: u8) -> VsPPUType {
        match code {
            0x0 => VsPPUType::RP2C03B,
            0x1 => VsPPUType::RP2C03G,
            0x2 => VsPPUType::RP2C040001,
            0x3 => VsPPUType::RP2C040002,
            0x4 => VsPPUType::RP2C040003,
            0x5 => VsPPUType::RP2C040004,
            0x6 => VsPPUType::RC2C03B,
            0x7 => VsPPUType::RC2C03C,
            0x8 => VsPPUType::RC2C0501,
            0x9 => VsPPUType::RC2C0502,
            0xA => VsPPUType::RC2C0503,
            0xB => VsPPUType::RC2C0504,
            0xC => VsPPUType::RC2C0505,
            _ => VsPPUType::Reserved,
        }
    }

    pub fn from_code(code: u8) -> (r: VsPPUType)
        ensures
            r == VsPPUType::spec_from_code(code),
    {
        match code {
            0x0 => VsPPUType::RP2C03B,
            0x1 => VsPPUType::RP2C03G,
            0x2 => VsPPUType::RP2C040001,
            0x3 => VsPPUType::RP2C040002,
            0x4 => VsPPUType::RP2C040003,
            0x5 => VsPPUType::RP2C040004,
            0x6 => VsPPUType::RC2C03B,
            0x7 => VsPPUType::RC2C03C,
            0x8 => VsPPUType::RC2C0501,
            0x9 => VsPPUType::RC2C0502,
            0xA => VsPPUType::RC2C0503,
            0xB => VsPPUType::RC2C0504,
            0xC => VsPPUType::RC2C0505,
            _ => VsPPUType::Reserved,
        }
    }
}

/// Vs. System hardware type.
#[derive(Debug, Clone, Copy, PartialEq, Eq, Hash, Structural)]
pub enum VsHardwareType {
    /// Vs. Unisystem (normal)
    UniSystemNormal,
    /// Vs. Unisystem (RBI Baseball protection)
    UniSystemRBIBaseballProtection,
    /// Vs. Unisystem (TKO Boxing protection)
    UniSystemTKOBoxingProtection,
    /// Vs. Unisystem (Super Xevious protection)
    UniSystemSuperXeviousProtection,
    /// Vs. Unisystem (Vs. Ice Climber Japan protection)
    UniSystemVsIceClimberJapanProtection,
    /// Vs. Dual System (normal)
    DualSystemNormal,
    /// Vs. Dual System (Raid on Bungeling Bay protection)
    DualSystemRaidOnBungelingBayProtection,
    /// A code that names no known member
    Reserved,
}

impl VsHardwareType {
    /// The member that `code` names; codes past 0x6 give `Reserved`.
    pub open spec fn spec_from_code(code: u8) -> VsHardwareType {
        match code {
            0x0 => VsHardwareType::UniSystemNormal,
            0x1 => VsHardwareType::UniSystemRBIBaseballProtection,
            0x2 => VsHardwareType::UniSystemTKOBoxingProtection,
            0x3 => VsHardwareType::UniSystemSuperXeviousProtection,
            0x4 => VsHardwareType::UniSystemVsIceClimberJapanProtection,
            0x5 => VsHardwareType::DualSystemNormal,
            0x6 => VsHardwareType::DualSystemRaidOnBungelingBayProtection,
            _ => VsHardwareType::Reserved,
        }
    }

    pub fn from_code(code: u8) -> (r: VsHardwareType)
        ensures
            r == VsHardwareType::spec_from_code(code),
    {
        match code {
            0x0 => VsHardwareType::UniSystemNormal,
            0x1 => VsHardwareType::UniSystemRBIBaseballProtection,
            0x2 => VsHardwareType::UniSystemTKOBoxingProtection,
            0x3 => VsHardwareType::UniSystemSuperXeviousProtection,
            0x4 => VsHardwareType::UniSystemVsIceClimberJapanProtection,
            0x5 => VsHardwareType::DualSystemNormal,
            0x6 => VsHardwareType::DualSystemRaidOnBungelingBayProtection,
            _ => VsHardwareType::Reserved,
        }
    }
}

/// Console kinds of the extended format beyond the three plain ones.
#[derive(Debug, Clone, Copy, PartialEq, Eq, Hash, Structural)]
pub enum ExtendedConsoleType {
    /// Regular NES/Famicom/Dendy
    Regular,
    /// Vs. System
    Vs,
    /// PlayChoice-10
    PC10,
    /// Regular Famiclone, but with a CPU that supports decimal mode
    RegularWithDecimal,
    /// V.R. Technology VT01 with monochrome palette
    VT01WithMonochrome,
    /// V.R. Technology VT01 with red/cyan STN palette
    VT01WithRedCyanSTN,
    /// V.R. Technology VT02
    VT02,
    /// V.R. Technology VT03
    VT03,
    /// V.R. Technology VT09
    VT09,
    /// V.R. Technology VT32
    VT32,
    /// V.R. Technology VT369
    VT369,
    /// A code that names no known member
    Reversed,
}

impl ExtendedConsoleType {
    /// The member that `code` names; codes past 0xA give `Reversed`.
    pub open spec fn spec_from_code(code: u8) -> ExtendedConsoleType {
        match code {
            0x0 => ExtendedConsoleType::Regular,
            0x1 => ExtendedConsoleType::Vs,
            0x2 => ExtendedConsoleType::PC10,
            0x3 => ExtendedConsoleType::RegularWithDecimal,
            0x4 => ExtendedConsoleType::VT01WithMonochrome,
            0x5 => ExtendedConsoleType::VT01WithRedCyanSTN,
            0x6 => ExtendedConsoleType::VT02,
            0x7 => ExtendedConsoleType::VT03,
            0x8 => ExtendedConsoleType::VT09,
            0x9 => ExtendedConsoleType::VT32,
            0xA => ExtendedConsoleType::VT369,
            _ => ExtendedConsoleType::Reversed,
        }
    }

    pub fn from_code(code: u8) -> (r: ExtendedConsoleType)
        ensures
            r == ExtendedConsoleType::spec_from_code(code),
    {
        match code {
            0x0 => ExtendedConsoleType::Regular,
            0x1 => ExtendedConsoleType::Vs,
            0x2 => ExtendedConsoleType::PC10,
            0x3 => ExtendedConsoleType::RegularWithDecimal,
            0x4 => ExtendedConsoleType::VT01WithMonochrome,
            0x5 => ExtendedConsoleType::VT01WithRedCyanSTN,
            0x6 => ExtendedConsoleType::VT02,
            0x7 => ExtendedConsoleType::VT03,
            0x8 => ExtendedConsoleType::VT09,
            0x9 => ExtendedConsoleType::VT32,
            0xA => ExtendedConsoleType::VT369,
            _ => ExtendedConsoleType::Reversed,
        }
    }
}

/// Input device a game expects by default.
#[derive(Debug, Clone, Copy, PartialEq, Eq, Hash, Structural)]
pub enum ExpansionDevice {
    /// No special needs
    Unspecified,
    /// Standard NES/Famicom controllers
    NES,
    /// NES Four Score/Satellite with two additional standard controllers
    NESFourScore,
    /// Famicom Four Players Adapter with two additional standard controllers
    FamicomFourPlayersAdapterWithTwoAdditionalStandardControllers,
    /// Vs. System
    VsSystem,
    /// Vs. System with reversed inputs
    VsSystemWithReversedInputs,
    /// Vs. Pinball (Japan)
    VsPinballJapan,
    /// Vs. Zapper
    VsZapper,
    /// Zapper ($4017)
    Zapper,
    /// Two Zappers
    TwoZappers,
    /// Bandai Hyper Shot
    BandaiHyperShot,
    /// Power Pad Side A
    PowerPadSideA,
    /// Power Pad Side B
    PowerPadSideB,
    /// Family Trainer Side A
    FamilyTrainerSideA,
    /// Family Trainer Side B
    FamilyTrainerSideB,
    /// Arkanoid Vaus Controller (NES)
    ArkanoidVausControllerNES,
    /// Arkanoid Vaus Controller (Famicom)
    ArkanoidVausControllerFamicom,
    /// Two Vaus Controllers plus Famicom Data Recorder
    TwoVausControllersPlusFamicomDataRecorder,
    /// Konami Hyper Shot
    KonamiHyperShot,
    /// Coconuts Pachinko Controller
    CoconutsPachinkoController,
    /// Exciting Boxing Punching Bag
    ExcitingBoxingPunchingBag,
    /// Jissen Mahjong Controller
    JissenMahjongController,
    /// Party Tap
    PartyTap,
    /// Oeka Kids Tablet
    OekaKidsTablet,
    /// Sunsoft Barcode Battler
    SunsoftBarcodeBattler,
    /// Miracle Piano Keyboard
    MiraclePianoKeyboard,
    /// Pokkun Moguraa
    PokkunMoguraa,
    /// Top Rider
    TopRider,
    /// Double-Fisted
    DoubleFisted,
    /// Famicom 3D System
    Famicom3DSystem,
    /// Doremikko Keyboard
    DoremikkoKeyboard,
    /// R.O.B. Gyro Set
    ROBGyroSet,
    /// Famicom Data Recorder (don't emulate keyboard)
    FamicomDataRecorderDontEmulatekeyboard,
    /// ASCII Turbo File
    ASCIITurboFile,
    /// IGS Storage Battle Box
    IGSStorageBattleBox,
    /// Family BASIC Keyboard plus Famicom Data Recorder
    FamilyBASICKeyboardPlusFamicomDataRecorder,
    /// Dongda PEC-586 Keyboard
    DongdaPEC586Keyboard,
    /// Bit Corp. Bit-79 Keyboard
    BitCorpBit79Keyboard,
    /// Subor Keyboard
    SuborKeyboard,
    /// Subor Keyboard plus mouse (3x8-bit protocol)
    SuborKeyboardPlus3x8BitProtocolMouse,
    /// Subor Keyboard plus mouse (24-bit protocol)
    SuborKeyboardPlus24BitProtocolMouse,
    /// SNES Mouse ($4017.d0)
    SNESMouse,
    /// Multicart
    Multicart,
    /// Two SNES controllers replacing the two standard NES controllers
    TwoSNESControllersReplacingTheTwoStandardNESControllers,
    /// RacerMate Bicycle
    RacerMateBicycle,
    /// U-Force
    UForce,
    /// R.O.B. Stack-Up
    ROBStackUp,
    /// A code that names no known member
    Reversed,
}

impl ExpansionDevice {
    /// The member that `code` names; codes past 0x2E give `Reversed`.
    pub open spec fn spec_from_code(code: u8) -> ExpansionDevice {
        match code {
            0x0 => ExpansionDevice::Unspecified,
            0x1 => ExpansionDevice::NES,
            0x2 => ExpansionDevice::NESFourScore,
            0x3 => ExpansionDevice::FamicomFourPlayersAdapterWithTwoAdditionalStandardControllers,
            0x4 => ExpansionDevice::VsSystem,
            0x5 => ExpansionDevice::VsSystemWithReversedInputs,
            0x6 => ExpansionDevice::VsPinballJapan,
            0x7 => ExpansionDevice::VsZapper,
            0x8 => ExpansionDevice::Zapper,
            0x9 => ExpansionDevice::TwoZappers,
            0xA => ExpansionDevice::BandaiHyperShot,
            0xB => ExpansionDevice::PowerPadSideA,
            0xC => ExpansionDevice::PowerPadSideB,
            0xD => ExpansionDevice::FamilyTrainerSideA,
            0xE => ExpansionDevice::FamilyTrainerSideB,
            0xF => ExpansionDevice::ArkanoidVausControllerNES,
            0x10 => ExpansionDevice::ArkanoidVausControllerFamicom,
            0x11 => ExpansionDevice::TwoVausControllersPlusFamicomDataRecorder,
            0x12 => ExpansionDevice::KonamiHyperShot,
            0x13 => ExpansionDevice::CoconutsPachinkoController,
            0x14 => ExpansionDevice::ExcitingBoxingPunchingBag,
            0x15 => ExpansionDevice::JissenMahjongController,
            0x16 => ExpansionDevice::PartyTap,
            0x17 => ExpansionDevice::OekaKidsTablet,
            0x18 => ExpansionDevice::SunsoftBarcodeBattler,
            0x19 => ExpansionDevice::MiraclePianoKeyboard,
            0x1A => ExpansionDevice::PokkunMoguraa,
            0x1B => ExpansionDevice::TopRider,
            0x1C => ExpansionDevice::DoubleFisted,
            0x1D => ExpansionDevice::Famicom3DSystem,
            0x1E => ExpansionDevice::DoremikkoKeyboard,
            0x1F => ExpansionDevice::ROBGyroSet,
            0x20 => ExpansionDevice::FamicomDataRecorderDontEmulatekeyboard,
            0x21 => ExpansionDevice::ASCIITurboFile,
            0x22 => ExpansionDevice::IGSStorageBattleBox,
            0x23 => ExpansionDevice::FamilyBASICKeyboardPlusFamicomDataRecorder,
            0x24 => ExpansionDevice::DongdaPEC586Keyboard,
            0x25 => ExpansionDevice::BitCorpBit79Keyboard,
            0x26 => ExpansionDevice::SuborKeyboard,
            0x27 => ExpansionDevice::SuborKeyboardPlus3x8BitProtocolMouse,
            0x28 => ExpansionDevice::SuborKeyboardPlus24BitProtocolMouse,
            0x29 => ExpansionDevice::SNESMouse,
            0x2A => ExpansionDevice::Multicart,
            0x2B => ExpansionDevice::TwoSNESControllersReplacingTheTwoStandardNESControllers,
            0x2C => ExpansionDevice::RacerMateBicycle,
            0x2D => ExpansionDevice::UForce,
            0x2E => ExpansionDevice::ROBStackUp,
            _ => ExpansionDevice::Reversed,
        }
    }

    pub fn from_code(code: u8) -> (r: ExpansionDevice)
        ensures
            r == ExpansionDevice::spec_from_code(code),
    {
        match code {
            0x0 => ExpansionDevice::Unspecified,
            0x1 => ExpansionDevice::NES,
            0x2 => ExpansionDevice::NESFourScore,
            0x3 => ExpansionDevice::FamicomFourPlayersAdapterWithTwoAdditionalStandardControllers,
            0x4 => ExpansionDevice::VsSystem,
            0x5 => ExpansionDevice::VsSystemWithReversedInputs,
            0x6 => ExpansionDevice::VsPinballJapan,
            0x7 => ExpansionDevice::VsZapper,
            0x8 => ExpansionDevice::Zapper,
            0x9 => ExpansionDevice::TwoZappers,
            0xA => ExpansionDevice::BandaiHyperShot,
            0xB => ExpansionDevice::PowerPadSideA,
            0xC => ExpansionDevice::PowerPadSideB,
            0xD => ExpansionDevice::FamilyTrainerSideA,
            0xE => ExpansionDevice::FamilyTrainerSideB,
            0xF => ExpansionDevice::ArkanoidVausControllerNES,
            0x10 => ExpansionDevice::ArkanoidVausControllerFamicom,
            0x11 => ExpansionDevice::TwoVausControllersPlusFamicomDataRecorder,
            0x12 => ExpansionDevice::KonamiHyperShot,
            0x13 => ExpansionDevice::CoconutsPachinkoController,
            0x14 => ExpansionDevice::ExcitingBoxingPunchingBag,
            0x15 => ExpansionDevice::JissenMahjongController,
            0x16 => ExpansionDevice::PartyTap,
            0x17 => ExpansionDevice::OekaKidsTablet,
            0x18 => ExpansionDevice::SunsoftBarcodeBattler,
            0x19 => ExpansionDevice::MiraclePianoKeyboard,
            0x1A => ExpansionDevice::PokkunMoguraa,
            0x1B => ExpansionDevice::TopRider,
            0x1C => ExpansionDevice::DoubleFisted,
            0x1D => ExpansionDevice::Famicom3DSystem,
            0x1E => ExpansionDevice::DoremikkoKeyboard,
            0x1F => ExpansionDevice::ROBGyroSet,
            0x20 => ExpansionDevice::FamicomDataRecorderDontEmulatekeyboard,
            0x21 => ExpansionDevice::ASCIITurboFile,
            0x22 => ExpansionDevice::IGSStorageBattleBox,
            0x23 => ExpansionDevice::FamilyBASICKeyboardPlusFamicomDataRecorder,
            0x24 => ExpansionDevice::DongdaPEC586Keyboard,
            0x25 => ExpansionDevice::BitCorpBit79Keyboard,
            0x26 => ExpansionDevice::SuborKeyboard,
            0x27 => ExpansionDevice::SuborKeyboardPlus3x8BitProtocolMouse,
            0x28 => ExpansionDevice::SuborKeyboardPlus24BitProtocolMouse,
            0x29 => ExpansionDevice::SNESMouse,
            0x2A => ExpansionDevice::Multicart,
            0x2B => ExpansionDevice::TwoSNESControllersReplacingTheTwoStandardNESControllers,
            0x2C => ExpansionDevice::RacerMateBicycle,
            0x2D => ExpansionDevice::UForce,
            0x2E => ExpansionDevice::ROBStackUp,
            _ => ExpansionDevice::Reversed,
        }
    }
}
/// Vs. System hardware information.
#[derive(Debug, Clone, Copy, PartialEq, Eq, Hash, Structural)]
pub struct VsInfo {
    /// PPU model; where a game selects the model by DIP switches, the one
    /// selected when they are all off
    pub ppu_type: VsPPUType,
    /// Hardware type
    pub hardware_type: VsHardwareType,
}

impl Default for VsInfo {
    /// The first PPU model on a plain Unisystem.
    fn default() -> (r: VsInfo)
        ensures
            r == (VsInfo { ppu_type: VsPPUType::RP2C03B, hardware_type: VsHardwareType::UniSystemNormal }),
    {
        VsInfo { ppu_type: VsPPUType::RP2C03B, hardware_type: VsHardwareType::UniSystemNormal }
    }
}

/// The console a game runs on.
#[derive(Debug, Clone, Copy, PartialEq, Eq, Hash, Structural)]
pub enum ConsoleType {
    /// Nintendo Entertainment System / Famicom
    NES,
    /// Vs. System, with its hardware information
    Vs(VsInfo),
    /// PlayChoice-10
    PC10,
    /// A console kind of the extended format
    Extend(ExtendedConsoleType),
}

/// The decoded 16-byte header record.
#[derive(Debug, Clone, PartialEq, Eq, Hash, Structural)]
pub struct Header {
    /// PRG-ROM size in bytes
    pub prg_rom_size: u128,
    /// CHR-ROM size in bytes
    pub chr_rom_size: u128,
    /// PRG-RAM size in bytes
    pub prg_ram_size: u32,
    /// PRG-NVRAM size in bytes
    pub prg_nvram_size: u32,
    /// CHR-RAM size in bytes
    pub chr_ram_size: u32,
    /// CHR-NVRAM size in bytes
    pub chr_nvram_size: u32,
    /// Number of miscellaneous ROMs at the end of the file
    pub miscellaneous_rom_count: u8,
    /// Mapper number
    pub mapper: u16,
    /// Sub-mapper number
    pub sub_mapper: u8,
    /// Whether name tables use four-screen mode
    pub is_four_screen: bool,
    /// Whether a 512-byte trainer precedes PRG-ROM
    pub has_trainer: bool,
    /// Whether the cartridge has battery-backed memory
    pub has_persistent_memory: bool,
    /// Name-table mirroring
    pub mirroring: Mirroring,
    /// Whether the board has bus conflicts
    pub has_bus_conflicts: bool,
    /// CPU/PPU timing
    pub timing: Timing,
    /// Whether the record is in the extended (NES 2.0) format
    pub is_nes2: bool,
    /// Console the game runs on
    pub console_type: ConsoleType,
    /// Input device the game expects by default
    pub default_expansion_device: ExpansionDevice,
}

} // verus!
