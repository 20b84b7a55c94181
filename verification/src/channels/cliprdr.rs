use vstd::prelude::*;
use vstd::std_specs::convert::TryFromSpecImpl;

use crate::bits::masked_has_no_other_bits_u32;
use crate::error::RdpError;

verus! {

/// Name of the static virtual channel that carries the clipboard.
pub const SVC_CHANNEL_NAME: &'static str = "cliprdr";

/// Message type of a format list.
pub const CB_FORMAT_LIST: u16 = 2;

/// Message type of the answer to a format list.
pub const CB_FORMAT_LIST_RESPONSE: u16 = 3;

/// Message flag: the request was carried out.
pub const CB_RESPONSE_OK: u16 = 1;

/// Message flag: the request failed.
pub const CB_RESPONSE_FAIL: u16 = 2;

/// Tag of the general capability set.
pub const CB_CAPSTYPE_GENERAL: u16 = 1;

/// Length in bytes of the general capability set.
pub const CB_CAPSTYPE_GENERAL_LEN: u16 = 12;

/// The identifier under which a format travels that has a name and no fixed
/// identifier: the first of the numbers that the protocol leaves to formats
/// registered by name. No fixed format has it.
pub const CB_FORMAT_BY_NAME: u32 = 0xC000;

/// The clipboard formats that have a fixed identifier.
#[non_exhaustive]
#[derive(Clone, Copy, Debug, PartialEq, Eq, PartialOrd, Structural)]
pub enum Format {
    Raw,
    Text,
    Bitmap,
    MetaFilePict,
    Sylk,
    Dif,
    Tiff,
    OemText,
    Dib,
    Palette,
    PenData,
    Riff,
    Wave,
    UnicodeText,
    EnhMetaFile,
    HDrop,
    Locale,
    DibV5,
    Max,
    OwnedDisplay,
    DspText,
    Html,
    Png,
    Jpeg,
    Gif,
    TextUriList,
}

impl Format {
    /// The identifier of this format on the wire.
    pub open spec fn spec_code(&self) -> u32 {
        match self {
            Format::Raw => 0,
            Format::Text => 1,
            Format::Bitmap => 2,
            Format::MetaFilePict => 3,
            Format::Sylk => 4,
            Format::Dif => 5,
            Format::Tiff => 6,
            Format::OemText => 7,
            Format::Dib => 8,
            Format::Palette => 9,
            Format::PenData => 0xA,
            Format::Riff => 0xB,
            Format::Wave => 0xC,
            Format::UnicodeText => 0xD,
            Format::EnhMetaFile => 0xE,
            Format::HDrop => 0xF,
            Format::Locale => 0x10,
            Format::DibV5 => 0x11,
            Format::Max => 0x12,
            Format::OwnedDisplay => 0x80,
            Format::DspText => 0x81,
            Format::Html => 0xD010,
            Format::Png => 0xD011,
            Format::Jpeg => 0xD012,
            Format::Gif => 0xD013,
            Format::TextUriList => 0xD014,
        }
    }

    /// The format that `value` identifies, if it is one of the fixed ones.
    pub open spec fn of_code(value: u32) -> Option<Format> {
        match value {
            0 => Some(Format::Raw),
            1 => Some(Format::Text),
            2 => Some(Format::Bitmap),
            3 => Some(Format::MetaFilePict),
            4 => Some(Format::Sylk),
            5 => Some(Format::Dif),
            6 => Some(Format::Tiff),
            7 => Some(Format::OemText),
            8 => Some(Format::Dib),
            9 => Some(Format::Palette),
            0xA => Some(Format::PenData),
            0xB => Some(Format::Riff),
            0xC => Some(Format::Wave),
            0xD => Some(Format::UnicodeText),
            0xE => Some(Format::EnhMetaFile),
            0xF => Some(Format::HDrop),
            0x10 => Some(Format::Locale),
            0x11 => Some(Format::DibV5),
            0x12 => Some(Format::Max),
            0x80 => Some(Format::OwnedDisplay),
            0x81 => Some(Format::DspText),
            0xD010 => Some(Format::Html),
            0xD011 => Some(Format::Png),
            0xD012 => Some(Format::Jpeg),
            0xD013 => Some(Format::Gif),
            0xD014 => Some(Format::TextUriList),
            _ => None,
        }
    }

    #[verifier::when_used_as_spec(spec_code)]
    pub fn code(&self) -> (ret: u32)
        ensures
            ret == self.spec_code(),
    {
        match self {
            Format::Raw => 0,
            Format::Text => 1,
            Format::Bitmap => 2,
            Format::MetaFilePict => 3,
            Format::Sylk => 4,
            Format::Dif => 5,
            Format::Tiff => 6,
            Format::OemText => 7,
            Format::Dib => 8,
            Format::Palette => 9,
            Format::PenData => 0xA,
            Format::Riff => 0xB,
            Format::Wave => 0xC,
            Format::UnicodeText => 0xD,
            Format::EnhMetaFile => 0xE,
            Format::HDrop => 0xF,
            Format::Locale => 0x10,
            Format::DibV5 => 0x11,
            Format::Max => 0x12,
            Format::OwnedDisplay => 0x80,
            Format::DspText => 0x81,
            Format::Html => 0xD010,
            Format::Png => 0xD011,
            Format::Jpeg => 0xD012,
            Format::Gif => 0xD013,
            Format::TextUriList => 0xD014,
        }
    }

    /// Decoding undoes encoding, and an identifier decodes only to the format
    /// that it stands for. So no two formats share an identifier, and none has
    /// the one that stands for a format known by its name only.
    pub proof fn of_code_inverts_code(f: Format, value: u32)
        ensures
            Format::of_code(f.spec_code()) == Some(f),
            Format::of_code(value) == Some(f) <==> value == f.spec_code(),
            Format::of_code(CB_FORMAT_BY_NAME) is None,
    {
    }
}

impl TryFrom<u32> for Format {
    type Error = RdpError;

    fn try_from(value: u32) -> (ret: Result<Format, RdpError>) {
        match value {
            0 => Ok(Format::Raw),
            1 => Ok(Format::Text),
            2 => Ok(Format::Bitmap),
            3 => Ok(Format::MetaFilePict),
            4 => Ok(Format::Sylk),
            5 => Ok(Format::Dif),
            6 => Ok(Format::Tiff),
            7 => Ok(Format::OemText),
            8 => Ok(Format::Dib),
            9 => Ok(Format::Palette),
            0xA => Ok(Format::PenData),
            0xB => Ok(Format::Riff),
            0xC => Ok(Format::Wave),
            0xD => Ok(Format::UnicodeText),
            0xE => Ok(Format::EnhMetaFile),
            0xF => Ok(Format::HDrop),
            0x10 => Ok(Format::Locale),
            0x11 => Ok(Format::DibV5),
            0x12 => Ok(Format::Max),
            0x80 => Ok(Format::OwnedDisplay),
            0x81 => Ok(Format::DspText),
            0xD010 => Ok(Format::Html),
            0xD011 => Ok(Format::Png),
            0xD012 => Ok(Format::Jpeg),
            0xD013 => Ok(Format::Gif),
            0xD014 => Ok(Format::TextUriList),
            _ => Err(RdpError::Unsupported),
        }
    }
}

impl TryFromSpecImpl<u32> for Format {
    open spec fn obeys_try_from_spec() -> bool {
        true
    }

    open spec fn try_from_spec(value: u32) -> Result<Format, RdpError> {
        match Format::of_code(value) {
            Some(f) => Ok(f),
            None => Err(RdpError::Unsupported),
        }
    }
}

/// What a clipboard endpoint announces that it can do.
#[derive(Clone, Copy, Debug, PartialEq, Eq, Structural)]
pub struct GeneralCapabilities {
    bits: u32,
}

impl GeneralCapabilities {
    /// Format names travel in the long, variable-length form.
    pub const USE_LONG_FORMAT_NAMES: u32 = 0x00000002;

    /// File contents can be streamed.
    pub const STREAM_FILECLIP_ENABLED: u32 = 0x00000004;

    /// File descriptions carry no source paths.
    pub const FILECLIP_NO_FILE_PATHS: u32 = 0x00000008;

    /// Clipboard data can be locked.
    pub const CAN_LOCK_CLIPDATA: u32 = 0x00000010;

    /// Files larger than four gigabytes can be transferred.
    pub const HUGE_FILE_SUPPORT_ENABLED: u32 = 0x00000020;

    /// Every bit that has a meaning.
    pub const ALL: u32 = 0x0000003E;

    #[verifier::type_invariant]
    spec fn known_bits_only(self) -> bool {
        self.bits & !GeneralCapabilities::ALL == 0
    }

    /// The bits that are set.
    pub closed spec fn spec_bits(&self) -> u32 {
        self.bits
    }

    /// The set with no bit in it.
    pub fn empty() -> (ret: GeneralCapabilities)
        ensures
            ret.spec_bits() == 0,
    {
        proof {
            masked_has_no_other_bits_u32(0, GeneralCapabilities::ALL);
        }
        GeneralCapabilities { bits: 0 }
    }

    /// The set of all bits that have a meaning.
    pub fn all() -> (ret: GeneralCapabilities)
        ensures
            ret.spec_bits() == GeneralCapabilities::ALL,
    {
        proof {
            masked_has_no_other_bits_u32(0, GeneralCapabilities::ALL);
        }
        GeneralCapabilities::from_bits_truncate(GeneralCapabilities::ALL)
    }

    #[verifier::when_used_as_spec(spec_bits)]
    pub fn bits(&self) -> (ret: u32)
        ensures
            ret == self.spec_bits(),
            ret & !GeneralCapabilities::ALL == 0,
    {
        proof {
            use_type_invariant(self);
        }
        self.bits
    }

    /// The set that `bits` spells, unless a bit without a meaning is among
    /// them.
    pub fn from_bits(bits: u32) -> (ret: Option<GeneralCapabilities>)
        ensures
            ret is Some <==> bits & !GeneralCapabilities::ALL == 0,
            ret matches Some(f) ==> f.spec_bits() == bits,
    {
        if bits & !GeneralCapabilities::ALL == 0 {
            Some(GeneralCapabilities { bits })
        } else {
            None
        }
    }

    /// The set that `bits` spells once every bit without a meaning is
    /// dropped.
    pub fn from_bits_truncate(bits: u32) -> (ret: GeneralCapabilities)
        ensures
            ret.spec_bits() == bits & GeneralCapabilities::ALL,
    {
        proof {
            masked_has_no_other_bits_u32(bits, GeneralCapabilities::ALL);
        }
        GeneralCapabilities { bits: bits & GeneralCapabilities::ALL }
    }

    /// Whether every bit of `mask` is set.
    pub fn contains(&self, mask: u32) -> (ret: bool)
        ensures
            ret == (self.spec_bits() & mask == mask),
    {
        self.bits & mask == mask
    }
}

/// Version of the clipboard capability set.
#[non_exhaustive]
#[derive(Clone, Copy, Debug, PartialEq, Eq, Structural)]
pub enum Version {
    V1,
    V2,
}

impl Version {
    /// The number of this version on the wire.
    pub open spec fn spec_code(&self) -> u32 {
        match self {
            Version::V1 => 1,
            Version::V2 => 2,
        }
    }

    #[verifier::when_used_as_spec(spec_code)]
    pub fn code(&self) -> (ret: u32)
        ensures
            ret == self.spec_code(),
    {
        match self {
            Version::V1 => 1,
            Version::V2 => 2,
        }
    }
}

} // verus!
