use vstd::prelude::*;
use vstd::std_specs::convert::FromSpecImpl;

verus! {

/// The order of the colour channels inside a pixel.
#[derive(Clone, Copy, Debug, PartialEq, Eq, Structural)]
pub enum PixelFormatType {
    A,
    ARGB,
    ABGR,
    RGBA,
    BGRA,
}

impl PixelFormatType {
    /// The number that stands for this channel order.
    pub open spec fn spec_code(&self) -> u32 {
        match self {
            PixelFormatType::A => 0,
            PixelFormatType::ARGB => 1,
            PixelFormatType::ABGR => 2,
            PixelFormatType::RGBA => 3,
            PixelFormatType::BGRA => 4,
        }
    }
}

impl From<&PixelFormatType> for u32 {
    fn from(ty: &PixelFormatType) -> (ret: u32) {
        match ty {
            PixelFormatType::A => 0,
            PixelFormatType::ARGB => 1,
            PixelFormatType::ABGR => 2,
            PixelFormatType::RGBA => 3,
            PixelFormatType::BGRA => 4,
        }
    }
}

impl FromSpecImpl<&PixelFormatType> for u32 {
    open spec fn obeys_from_spec() -> bool {
        true
    }

    open spec fn from_spec(ty: &PixelFormatType) -> u32 {
        ty.spec_code()
    }
}

/// The layout of a pixel: how many bits it takes, the order of its channels,
/// and how many bits each channel has.
#[derive(Clone, Copy, Debug, PartialEq, Eq, Structural)]
pub struct PixelFormat {
    bpp: u8,
    type_: PixelFormatType,
    a: u8,
    r: u8,
    g: u8,
    b: u8,
}

impl PixelFormat {
    /// The 32-bit word that names this layout on the native side: bits per
    /// pixel in the top byte, the channel order in the next, then the four
    /// channel widths, four bits apart.
    pub open spec fn spec_code(&self) -> u32 {
        (self.spec_bpp() as u32) << 24 | self.spec_type().spec_code() << 16 | (
        self.spec_widths().0 as u32) << 12 | (self.spec_widths().1 as u32) << 8 | (
        self.spec_widths().2 as u32) << 4 | (self.spec_widths().3 as u32)
    }

    pub closed spec fn spec_bpp(&self) -> u8 {
        self.bpp
    }

    pub closed spec fn spec_type(&self) -> PixelFormatType {
        self.type_
    }

    /// The widths of the alpha, red, green and blue channels.
    pub closed spec fn spec_widths(&self) -> (u8, u8, u8, u8) {
        (self.a, self.r, self.g, self.b)
    }

    pub fn new(bpp: u8, type_: PixelFormatType, a: u8, r: u8, g: u8, b: u8) -> (ret: PixelFormat)
        ensures
            ret.spec_bpp() == bpp,
            ret.spec_type() == type_,
            ret.spec_widths() == (a, r, g, b),
    {
        PixelFormat { bpp, type_, a, r, g, b }
    }

    /// 32 bits: alpha, red, green, blue.
    pub fn argb32() -> (ret: PixelFormat)
        ensures
            ret.spec_bpp() == 32,
            ret.spec_type() == PixelFormatType::ARGB,
            ret.spec_widths() == (8u8, 8u8, 8u8, 8u8),
    {
        PixelFormat { bpp: 32, type_: PixelFormatType::ARGB, a: 8, r: 8, g: 8, b: 8 }
    }

    /// 32 bits: unused, red, green, blue.
    pub fn xrgb32() -> (ret: PixelFormat)
        ensures
            ret.spec_bpp() == 32,
            ret.spec_type() == PixelFormatType::ARGB,
            ret.spec_widths() == (0u8, 8u8, 8u8, 8u8),
    {
        PixelFormat { bpp: 32, type_: PixelFormatType::ARGB, a: 0, r: 8, g: 8, b: 8 }
    }

    /// 32 bits: alpha, blue, green, red.
    pub fn abgr32() -> (ret: PixelFormat)
        ensures
            ret.spec_bpp() == 32,
            ret.spec_type() == PixelFormatType::ABGR,
            ret.spec_widths() == (8u8, 8u8, 8u8, 8u8),
    {
        PixelFormat { bpp: 32, type_: PixelFormatType::ABGR, a: 8, r: 8, g: 8, b: 8 }
    }

    /// 32 bits: unused, blue, green, red.
    pub fn xbgr32() -> (ret: PixelFormat)
        ensures
            ret.spec_bpp() == 32,
            ret.spec_type() == PixelFormatType::ABGR,
            ret.spec_widths() == (0u8, 8u8, 8u8, 8u8),
    {
        PixelFormat { bpp: 32, type_: PixelFormatType::ABGR, a: 0, r: 8, g: 8, b: 8 }
    }

    /// 32 bits: blue, green, red, alpha.
    pub fn bgra32() -> (ret: PixelFormat)
        ensures
            ret.spec_bpp() == 32,
            ret.spec_type() == PixelFormatType::BGRA,
            ret.spec_widths() == (8u8, 8u8, 8u8, 8u8),
    {
        PixelFormat { bpp: 32, type_: PixelFormatType::BGRA, a: 8, r: 8, g: 8, b: 8 }
    }

    /// 32 bits: blue, green, red, unused.
    pub fn bgrx32() -> (ret: PixelFormat)
        ensures
            ret.spec_bpp() == 32,
            ret.spec_type() == PixelFormatType::BGRA,
            ret.spec_widths() == (0u8, 8u8, 8u8, 8u8),
    {
        PixelFormat { bpp: 32, type_: PixelFormatType::BGRA, a: 0, r: 8, g: 8, b: 8 }
    }

    /// 32 bits: red, green, blue, alpha.
    pub fn rgba32() -> (ret: PixelFormat)
        ensures
            ret.spec_bpp() == 32,
            ret.spec_type() == PixelFormatType::RGBA,
            ret.spec_widths() == (8u8, 8u8, 8u8, 8u8),
    {
        PixelFormat { bpp: 32, type_: PixelFormatType::RGBA, a: 8, r: 8, g: 8, b: 8 }
    }

    /// 32 bits: red, green, blue, unused.
    pub fn rgbx32() -> (ret: PixelFormat)
        ensures
            ret.spec_bpp() == 32,
            ret.spec_type() == PixelFormatType::RGBA,
            ret.spec_widths() == (0u8, 8u8, 8u8, 8u8),
    {
        PixelFormat { bpp: 32, type_: PixelFormatType::RGBA, a: 0, r: 8, g: 8, b: 8 }
    }
}

impl From<&PixelFormat> for u32 {
    fn from(fmt: &PixelFormat) -> (ret: u32) {
        (fmt.bpp as u32) << 24 | u32::from(&fmt.type_) << 16 | (fmt.a as u32) << 12 | (
        fmt.r as u32) << 8 | (fmt.g as u32) << 4 | (fmt.b as u32)
    }
}

impl FromSpecImpl<&PixelFormat> for u32 {
    open spec fn obeys_from_spec() -> bool {
        true
    }

    open spec fn from_spec(fmt: &PixelFormat) -> u32 {
        fmt.spec_code()
    }
}

} // verus!
