use vstd::prelude::*;
use vstd::std_specs::convert::FromSpecImpl;

use crate::bits::masked_has_no_other_bits_u32;

verus! {

/// Name of the dynamic virtual channel that controls the display.
pub const DVC_CHANNEL_NAME: &'static str = "Microsoft::Windows::RDS::DisplayControl";

/// What a monitor layout says about its monitor.
#[derive(Clone, Copy, Debug, PartialEq, Eq, Structural)]
pub struct MonitorFlags {
    bits: u32,
}

impl MonitorFlags {
    /// The monitor is the primary one.
    pub const PRIMARY: u32 = 0x00000001;

    /// Every bit that has a meaning.
    pub const ALL: u32 = 0x00000001;

    #[verifier::type_invariant]
    spec fn known_bits_only(self) -> bool {
        self.bits & !MonitorFlags::ALL == 0
    }

    /// The bits that are set.
    pub closed spec fn spec_bits(&self) -> u32 {
        self.bits
    }

    /// The set with no bit in it.
    pub fn empty() -> (ret: MonitorFlags)
        ensures
            ret.spec_bits() == 0,
    {
        proof {
            masked_has_no_other_bits_u32(0, MonitorFlags::ALL);
        }
        MonitorFlags { bits: 0 }
    }

    /// The set of all bits that have a meaning.
    pub fn all() -> (ret: MonitorFlags)
        ensures
            ret.spec_bits() == MonitorFlags::ALL,
    {
        proof {
            masked_has_no_other_bits_u32(0, MonitorFlags::ALL);
        }
        MonitorFlags::from_bits_truncate(MonitorFlags::ALL)
    }

    #[verifier::when_used_as_spec(spec_bits)]
    pub fn bits(&self) -> (ret: u32)
        ensures
            ret == self.spec_bits(),
            ret & !MonitorFlags::ALL == 0,
    {
        proof {
            use_type_invariant(self);
        }
        self.bits
    }

    /// The set that `bits` spells, unless a bit without a meaning is among
    /// them.
    pub fn from_bits(bits: u32) -> (ret: Option<MonitorFlags>)
        ensures
            ret is Some <==> bits & !MonitorFlags::ALL == 0,
            ret matches Some(f) ==> f.spec_bits() == bits,
    {
        if bits & !MonitorFlags::ALL == 0 {
            Some(MonitorFlags { bits })
        } else {
            None
        }
    }

    /// The set that `bits` spells once every bit without a meaning is
    /// dropped.
    pub fn from_bits_truncate(bits: u32) -> (ret: MonitorFlags)
        ensures
            ret.spec_bits() == bits & MonitorFlags::ALL,
    {
        proof {
            masked_has_no_other_bits_u32(bits, MonitorFlags::ALL);
        }
        MonitorFlags { bits: bits & MonitorFlags::ALL }
    }

    /// Whether every bit of `mask` is set.
    pub fn contains(&self, mask: u32) -> (ret: bool)
        ensures
            ret == (self.spec_bits() & mask == mask),
    {
        self.bits & mask == mask
    }
}

/// How a monitor is turned.
#[derive(Clone, Copy, Debug, PartialEq, Eq, Structural)]
pub enum Orientation {
    Landscape,
    Portrait,
    LandscapeFlipped,
    PortraitFlipped,
}

impl Orientation {
    /// The angle of this orientation in degrees.
    pub open spec fn spec_degrees(&self) -> u32 {
        match self {
            Orientation::Landscape => 0,
            Orientation::Portrait => 90,
            Orientation::LandscapeFlipped => 180,
            Orientation::PortraitFlipped => 270,
        }
    }
}

impl From<Orientation> for u32 {
    fn from(o: Orientation) -> (ret: u32) {
        match o {
            Orientation::Landscape => 0,
            Orientation::Portrait => 90,
            Orientation::LandscapeFlipped => 180,
            Orientation::PortraitFlipped => 270,
        }
    }
}

impl FromSpecImpl<Orientation> for u32 {
    open spec fn obeys_from_spec() -> bool {
        true
    }

    open spec fn from_spec(o: Orientation) -> u32 {
        o.spec_degrees()
    }
}

/// The layout of one monitor, field for field as the display channel sends
/// it.
#[derive(Clone, Copy, Debug, PartialEq, Eq, Structural)]
pub struct MonitorLayout {
    pub flags: u32,
    pub left: i32,
    pub top: i32,
    pub width: u32,
    pub height: u32,
    pub physical_width: u32,
    pub physical_height: u32,
    pub orientation: u32,
    pub desktop_scale_factor: u32,
    pub device_scale_factor: u32,
}

impl MonitorLayout {
    pub fn new(
        flags: MonitorFlags,
        left: i32,
        top: i32,
        width: u32,
        height: u32,
        physical_width: u32,
        physical_height: u32,
        orientation: Orientation,
        desktop_scale_factor: u32,
        device_scale_factor: u32,
    ) -> (ret: MonitorLayout)
        ensures
            ret == (MonitorLayout {
                flags: flags.spec_bits(),
                left,
                top,
                width,
                height,
                physical_width,
                physical_height,
                orientation: orientation.spec_degrees(),
                desktop_scale_factor,
                device_scale_factor,
            }),
    {
        MonitorLayout {
            flags: flags.bits(),
            left,
            top,
            width,
            height,
            physical_width,
            physical_height,
            orientation: u32::from(orientation),
            desktop_scale_factor,
            device_scale_factor,
        }
    }
}

} // verus!
