use vstd::prelude::*;

use crate::bits::masked_has_no_other_bits_u16;
use crate::text::{decode_utf16, utf16_decoding};

verus! {

/// Name of the static virtual channel for multiparty sessions.
pub const SVC_CHANNEL_NAME: &'static str = "encomsp";

/// What a participant of a shared session may do.
#[derive(Clone, Copy, Debug, PartialEq, Eq, Structural)]
pub struct ParticipantCreatedFlags {
    bits: u16,
}

impl ParticipantCreatedFlags {
    /// The participant may watch.
    pub const MAY_VIEW: u16 = 0x0001;

    /// The participant may take part.
    pub const MAY_INTERACT: u16 = 0x0002;

    /// The receiver itself is this participant.
    pub const IS_PARTICIPANT: u16 = 0x0004;

    /// Every bit that has a meaning.
    pub const ALL: u16 = 0x0007;

    #[verifier::type_invariant]
    spec fn known_bits_only(self) -> bool {
        self.bits & !ParticipantCreatedFlags::ALL == 0
    }

    /// The bits that are set.
    pub closed spec fn spec_bits(&self) -> u16 {
        self.bits
    }

    /// The set with no bit in it.
    pub fn empty() -> (ret: ParticipantCreatedFlags)
        ensures
            ret.spec_bits() == 0,
    {
        proof {
            masked_has_no_other_bits_u16(0, ParticipantCreatedFlags::ALL);
        }
        ParticipantCreatedFlags { bits: 0 }
    }

    /// The set of all bits that have a meaning.
    pub fn all() -> (ret: ParticipantCreatedFlags)
        ensures
            ret.spec_bits() == ParticipantCreatedFlags::ALL,
    {
        proof {
            masked_has_no_other_bits_u16(0, ParticipantCreatedFlags::ALL);
        }
        ParticipantCreatedFlags::from_bits_truncate(ParticipantCreatedFlags::ALL)
    }

    #[verifier::when_used_as_spec(spec_bits)]
    pub fn bits(&self) -> (ret: u16)
        ensures
            ret == self.spec_bits(),
            ret & !ParticipantCreatedFlags::ALL == 0,
    {
        proof {
            use_type_invariant(self);
        }
        self.bits
    }

    /// The set that `bits` spells, unless a bit without a meaning is among
    /// them.
    pub fn from_bits(bits: u16) -> (ret: Option<ParticipantCreatedFlags>)
        ensures
            ret is Some <==> bits & !ParticipantCreatedFlags::ALL == 0,
            ret matches Some(f) ==> f.spec_bits() == bits,
    {
        if bits & !ParticipantCreatedFlags::ALL == 0 {
            Some(ParticipantCreatedFlags { bits })
        } else {
            None
        }
    }

    /// The set that `bits` spells once every bit without a meaning is
    /// dropped.
    pub fn from_bits_truncate(bits: u16) -> (ret: ParticipantCreatedFlags)
        ensures
            ret.spec_bits() == bits & ParticipantCreatedFlags::ALL,
    {
        proof {
            masked_has_no_other_bits_u16(bits, ParticipantCreatedFlags::ALL);
        }
        ParticipantCreatedFlags { bits: bits & ParticipantCreatedFlags::ALL }
    }

    /// Whether every bit of `mask` is set.
    pub fn contains(&self, mask: u16) -> (ret: bool)
        ensures
            ret == (self.spec_bits() & mask == mask),
    {
        self.bits & mask == mask
    }
}

/// A counted string of UTF-16 code units: `cch_string` says how many of the
/// units in `w_string` belong to it.
#[derive(Debug)]
pub struct UnicodeString {
    pub cch_string: u16,
    pub w_string: Vec<u16>,
}

/// The announcement that a participant joined, field for field.
#[derive(Debug)]
pub struct ParticipantCreated {
    pub participant_id: u32,
    pub group_id: u32,
    pub flags: u16,
    pub friendly_name: UnicodeString,
}

impl ParticipantCreated {
    pub fn participant_id(&self) -> (ret: u32)
        ensures
            ret == self.participant_id,
    {
        self.participant_id
    }

    pub fn group_id(&self) -> (ret: u32)
        ensures
            ret == self.group_id,
    {
        self.group_id
    }

    /// The flags of the participant, without the bits that have no meaning.
    pub fn flags(&self) -> (ret: ParticipantCreatedFlags)
        ensures
            ret.spec_bits() == self.flags & ParticipantCreatedFlags::ALL,
    {
        ParticipantCreatedFlags::from_bits_truncate(self.flags)
    }

    /// The participant's name: the counted part of the string, decoded as
    /// UTF-16.
    pub fn friendly_name(&self) -> (ret: Result<String, std::string::FromUtf16Error>)
        requires
            self.friendly_name.cch_string <= self.friendly_name.w_string@.len(),
        ensures
            match ret {
                Ok(s) => utf16_decoding(
                    self.friendly_name.w_string@.subrange(
                        0,
                        self.friendly_name.cch_string as int,
                    ),
                ) == Some(s@),
                Err(_) => utf16_decoding(
                    self.friendly_name.w_string@.subrange(
                        0,
                        self.friendly_name.cch_string as int,
                    ),
                ) is None,
            },
    {
        let len: usize = self.friendly_name.cch_string as usize;
        let units = vstd::slice::slice_subrange(self.friendly_name.w_string.as_slice(), 0, len);
        decode_utf16(units)
    }
}

} // verus!
