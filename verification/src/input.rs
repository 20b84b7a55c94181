use vstd::prelude::*;

use crate::bits::{masked_has_no_other_bits_u16, masked_has_no_other_bits_u32};
use crate::convention::{is_outcome, outcome};
use crate::error::RdpError;
use crate::native::NativeRef;

verus! {

/// The toggle keys whose state a synchronize event carries.
#[derive(Clone, Copy, Debug, PartialEq, Eq, Structural)]
pub struct SyncFlags {
    bits: u32,
}

impl SyncFlags {
    /// Scroll lock is on.
    pub const SCROLL: u32 = 0x00000001;

    /// Num lock is on.
    pub const NUM: u32 = 0x00000002;

    /// Caps lock is on.
    pub const CAPS: u32 = 0x00000004;

    /// Kana lock is on.
    pub const KANA: u32 = 0x00000008;

    /// Every bit that has a meaning.
    pub const ALL: u32 = 0x0000000F;

    #[verifier::type_invariant]
    spec fn known_bits_only(self) -> bool {
        self.bits & !SyncFlags::ALL == 0
    }

    /// The bits that are set.
    pub closed spec fn spec_bits(&self) -> u32 {
        self.bits
    }

    /// The set with no bit in it.
    pub fn empty() -> (ret: SyncFlags)
        ensures
            ret.spec_bits() == 0,
    {
        proof {
            masked_has_no_other_bits_u32(0, SyncFlags::ALL);
        }
        SyncFlags { bits: 0 }
    }

    /// The set of all bits that have a meaning.
    pub fn all() -> (ret: SyncFlags)
        ensures
            ret.spec_bits() == SyncFlags::ALL,
    {
        proof {
            masked_has_no_other_bits_u32(0, SyncFlags::ALL);
        }
        SyncFlags::from_bits_truncate(SyncFlags::ALL)
    }

    #[verifier::when_used_as_spec(spec_bits)]
    pub fn bits(&self) -> (ret: u32)
        ensures
            ret == self.spec_bits(),
            ret & !SyncFlags::ALL == 0,
    {
        proof {
            use_type_invariant(self);
        }
        self.bits
    }

    /// The set that `bits` spells, unless a bit without a meaning is among
    /// them.
    pub fn from_bits(bits: u32) -> (ret: Option<SyncFlags>)
        ensures
            ret is Some <==> bits & !SyncFlags::ALL == 0,
            ret matches Some(f) ==> f.spec_bits() == bits,
    {
        if bits & !SyncFlags::ALL == 0 {
            Some(SyncFlags { bits })
        } else {
            None
        }
    }

    /// The set that `bits` spells once every bit without a meaning is
    /// dropped.
    pub fn from_bits_truncate(bits: u32) -> (ret: SyncFlags)
        ensures
            ret.spec_bits() == bits & SyncFlags::ALL,
    {
        proof {
            masked_has_no_other_bits_u32(bits, SyncFlags::ALL);
        }
        SyncFlags { bits: bits & SyncFlags::ALL }
    }

    /// Whether every bit of `mask` is set.
    pub fn contains(&self, mask: u32) -> (ret: bool)
        ensures
            ret == (self.spec_bits() & mask == mask),
    {
        self.bits & mask == mask
    }
}

/// What a keyboard event says about its key.
#[derive(Clone, Copy, Debug, PartialEq, Eq, Structural)]
pub struct KbdFlags {
    bits: u16,
}

impl KbdFlags {
    /// The key is an extended key.
    pub const EXTENDED: u16 = 0x0100;

    /// The key is an extended key of the second kind.
    pub const EXTENDED1: u16 = 0x0200;

    /// The key was down before this event.
    pub const DOWN: u16 = 0x4000;

    /// The key was released.
    pub const RELEASE: u16 = 0x8000;

    /// Every bit that has a meaning.
    pub const ALL: u16 = 0xC300;

    #[verifier::type_invariant]
    spec fn known_bits_only(self) -> bool {
        self.bits & !KbdFlags::ALL == 0
    }

    /// The bits that are set.
    pub closed spec fn spec_bits(&self) -> u16 {
        self.bits
    }

    /// The set with no bit in it.
    pub fn empty() -> (ret: KbdFlags)
        ensures
            ret.spec_bits() == 0,
    {
        proof {
            masked_has_no_other_bits_u16(0, KbdFlags::ALL);
        }
        KbdFlags { bits: 0 }
    }

    /// The set of all bits that have a meaning.
    pub fn all() -> (ret: KbdFlags)
        ensures
            ret.spec_bits() == KbdFlags::ALL,
    {
        proof {
            masked_has_no_other_bits_u16(0, KbdFlags::ALL);
        }
        KbdFlags::from_bits_truncate(KbdFlags::ALL)
    }

    #[verifier::when_used_as_spec(spec_bits)]
    pub fn bits(&self) -> (ret: u16)
        ensures
            ret == self.spec_bits(),
            ret & !KbdFlags::ALL == 0,
    {
        proof {
            use_type_invariant(self);
        }
        self.bits
    }

    /// The set that `bits` spells, unless a bit without a meaning is among
    /// them.
    pub fn from_bits(bits: u16) -> (ret: Option<KbdFlags>)
        ensures
            ret is Some <==> bits & !KbdFlags::ALL == 0,
            ret matches Some(f) ==> f.spec_bits() == bits,
    {
        if bits & !KbdFlags::ALL == 0 {
            Some(KbdFlags { bits })
        } else {
            None
        }
    }

    /// The set that `bits` spells once every bit without a meaning is
    /// dropped.
    pub fn from_bits_truncate(bits: u16) -> (ret: KbdFlags)
        ensures
            ret.spec_bits() == bits & KbdFlags::ALL,
    {
        proof {
            masked_has_no_other_bits_u16(bits, KbdFlags::ALL);
        }
        KbdFlags { bits: bits & KbdFlags::ALL }
    }

    /// Whether every bit of `mask` is set.
    pub fn contains(&self, mask: u16) -> (ret: bool)
        ensures
            ret == (self.spec_bits() & mask == mask),
    {
        self.bits & mask == mask
    }
}

/// What a mouse event says about the pointer.
#[derive(Clone, Copy, Debug, PartialEq, Eq, Structural)]
pub struct PtrFlags {
    bits: u16,
}

impl PtrFlags {
    /// The horizontal wheel was turned.
    pub const HWHEEL: u16 = 0x0400;

    /// The vertical wheel was turned.
    pub const WHEEL: u16 = 0x0200;

    /// The wheel was turned backwards.
    pub const WHEEL_NEGATIVE: u16 = 0x0100;

    /// The pointer moved.
    pub const MOVE: u16 = 0x0800;

    /// A button went down.
    pub const DOWN: u16 = 0x8000;

    /// The left button.
    pub const BUTTON1: u16 = 0x1000;

    /// The right button.
    pub const BUTTON2: u16 = 0x2000;

    /// The middle button.
    pub const BUTTON3: u16 = 0x4000;

    /// Every bit that has a meaning.
    pub const ALL: u16 = 0xFF00;

    #[verifier::type_invariant]
    spec fn known_bits_only(self) -> bool {
        self.bits & !PtrFlags::ALL == 0
    }

    /// The bits that are set.
    pub closed spec fn spec_bits(&self) -> u16 {
        self.bits
    }

    /// The set with no bit in it.
    pub fn empty() -> (ret: PtrFlags)
        ensures
            ret.spec_bits() == 0,
    {
        proof {
            masked_has_no_other_bits_u16(0, PtrFlags::ALL);
        }
        PtrFlags { bits: 0 }
    }

    /// The set of all bits that have a meaning.
    pub fn all() -> (ret: PtrFlags)
        ensures
            ret.spec_bits() == PtrFlags::ALL,
    {
        proof {
            masked_has_no_other_bits_u16(0, PtrFlags::ALL);
        }
        PtrFlags::from_bits_truncate(PtrFlags::ALL)
    }

    #[verifier::when_used_as_spec(spec_bits)]
    pub fn bits(&self) -> (ret: u16)
        ensures
            ret == self.spec_bits(),
            ret & !PtrFlags::ALL == 0,
    {
        proof {
            use_type_invariant(self);
        }
        self.bits
    }

    /// The set that `bits` spells, unless a bit without a meaning is among
    /// them.
    pub fn from_bits(bits: u16) -> (ret: Option<PtrFlags>)
        ensures
            ret is Some <==> bits & !PtrFlags::ALL == 0,
            ret matches Some(f) ==> f.spec_bits() == bits,
    {
        if bits & !PtrFlags::ALL == 0 {
            Some(PtrFlags { bits })
        } else {
            None
        }
    }

    /// The set that `bits` spells once every bit without a meaning is
    /// dropped.
    pub fn from_bits_truncate(bits: u16) -> (ret: PtrFlags)
        ensures
            ret.spec_bits() == bits & PtrFlags::ALL,
    {
        proof {
            masked_has_no_other_bits_u16(bits, PtrFlags::ALL);
        }
        PtrFlags { bits: bits & PtrFlags::ALL }
    }

    /// Whether every bit of `mask` is set.
    pub fn contains(&self, mask: u16) -> (ret: bool)
        ensures
            ret == (self.spec_bits() & mask == mask),
    {
        self.bits & mask == mask
    }
}

/// The bits of a mouse event that hold how far the wheel was turned.
pub const WHEEL_ROTATION_MASK: u16 = 0x01FF;

/// What an extended mouse event says about the pointer.
#[derive(Clone, Copy, Debug, PartialEq, Eq, Structural)]
pub struct PtrXFlags {
    bits: u16,
}

impl PtrXFlags {
    /// A button went down.
    pub const DOWN: u16 = 0x8000;

    /// The first extended button.
    pub const BUTTON1: u16 = 0x0001;

    /// The second extended button.
    pub const BUTTON2: u16 = 0x0002;

    /// Every bit that has a meaning.
    pub const ALL: u16 = 0x8003;

    #[verifier::type_invariant]
    spec fn known_bits_only(self) -> bool {
        self.bits & !PtrXFlags::ALL == 0
    }

    /// The bits that are set.
    pub closed spec fn spec_bits(&self) -> u16 {
        self.bits
    }

    /// The set with no bit in it.
    pub fn empty() -> (ret: PtrXFlags)
        ensures
            ret.spec_bits() == 0,
    {
        proof {
            masked_has_no_other_bits_u16(0, PtrXFlags::ALL);
        }
        PtrXFlags { bits: 0 }
    }

    /// The set of all bits that have a meaning.
    pub fn all() -> (ret: PtrXFlags)
        ensures
            ret.spec_bits() == PtrXFlags::ALL,
    {
        proof {
            masked_has_no_other_bits_u16(0, PtrXFlags::ALL);
        }
        PtrXFlags::from_bits_truncate(PtrXFlags::ALL)
    }

    #[verifier::when_used_as_spec(spec_bits)]
    pub fn bits(&self) -> (ret: u16)
        ensures
            ret == self.spec_bits(),
            ret & !PtrXFlags::ALL == 0,
    {
        proof {
            use_type_invariant(self);
        }
        self.bits
    }

    /// The set that `bits` spells, unless a bit without a meaning is among
    /// them.
    pub fn from_bits(bits: u16) -> (ret: Option<PtrXFlags>)
        ensures
            ret is Some <==> bits & !PtrXFlags::ALL == 0,
            ret matches Some(f) ==> f.spec_bits() == bits,
    {
        if bits & !PtrXFlags::ALL == 0 {
            Some(PtrXFlags { bits })
        } else {
            None
        }
    }

    /// The set that `bits` spells once every bit without a meaning is
    /// dropped.
    pub fn from_bits_truncate(bits: u16) -> (ret: PtrXFlags)
        ensures
            ret.spec_bits() == bits & PtrXFlags::ALL,
    {
        proof {
            masked_has_no_other_bits_u16(bits, PtrXFlags::ALL);
        }
        PtrXFlags { bits: bits & PtrXFlags::ALL }
    }

    /// Whether every bit of `mask` is set.
    pub fn contains(&self, mask: u16) -> (ret: bool)
        ensures
            ret == (self.spec_bits() & mask == mask),
    {
        self.bits & mask == mask
    }
}

/// The input channel of a session: keyboard and mouse events go in here.
#[derive(Debug)]
pub struct Input {
    inner: NativeRef,
}

impl Input {
    /// The address of the native object.
    pub closed spec fn spec_as_ptr(&self) -> usize {
        self.inner.spec_addr()
    }

    /// Wraps the native object at `input`.
    pub fn new(input: usize) -> (ret: Input)
        requires
            input != 0,
        ensures
            ret.spec_as_ptr() == input,
    {
        Input { inner: NativeRef::new_unchecked(input) }
    }

    #[verifier::when_used_as_spec(spec_as_ptr)]
    pub fn as_ptr(&self) -> (ret: usize)
        ensures
            ret == self.spec_as_ptr(),
            ret != 0,
    {
        self.inner.addr()
    }

    /// Reads what sending a synchronize event returned: non-zero is success.
    pub fn send_synchronize_event(&mut self, success: i32) -> (ret: Result<(), RdpError>)
        ensures
            is_outcome(ret, success != 0, "send_synchronize_event() failed"@),
    {
        outcome(success != 0, "send_synchronize_event() failed")
    }

    /// Reads what sending a keyboard event returned.
    pub fn send_keyboard_event(&mut self, success: i32) -> (ret: Result<(), RdpError>)
        ensures
            is_outcome(ret, success != 0, "send_keyboard_event() failed"@),
    {
        outcome(success != 0, "send_keyboard_event() failed")
    }

    /// Reads what sending the pause key returned.
    pub fn send_keyboard_pause_event(&mut self, success: i32) -> (ret: Result<(), RdpError>)
        ensures
            is_outcome(ret, success != 0, "send_keyboard_pause_event() failed"@),
    {
        outcome(success != 0, "send_keyboard_pause_event() failed")
    }

    /// Reads what sending a Unicode keyboard event returned.
    pub fn send_unicode_keyboard_event(&mut self, success: i32) -> (ret: Result<(), RdpError>)
        ensures
            is_outcome(ret, success != 0, "send_unicode_keyboard_event() failed"@),
    {
        outcome(success != 0, "send_unicode_keyboard_event() failed")
    }

    /// Reads what sending a mouse event returned.
    pub fn send_mouse_event(&mut self, success: i32) -> (ret: Result<(), RdpError>)
        ensures
            is_outcome(ret, success != 0, "send_mouse_event() failed"@),
    {
        outcome(success != 0, "send_mouse_event() failed")
    }

    /// Reads what sending an extended mouse event returned.
    pub fn send_extended_mouse_event(&mut self, success: i32) -> (ret: Result<(), RdpError>)
        ensures
            is_outcome(ret, success != 0, "send_extended_mouse_event() failed"@),
    {
        outcome(success != 0, "send_extended_mouse_event() failed")
    }

    /// Reads what sending a focus-in event returned.
    pub fn send_focus_in_event(&mut self, success: i32) -> (ret: Result<(), RdpError>)
        ensures
            is_outcome(ret, success != 0, "send_focus_in_event() failed"@),
    {
        outcome(success != 0, "send_focus_in_event() failed")
    }

    /// The toggle keys in the form the focus-in event takes them: the low
    /// sixteen bits of the flags.
    pub fn focus_in_flags(flags: SyncFlags) -> (ret: u16)
        ensures
            ret == flags.spec_bits() as u16,
    {
        #[verifier::truncate]
        (flags.bits() as u16)
    }
}

} // verus!
