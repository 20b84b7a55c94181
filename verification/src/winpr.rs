use vstd::prelude::*;

use crate::bits::masked_has_no_other_bits_u32;
use crate::error::RdpError;

verus! {

/// The most wait objects that one wait can take.
pub const MAX_WAIT_OBJECTS: usize = 64;

/// The timeout that never ends.
pub const INFINITE: u32 = 0xFFFF_FFFF;

/// Status of a wait that ended because the first object was signalled.
pub const WAIT_OBJECT_0: u32 = 0;

/// Status of a wait that ended because the first object was abandoned.
pub const WAIT_ABANDONED: u32 = 128;

/// Status of a wait that ran out of time.
pub const WAIT_TIMEOUT: u32 = 258;

/// Status of a wait that failed.
pub const WAIT_FAILED: u32 = 0xFFFF_FFFF;

/// A waitable object of the operating system, by its raw handle. The handle
/// may be null; `owned` says whether this value is to close it.
#[derive(Clone, Debug)]
pub struct Handle {
    handle: usize,
    owned: bool,
}

impl Default for Handle {
    fn default() -> (ret: Handle)
        ensures
            ret.spec_as_raw() == 0,
            !ret.spec_owned(),
    {
        Handle { handle: 0, owned: false }
    }
}

/// How a wait ended.
#[derive(Clone, Copy, Debug, PartialEq, Eq, Structural)]
pub enum WaitResult {
    /// The object with this index was signalled.
    Object(u32),
    /// The object with this index was abandoned by its owner.
    Abandoned(u32),
    /// The time ran out.
    Timeout,
}

/// The readiness of a file descriptor that an event waits for.
#[derive(Clone, Copy, Debug, PartialEq, Eq, Structural)]
pub struct FdMode {
    bits: u32,
}

impl FdMode {
    /// The descriptor can be read from.
    pub const READ: u32 = 0x00000001;

    /// The descriptor can be written to.
    pub const WRITE: u32 = 0x00000002;

    /// Every bit that has a meaning.
    pub const ALL: u32 = 0x00000003;

    #[verifier::type_invariant]
    spec fn known_bits_only(self) -> bool {
        self.bits & !FdMode::ALL == 0
    }

    /// The bits that are set.
    pub closed spec fn spec_bits(&self) -> u32 {
        self.bits
    }

    /// The set with no bit in it.
    pub fn empty() -> (ret: FdMode)
        ensures
            ret.spec_bits() == 0,
    {
        proof {
            masked_has_no_other_bits_u32(0, FdMode::ALL);
        }
        FdMode { bits: 0 }
    }

    /// The set of all bits that have a meaning.
    pub fn all() -> (ret: FdMode)
        ensures
            ret.spec_bits() == FdMode::ALL,
    {
        proof {
            masked_has_no_other_bits_u32(0, FdMode::ALL);
        }
        FdMode::from_bits_truncate(FdMode::ALL)
    }

    #[verifier::when_used_as_spec(spec_bits)]
    pub fn bits(&self) -> (ret: u32)
        ensures
            ret == self.spec_bits(),
            ret & !FdMode::ALL == 0,
    {
        proof {
            use_type_invariant(self);
        }
        self.bits
    }

    /// The set that `bits` spells, unless a bit without a meaning is among
    /// them.
    pub fn from_bits(bits: u32) -> (ret: Option<FdMode>)
        ensures
            ret is Some <==> bits & !FdMode::ALL == 0,
            ret matches Some(f) ==> f.spec_bits() == bits,
    {
        if bits & !FdMode::ALL == 0 {
            Some(FdMode { bits })
        } else {
            None
        }
    }

    /// The set that `bits` spells once every bit without a meaning is
    /// dropped.
    pub fn from_bits_truncate(bits: u32) -> (ret: FdMode)
        ensures
            ret.spec_bits() == bits & FdMode::ALL,
    {
        proof {
            masked_has_no_other_bits_u32(bits, FdMode::ALL);
        }
        FdMode { bits: bits & FdMode::ALL }
    }

    /// Whether every bit of `mask` is set.
    pub fn contains(&self, mask: u32) -> (ret: bool)
        ensures
            ret == (self.spec_bits() & mask == mask),
    {
        self.bits & mask == mask
    }
}

/// Security attributes of a new object, field for field.
#[derive(Clone, Copy, Debug)]
pub struct SecurityAttributes {
    pub length: u32,
    pub security_descriptor: usize,
    pub inherit_handle: i32,
}

/// What is handed to the native side to make an event out of a file
/// descriptor.
#[derive(Clone, Copy, Debug, PartialEq, Eq, Structural)]
pub struct FdEvent {
    pub manual_reset: i32,
    pub initial_state: i32,
    pub file_descriptor: i32,
    pub mode: u32,
}

impl FdEvent {
    /// The arguments for an event on `fd`. Security attributes are not
    /// supported: the list has to be empty.
    pub fn new(
        event_attributes: &[SecurityAttributes],
        manual_reset: bool,
        initial_state: bool,
        fd: i32,
        mode: FdMode,
    ) -> (ret: FdEvent)
        requires
            event_attributes@.len() == 0,
        ensures
            ret == (FdEvent {
                manual_reset: if manual_reset {
                    1i32
                } else {
                    0i32
                },
                initial_state: if initial_state {
                    1i32
                } else {
                    0i32
                },
                file_descriptor: fd,
                mode: mode.spec_bits(),
            }),
    {
        FdEvent {
            manual_reset: if manual_reset {
                1
            } else {
                0
            },
            initial_state: if initial_state {
                1
            } else {
                0
            },
            file_descriptor: fd,
            mode: mode.bits(),
        }
    }
}

impl Handle {
    pub closed spec fn spec_as_raw(&self) -> usize {
        self.handle
    }

    pub closed spec fn spec_owned(&self) -> bool {
        self.owned
    }

    /// Wraps a raw handle.
    pub fn new(handle: usize, owned: bool) -> (ret: Handle)
        ensures
            ret.spec_as_raw() == handle,
            ret.spec_owned() == owned,
    {
        Handle { handle, owned }
    }

    #[verifier::when_used_as_spec(spec_as_raw)]
    pub fn as_raw(&self) -> (ret: usize)
        ensures
            ret == self.spec_as_raw(),
    {
        self.handle
    }

    /// Whether the handle is to be closed when this value goes away.
    #[verifier::when_used_as_spec(spec_owned)]
    pub fn owned(&self) -> (ret: bool)
        ensures
            ret == self.spec_owned(),
    {
        self.owned
    }

    /// Reads the status of a wait on this one handle.
    pub fn wait(&self, status: u32, last_error: i32) -> (ret: Result<WaitResult, RdpError>)
        ensures
            spec_single_object_result(status, last_error, ret),
    {
        wait_for_single_object(status, last_error)
    }
}

/// The timeout in the form the native wait takes it: milliseconds in 32
/// bits, higher bits dropped, and `INFINITE` where there is no timeout.
pub fn timeout_millis(timeout: Option<u128>) -> (ret: u32)
    ensures
        ret == match timeout {
            Some(t) => t as u32,
            None => INFINITE,
        },
{
    match timeout {
        Some(t) => #[verifier::truncate]
        (t as u32),
        None => INFINITE,
    }
}

/// The character of one hexadecimal digit.
pub open spec fn hex_digit(d: nat) -> char {
    if d == 0 {
        '0'
    } else if d == 1 {
        '1'
    } else if d == 2 {
        '2'
    } else if d == 3 {
        '3'
    } else if d == 4 {
        '4'
    } else if d == 5 {
        '5'
    } else if d == 6 {
        '6'
    } else if d == 7 {
        '7'
    } else if d == 8 {
        '8'
    } else if d == 9 {
        '9'
    } else if d == 10 {
        'a'
    } else if d == 11 {
        'b'
    } else if d == 12 {
        'c'
    } else if d == 13 {
        'd'
    } else if d == 14 {
        'e'
    } else {
        'f'
    }
}

/// A number in hexadecimal: lower case, no prefix, no leading zero.
pub open spec fn lower_hex(v: nat) -> Seq<char>
    decreases v,
{
    if v < 16 {
        seq![hex_digit(v)]
    } else {
        lower_hex(v / 16).push(hex_digit(v % 16))
    }
}

/// The message for a wait status that has no meaning here.
pub open spec fn unhandled_message(status: u32) -> Seq<char> {
    "Unhandled WaitForMultipleObjects() return: "@ + lower_hex(status as nat)
}

/// Trusted: formats with the standard library's `format!` and `{:x}`, which
/// writes an integer in lower-case hexadecimal without prefix or padding.
#[verifier::external_body]
fn unhandled(status: u32) -> (ret: String)
    ensures
        ret@ == unhandled_message(status),
{
    format!("Unhandled WaitForMultipleObjects() return: {:x}", status)
}

/// Whether `ret` is what the status of a wait on `count` objects means. A
/// status below `count` names the object that was signalled; one from
/// `WAIT_ABANDONED` on, less than `count` above it, names the object that was
/// abandoned, and the first reading wins where both fit. A failed wait
/// carries the operating system's last error; a status without a meaning
/// here is reported by its number.
pub open spec fn spec_multiple_objects_result(
    status: u32,
    count: u32,
    last_error: i32,
    ret: Result<WaitResult, RdpError>,
) -> bool {
    if status < count {
        ret == Ok::<WaitResult, RdpError>(WaitResult::Object(status))
    } else if WAIT_ABANDONED <= status < WAIT_ABANDONED + count {
        ret == Ok::<WaitResult, RdpError>(WaitResult::Abandoned((status - WAIT_ABANDONED) as u32))
    } else if status == WAIT_TIMEOUT {
        ret == Ok::<WaitResult, RdpError>(WaitResult::Timeout)
    } else if status == WAIT_FAILED {
        ret == Err::<WaitResult, RdpError>(RdpError::IOError(last_error))
    } else {
        ret matches Err(RdpError::Failed(m)) && m@ == unhandled_message(status)
    }
}

/// Whether `ret` is what the status of a wait on a single object means.
pub open spec fn spec_single_object_result(
    status: u32,
    last_error: i32,
    ret: Result<WaitResult, RdpError>,
) -> bool {
    if status == WAIT_OBJECT_0 {
        ret == Ok::<WaitResult, RdpError>(WaitResult::Object(0))
    } else if status == WAIT_ABANDONED {
        ret == Ok::<WaitResult, RdpError>(WaitResult::Abandoned(0))
    } else if status == WAIT_TIMEOUT {
        ret == Ok::<WaitResult, RdpError>(WaitResult::Timeout)
    } else if status == WAIT_FAILED {
        ret == Err::<WaitResult, RdpError>(RdpError::IOError(last_error))
    } else {
        ret matches Err(RdpError::Failed(m)) && m@ == unhandled_message(status)
    }
}

/// Reads the status that a wait on `count` objects returned. `last_error` is
/// the operating system's last error, looked at only if the wait failed.
pub fn wait_for_multiple_objects(status: u32, count: u32, last_error: i32) -> (ret: Result<
    WaitResult,
    RdpError,
>)
    ensures
        spec_multiple_objects_result(status, count, last_error, ret),
{
    if status < count {
        Ok(WaitResult::Object(status))
    } else if status >= WAIT_ABANDONED && status - WAIT_ABANDONED < count {
        Ok(WaitResult::Abandoned(status - WAIT_ABANDONED))
    } else if status == WAIT_TIMEOUT {
        Ok(WaitResult::Timeout)
    } else if status == WAIT_FAILED {
        Err(RdpError::IOError(last_error))
    } else {
        Err(RdpError::Failed(unhandled(status)))
    }
}

/// Reads the status that a wait on a single object returned.
pub fn wait_for_single_object(status: u32, last_error: i32) -> (ret: Result<WaitResult, RdpError>)
    ensures
        spec_single_object_result(status, last_error, ret),
{
    if status == WAIT_OBJECT_0 {
        Ok(WaitResult::Object(WAIT_OBJECT_0))
    } else if status == WAIT_ABANDONED {
        Ok(WaitResult::Abandoned(0))
    } else if status == WAIT_TIMEOUT {
        Ok(WaitResult::Timeout)
    } else if status == WAIT_FAILED {
        Err(RdpError::IOError(last_error))
    } else {
        Err(RdpError::Failed(unhandled(status)))
    }
}

} // verus!
