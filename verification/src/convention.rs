use vstd::prelude::*;

use crate::error::RdpError;

verus! {

/// How a native callback slot wants success reported.
#[derive(Clone, Copy, Debug, PartialEq, Eq, Structural)]
pub enum Convention {
    /// Zero means success, any other value failure.
    ZeroOnSuccess,
    /// A truth value: non-zero means success, zero failure.
    TrueOnSuccess,
}

impl Convention {
    /// The value that reports `ok` under this convention.
    pub open spec fn spec_encode(&self, ok: bool) -> u32 {
        match self {
            Convention::ZeroOnSuccess => if ok { 0 } else { 1 },
            Convention::TrueOnSuccess => if ok { 1 } else { 0 },
        }
    }

    /// Whether `value`, read under this convention, reports success.
    pub open spec fn spec_succeeded(&self, value: u32) -> bool {
        match self {
            Convention::ZeroOnSuccess => value == 0,
            Convention::TrueOnSuccess => value != 0,
        }
    }

    #[verifier::when_used_as_spec(spec_encode)]
    pub fn encode(&self, ok: bool) -> (ret: u32)
        ensures
            ret == self.spec_encode(ok),
            self.spec_succeeded(ret) == ok,
    {
        match self {
            Convention::ZeroOnSuccess => if ok { 0 } else { 1 },
            Convention::TrueOnSuccess => if ok { 1 } else { 0 },
        }
    }

    #[verifier::when_used_as_spec(spec_succeeded)]
    pub fn succeeded(&self, value: u32) -> (ret: bool)
        ensures
            ret == self.spec_succeeded(value),
    {
        match self {
            Convention::ZeroOnSuccess => value == 0,
            Convention::TrueOnSuccess => value != 0,
        }
    }
}

/// The callback slots of the native function-pointer tables that this
/// library fills and that report success or failure. The client's start and
/// stop are not among them: they hand back a number that the handler
/// chooses, see `exit_code`.
#[derive(Clone, Copy, Debug, PartialEq, Eq, Structural)]
pub enum Slot {
    GlobalInit,
    ClientNew,
    PreConnect,
    PostConnect,
    Authenticate,
    PresentGatewayMessage,
    BeginPaint,
    EndPaint,
    SetBounds,
    Synchronize,
    DesktopResize,
    PointerNew,
    PointerSet,
    PointerSetNull,
    PointerSetDefault,
    PointerSetPosition,
    MonitorReady,
    ServerCapabilities,
    ServerFormatList,
    ServerFormatListResponse,
    ServerFormatDataRequest,
    ServerFormatDataResponse,
    ParticipantCreated,
}

impl Slot {
    /// The convention of this slot: the channel callbacks report an error
    /// number, all others a truth value.
    pub open spec fn spec_convention(&self) -> Convention {
        match self {
            Slot::MonitorReady
            | Slot::ServerCapabilities
            | Slot::ServerFormatList
            | Slot::ServerFormatListResponse
            | Slot::ServerFormatDataRequest
            | Slot::ServerFormatDataResponse
            | Slot::ParticipantCreated => Convention::ZeroOnSuccess,
            _ => Convention::TrueOnSuccess,
        }
    }

    #[verifier::when_used_as_spec(spec_convention)]
    pub fn convention(&self) -> (ret: Convention)
        ensures
            ret == self.spec_convention(),
    {
        match self {
            Slot::MonitorReady
            | Slot::ServerCapabilities
            | Slot::ServerFormatList
            | Slot::ServerFormatListResponse
            | Slot::ServerFormatDataRequest
            | Slot::ServerFormatDataResponse
            | Slot::ParticipantCreated => Convention::ZeroOnSuccess,
            _ => Convention::TrueOnSuccess,
        }
    }

    /// The value that reports `ok` in this slot.
    pub open spec fn reports(&self, ok: bool) -> u32 {
        self.spec_convention().spec_encode(ok)
    }

    /// What a trampoline in this slot hands back to the native caller for a
    /// handler's outcome: success and failure never share a value, and the
    /// value is the one the slot's convention names.
    pub fn native_return<T>(&self, outcome: &Result<T, RdpError>) -> (ret: u32)
        ensures
            ret == self.reports(outcome is Ok),
            ret == self.spec_convention().spec_encode(outcome is Ok),
            self.spec_convention().spec_succeeded(ret) == (outcome is Ok),
    {
        self.convention().encode(outcome.is_ok())
    }
}

/// What the client's start and stop slots hand back: zero on success, and on
/// failure the number that the handler chose.
pub open spec fn spec_exit_code(outcome: Result<(), i32>) -> i32 {
    match outcome {
        Ok(_) => 0,
        Err(e) => e,
    }
}

#[verifier::when_used_as_spec(spec_exit_code_of)]
pub fn exit_code(outcome: &Result<(), i32>) -> (ret: i32)
    ensures
        ret == spec_exit_code(*outcome),
{
    match outcome {
        Ok(_) => 0,
        Err(e) => *e,
    }
}

pub open spec fn spec_exit_code_of(outcome: &Result<(), i32>) -> i32 {
    spec_exit_code(*outcome)
}

/// Reads the status of a native call that reports zero on success: any other
/// value is the operating system's error number.
pub fn cvt_errno(status: u32) -> (ret: Result<(), RdpError>)
    ensures
        status == 0 ==> ret is Ok,
        status != 0 ==> ret == Err::<(), RdpError>(RdpError::IOError(status as i32)),
{
    if status == 0 {
        Ok(())
    } else {
        Err(RdpError::IOError(#[verifier::truncate] (status as i32)))
    }
}

/// Whether `ret` reports `ok`: success as it is, failure with `message`.
pub open spec fn is_outcome(ret: Result<(), RdpError>, ok: bool, message: Seq<char>) -> bool {
    if ok {
        ret is Ok
    } else {
        ret matches Err(RdpError::Failed(m)) && m@ == message
    }
}

/// Turns the success of a native call into a result: a failure carries
/// `message`.
pub fn outcome(ok: bool, message: &str) -> (ret: Result<(), RdpError>)
    ensures
        is_outcome(ret, ok, message@),
{
    if ok {
        Ok(())
    } else {
        Err(RdpError::Failed(message.to_owned()))
    }
}

} // verus!
