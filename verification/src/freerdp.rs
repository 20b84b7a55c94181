use vstd::prelude::*;

use crate::convention::{is_outcome, outcome};
use crate::error::RdpError;
use crate::native::NativeRef;
use crate::pixel_format::PixelFormat;

verus! {

/// One client instance of the native stack.
#[derive(Debug)]
pub struct FreeRdp {
    inner: NativeRef,
}

impl FreeRdp {
    /// The address of the native object.
    pub closed spec fn spec_as_ptr(&self) -> usize {
        self.inner.spec_addr()
    }

    /// Wraps the native object at `instance`.
    pub fn new(instance: usize) -> (ret: FreeRdp)
        requires
            instance != 0,
        ensures
            ret.spec_as_ptr() == instance,
    {
        FreeRdp { inner: NativeRef::new_unchecked(instance) }
    }

    #[verifier::when_used_as_spec(spec_as_ptr)]
    pub fn as_ptr(&self) -> (ret: usize)
        ensures
            ret == self.spec_as_ptr(),
            ret != 0,
    {
        self.inner.addr()
    }

    /// Reads what the native connect returned: a positive value is success.
    pub fn connect(&mut self, success: i32) -> (ret: Result<(), RdpError>)
        ensures
            is_outcome(ret, success > 0, "Failed to connect"@),
    {
        outcome(success > 0, "Failed to connect")
    }

    /// Reads what the native abort of a connection attempt returned.
    pub fn abort_connect(&mut self, success: i32) -> (ret: Result<(), RdpError>)
        ensures
            is_outcome(ret, success > 0, "Failed to abort connect"@),
    {
        outcome(success > 0, "Failed to abort connect")
    }

    /// Reads the native answer to "shall the session end": a positive value
    /// is yes.
    pub fn shall_disconnect(&mut self, answer: i32) -> (ret: bool)
        ensures
            ret == (answer > 0),
    {
        answer > 0
    }

    /// Reads what the native disconnect returned.
    pub fn disconnect(&mut self, success: i32) -> (ret: Result<(), RdpError>)
        ensures
            is_outcome(ret, success > 0, "Failed to disconnect"@),
    {
        outcome(success > 0, "Failed to disconnect")
    }

    /// Reads what the native reconnect returned.
    pub fn reconnect(&mut self, success: i32) -> (ret: Result<(), RdpError>)
        ensures
            is_outcome(ret, success > 0, "Failed to reconnect"@),
    {
        outcome(success > 0, "Failed to reconnect")
    }

    /// Reads what the native set-up of the drawing layer returned.
    pub fn gdi_init(&mut self, success: i32) -> (ret: Result<(), RdpError>)
        ensures
            is_outcome(ret, success > 0, "gdi_init() failed"@),
    {
        outcome(success > 0, "gdi_init() failed")
    }

    /// The word that tells the native drawing layer which pixel layout to
    /// use.
    pub fn gdi_format(format: &PixelFormat) -> (ret: u32)
        ensures
            ret == format.spec_code(),
    {
        u32::from(format)
    }
}

} // verus!
