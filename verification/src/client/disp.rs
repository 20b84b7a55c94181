use vstd::prelude::*;

use crate::native::NativeRef;
use crate::channels::disp::MonitorLayout;
use crate::convention::cvt_errno;
use crate::error::RdpError;

verus! {

/// The native context of a display control channel.
#[derive(Debug)]
pub struct DispClientContext {
    inner: NativeRef,
}

impl DispClientContext {
    /// The address of the native object.
    pub closed spec fn spec_as_ptr(&self) -> usize {
        self.inner.spec_addr()
    }

    /// Wraps the native object at `ctxt`.
    pub fn from_ptr(ctxt: usize) -> (ret: DispClientContext)
        requires
            ctxt != 0,
        ensures
            ret.spec_as_ptr() == ctxt,
    {
        DispClientContext { inner: NativeRef::new_unchecked(ctxt) }
    }

    #[verifier::when_used_as_spec(spec_as_ptr)]
    pub fn as_ptr(&self) -> (ret: usize)
        ensures
            ret == self.spec_as_ptr(),
            ret != 0,
    {
        self.inner.addr()
    }

    /// The number of monitors as the native call counts them, in 32 bits.
    pub fn monitor_count(monitors: &[MonitorLayout]) -> (ret: u32)
        ensures
            ret == monitors@.len() as u32,
    {
        #[verifier::truncate]
        (monitors.len() as u32)
    }

    /// Reads what sending the monitor layout returned: zero is success, any
    /// other value the error number.
    pub fn send_monitor_layout(&mut self, status: u32) -> (ret: Result<(), RdpError>)
        ensures
            status == 0 ==> ret is Ok,
            status != 0 ==> ret == Err::<(), RdpError>(RdpError::IOError(status as i32)),
    {
        cvt_errno(status)
    }
}

} // verus!
