use vstd::prelude::*;

use crate::native::NativeRef;
use crate::convention::cvt_errno;
use crate::error::RdpError;

verus! {

/// The native context of a touch input channel.
#[derive(Debug)]
pub struct RdpeiClientContext {
    inner: NativeRef,
}

impl RdpeiClientContext {
    /// The address of the native object.
    pub closed spec fn spec_as_ptr(&self) -> usize {
        self.inner.spec_addr()
    }

    /// Wraps the native object at `ctxt`.
    pub fn from_ptr(ctxt: usize) -> (ret: RdpeiClientContext)
        requires
            ctxt != 0,
        ensures
            ret.spec_as_ptr() == ctxt,
    {
        RdpeiClientContext { inner: NativeRef::new_unchecked(ctxt) }
    }

    #[verifier::when_used_as_spec(spec_as_ptr)]
    pub fn as_ptr(&self) -> (ret: usize)
        ensures
            ret == self.spec_as_ptr(),
            ret != 0,
    {
        self.inner.addr()
    }

    /// Reads what adding a contact returned: zero is success, any other value the error number.
    pub fn add_contact(&self, status: u32) -> (ret: Result<(), RdpError>)
        ensures
            status == 0 ==> ret is Ok,
            status != 0 ==> ret == Err::<(), RdpError>(RdpError::IOError(status as i32)),
    {
        cvt_errno(status)
    }

    /// Reads what the start of a touch returned: on success the identifier
    /// that the channel gave the contact.
    pub fn touch_begin(&self, status: u32, contact_id: i32) -> (ret: Result<i32, RdpError>)
        ensures
            status == 0 ==> ret == Ok::<i32, RdpError>(contact_id),
            status != 0 ==> ret == Err::<i32, RdpError>(RdpError::IOError(status as i32)),
    {
        match cvt_errno(status) {
            Ok(_) => Ok(contact_id),
            Err(e) => Err(e),
        }
    }

    /// Reads what the move of a touch returned: on success the identifier of the contact.
    pub fn touch_update(&self, status: u32, contact_id: i32) -> (ret: Result<i32, RdpError>)
        ensures
            status == 0 ==> ret == Ok::<i32, RdpError>(contact_id),
            status != 0 ==> ret == Err::<i32, RdpError>(RdpError::IOError(status as i32)),
    {
        match cvt_errno(status) {
            Ok(_) => Ok(contact_id),
            Err(e) => Err(e),
        }
    }

    /// Reads what the end of a touch returned: on success the identifier of the contact.
    pub fn touch_end(&self, status: u32, contact_id: i32) -> (ret: Result<i32, RdpError>)
        ensures
            status == 0 ==> ret == Ok::<i32, RdpError>(contact_id),
            status != 0 ==> ret == Err::<i32, RdpError>(RdpError::IOError(status as i32)),
    {
        match cvt_errno(status) {
            Ok(_) => Ok(contact_id),
            Err(e) => Err(e),
        }
    }

    /// Reads what suspending touch input returned.
    pub fn suspend_touch(&self, status: u32) -> (ret: Result<(), RdpError>)
        ensures
            status == 0 ==> ret is Ok,
            status != 0 ==> ret == Err::<(), RdpError>(RdpError::IOError(status as i32)),
    {
        cvt_errno(status)
    }

    /// Reads what resuming touch input returned.
    pub fn resume_touch(&self, status: u32) -> (ret: Result<(), RdpError>)
        ensures
            status == 0 ==> ret is Ok,
            status != 0 ==> ret == Err::<(), RdpError>(RdpError::IOError(status as i32)),
    {
        cvt_errno(status)
    }
}

/// One touch contact, field for field as the input channel sends it.
#[derive(Clone, Copy, Debug, PartialEq, Eq, Structural)]
pub struct Contact {
    pub contact_id: u32,
    pub fields_present: u32,
    pub x: i32,
    pub y: i32,
    pub contact_flags: u32,
    pub contact_rect_left: i32,
    pub contact_rect_top: i32,
    pub contact_rect_right: i32,
    pub contact_rect_bottom: i32,
    pub orientation: u32,
    pub pressure: u32,
}

} // verus!
