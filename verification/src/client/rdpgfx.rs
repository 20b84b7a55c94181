use vstd::prelude::*;

use crate::native::NativeRef;

verus! {

/// The native context of a graphics pipeline channel.
#[derive(Debug)]
pub struct RdpgfxClientContext {
    inner: NativeRef,
}

impl RdpgfxClientContext {
    /// The address of the native object.
    pub closed spec fn spec_as_ptr(&self) -> usize {
        self.inner.spec_addr()
    }

    /// Wraps the native object at `ctxt`.
    pub fn from_ptr(ctxt: usize) -> (ret: RdpgfxClientContext)
        requires
            ctxt != 0,
        ensures
            ret.spec_as_ptr() == ctxt,
    {
        RdpgfxClientContext { inner: NativeRef::new_unchecked(ctxt) }
    }

    #[verifier::when_used_as_spec(spec_as_ptr)]
    pub fn as_ptr(&self) -> (ret: usize)
        ensures
            ret == self.spec_as_ptr(),
            ret != 0,
    {
        self.inner.addr()
    }
}

} // verus!
