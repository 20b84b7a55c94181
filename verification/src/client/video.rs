use vstd::prelude::*;

use crate::native::NativeRef;

verus! {

/// The native context of a geometry tracking channel.
#[derive(Debug)]
pub struct GeometryClientContext {
    inner: NativeRef,
}

impl GeometryClientContext {
    /// The address of the native object.
    pub closed spec fn spec_as_ptr(&self) -> usize {
        self.inner.spec_addr()
    }

    /// Wraps the native object at `ctxt`.
    pub fn from_ptr(ctxt: usize) -> (ret: GeometryClientContext)
        requires
            ctxt != 0,
        ensures
            ret.spec_as_ptr() == ctxt,
    {
        GeometryClientContext { inner: NativeRef::new_unchecked(ctxt) }
    }

    #[verifier::when_used_as_spec(spec_as_ptr)]
    pub fn as_ptr(&self) -> (ret: usize)
        ensures
            ret == self.spec_as_ptr(),
            ret != 0,
    {
        self.inner.addr()
    }
}

/// The native context of a video channel.
#[derive(Debug)]
pub struct VideoClientContext {
    inner: NativeRef,
}

impl VideoClientContext {
    /// The address of the native object.
    pub closed spec fn spec_as_ptr(&self) -> usize {
        self.inner.spec_addr()
    }

    /// Wraps the native object at `ctxt`.
    pub fn from_ptr(ctxt: usize) -> (ret: VideoClientContext)
        requires
            ctxt != 0,
        ensures
            ret.spec_as_ptr() == ctxt,
    {
        VideoClientContext { inner: NativeRef::new_unchecked(ctxt) }
    }

    #[verifier::when_used_as_spec(spec_as_ptr)]
    pub fn as_ptr(&self) -> (ret: usize)
        ensures
            ret == self.spec_as_ptr(),
            ret != 0,
    {
        self.inner.addr()
    }
}

} // verus!
