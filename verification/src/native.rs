use vstd::prelude::*;

verus! {

/// A reference to an object that lives on the native side: an address that is
/// never null, never computed with, and compared only for identity.
#[derive(Clone, Copy, Debug)]
pub struct NativeRef {
    addr: usize,
}

impl NativeRef {
    #[verifier::type_invariant]
    spec fn non_null(self) -> bool {
        self.addr != 0
    }

    /// The address that this reference stands for.
    pub closed spec fn spec_addr(&self) -> usize {
        self.addr
    }

    /// Wraps `addr`, unless it is the null address.
    pub fn new(addr: usize) -> (ret: Option<NativeRef>)
        ensures
            addr == 0 <==> ret is None,
            ret matches Some(r) ==> r.spec_addr() == addr,
    {
        if addr == 0 {
            None
        } else {
            Some(NativeRef { addr })
        }
    }

    /// Wraps an address that the caller knows not to be null.
    pub fn new_unchecked(addr: usize) -> (ret: NativeRef)
        requires
            addr != 0,
        ensures
            ret.spec_addr() == addr,
    {
        NativeRef { addr }
    }

    #[verifier::when_used_as_spec(spec_addr)]
    pub fn addr(&self) -> (ret: usize)
        ensures
            ret == self.spec_addr(),
            ret != 0,
    {
        proof {
            use_type_invariant(self);
        }
        self.addr
    }

    /// Identity: two references are the same when they hold the same address.
    pub fn same_as(&self, other: &NativeRef) -> (ret: bool)
        ensures
            ret == (self.spec_addr() == other.spec_addr()),
    {
        self.addr == other.addr
    }
}

} // verus!
