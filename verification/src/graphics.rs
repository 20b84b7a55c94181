use vstd::prelude::*;

use crate::client::context::{Context, Handler};
use crate::convention::{outcome, Slot};
use crate::error::RdpError;
use crate::native::NativeRef;

verus! {

/// A mouse pointer on the native side.
#[derive(Debug)]
pub struct Pointer {
    inner: NativeRef,
}

impl Pointer {
    /// The address of the native object.
    pub closed spec fn spec_as_ptr(&self) -> usize {
        self.inner.spec_addr()
    }

    /// Wraps the native object at `pointer`.
    pub fn new(pointer: usize) -> (ret: Pointer)
        requires
            pointer != 0,
        ensures
            ret.spec_as_ptr() == pointer,
    {
        Pointer { inner: NativeRef::new_unchecked(pointer) }
    }

    #[verifier::when_used_as_spec(spec_as_ptr)]
    pub fn as_ptr(&self) -> (ret: usize)
        ensures
            ret == self.spec_as_ptr(),
            ret != 0,
    {
        self.inner.addr()
    }

    /// The length in bytes of the pointer's image once it is decoded to four
    /// bytes a pixel.
    pub fn data_len(width: u32, height: u32) -> (ret: usize)
        requires
            height * width * 4 <= u32::MAX,
        ensures
            ret == height * width * 4,
    {
        assert(height * width <= u32::MAX) by (nonlinear_arith)
            requires
                height * width * 4 <= u32::MAX,
                height >= 0,
                width >= 0,
        ;
        (height * width * 4) as usize
    }

    /// The length in bytes of one row of the decoded image.
    pub fn data_stride(width: u32) -> (ret: u32)
        requires
            width * 4 <= u32::MAX,
        ensures
            ret == width * 4,
    {
        width * 4
    }

    /// A buffer for the decoded image of a pointer that is `width` pixels wide
    /// and `height` high: four bytes a pixel, all of them zero.
    pub fn data_buffer(width: u32, height: u32) -> (ret: Vec<u8>)
        requires
            height * width * 4 <= u32::MAX,
        ensures
            ret@.len() == height * width * 4,
            forall|i: int| 0 <= i < ret@.len() ==> ret@[i] == 0,
    {
        let len = Pointer::data_len(width, height);
        let mut buffer: Vec<u8> = Vec::new();
        while buffer.len() < len
            invariant
                buffer@.len() <= len,
                forall|i: int| 0 <= i < buffer@.len() ==> buffer@[i] == 0,
            decreases len - buffer@.len(),
        {
            buffer.push(0u8);
        }
        buffer
    }

    /// The decoded image of a pointer that is `width` pixels wide and
    /// `height` high, from what the native decoder returned and the buffer
    /// that it was given to write to: on success the buffer as it is now,
    /// four bytes a pixel; else the failure.
    pub fn data(&self, width: u32, height: u32, success: i32, buffer: Vec<u8>) -> (ret: Result<
        Vec<u8>,
        RdpError,
    >)
        requires
            height * width * 4 <= u32::MAX,
            buffer@.len() == height * width * 4,
        ensures
            match ret {
                Ok(image) => {
                    &&& success != 0
                    &&& image == buffer
                    &&& image@.len() == height * width * 4
                },
                Err(e) => {
                    &&& success == 0
                    &&& e matches RdpError::Failed(m)
                    &&& m@ == "freerdp_image_copy_from_pointer_data() failed"@
                },
            },
    {
        match outcome(success != 0, "freerdp_image_copy_from_pointer_data() failed") {
            Ok(_) => Ok(buffer),
            Err(e) => Err(e),
        }
    }
}

/// What an application implements to draw the mouse pointer. Every method
/// succeeds without doing anything unless it is overridden.
pub trait PointerHandler: Sized {
    type ContextHandler: Handler;

    fn new(
        &mut self,
        _context: &mut Context<Self::ContextHandler>,
        _pointer: &Pointer,
    ) -> (ret: Result<(), RdpError>)
        default_ensures
            ret is Ok,
            *final(self) == *old(self),
            *final(_context) == *old(_context),
    {
        Ok(())
    }

    fn free(&mut self, _context: &mut Context<Self::ContextHandler>, _pointer: &Pointer)
        default_ensures
            *final(self) == *old(self),
            *final(_context) == *old(_context),
    {
    }

    fn set(
        &mut self,
        _context: &mut Context<Self::ContextHandler>,
        _pointer: &Pointer,
    ) -> (ret: Result<(), RdpError>)
        default_ensures
            ret is Ok,
            *final(self) == *old(self),
            *final(_context) == *old(_context),
    {
        Ok(())
    }

    fn set_null(_context: &mut Context<Self::ContextHandler>) -> (ret: Result<(), RdpError>)
        default_ensures
            ret is Ok,
            *final(_context) == *old(_context),
    {
        Ok(())
    }

    fn set_default(_context: &mut Context<Self::ContextHandler>) -> (ret: Result<(), RdpError>)
        default_ensures
            ret is Ok,
            *final(_context) == *old(_context),
    {
        Ok(())
    }

    fn set_position(_context: &mut Context<Self::ContextHandler>, _x: u32, _y: u32) -> (ret: Result<
        (),
        RdpError,
    >)
        default_ensures
            ret is Ok,
            *final(_context) == *old(_context),
    {
        Ok(())
    }
}

/// The graphics module of a session: pointers are registered here.
#[derive(Debug)]
pub struct Graphics {
    inner: NativeRef,
}

impl Graphics {
    /// The address of the native object.
    pub closed spec fn spec_as_ptr(&self) -> usize {
        self.inner.spec_addr()
    }

    /// Wraps the native object at `graphics`.
    pub fn new(graphics: usize) -> (ret: Graphics)
        requires
            graphics != 0,
        ensures
            ret.spec_as_ptr() == graphics,
    {
        Graphics { inner: NativeRef::new_unchecked(graphics) }
    }

    #[verifier::when_used_as_spec(spec_as_ptr)]
    pub fn as_ptr(&self) -> (ret: usize)
        ensures
            ret == self.spec_as_ptr(),
            ret != 0,
    {
        self.inner.addr()
    }
}

/// Forwards "a pointer was made" to the handler that lives with the pointer
/// at `pointer`: the handler and the context are handed over as they are and
/// come back as the call left them, and the answer is the truth value of the
/// handler's outcome. A null pointer fails without the handler.
pub fn rdp_pointer_new<H: PointerHandler>(
    context: &mut Context<H::ContextHandler>,
    handler: &mut H,
    pointer: usize,
) -> (ret: i32)
    ensures
        pointer == 0 ==> {
            &&& ret == 0
            &&& *final(context) == *old(context)
            &&& *final(handler) == *old(handler)
        },
        pointer != 0 ==> exists|
            h: &mut H,
            c: &mut Context<H::ContextHandler>,
            wrapped: Pointer,
            outcome: Result<(), RdpError>,
        |
            {
                &&& mut_ref_current(h) == *old(handler)
                &&& mut_ref_future(h) == *final(handler)
                &&& mut_ref_current(c) == *old(context)
                &&& mut_ref_future(c) == *final(context)
                &&& wrapped.spec_as_ptr() == pointer
                &&& #[trigger] call_ensures(H::new, (h, c, &wrapped), outcome)
                &&& ret == Slot::PointerNew.reports(outcome is Ok)
            },
{
    if pointer == 0 {
        return 0;
    }
    let wrapped = Pointer::new(pointer);
    let outcome = handler.new(context, &wrapped);
    Slot::PointerNew.native_return(&outcome) as i32
}

/// Forwards "the pointer goes away" to the handler that lives with the
/// pointer at `pointer`. Nothing happens for a null pointer.
pub fn rdp_pointer_free<H: PointerHandler>(
    context: &mut Context<H::ContextHandler>,
    handler: &mut H,
    pointer: usize,
)
    ensures
        pointer == 0 ==> *final(context) == *old(context) && *final(handler) == *old(handler),
        pointer != 0 ==> exists|
            h: &mut H,
            c: &mut Context<H::ContextHandler>,
            wrapped: Pointer,
            outcome: (),
        |
            {
                &&& mut_ref_current(h) == *old(handler)
                &&& mut_ref_future(h) == *final(handler)
                &&& mut_ref_current(c) == *old(context)
                &&& mut_ref_future(c) == *final(context)
                &&& wrapped.spec_as_ptr() == pointer
                &&& #[trigger] call_ensures(H::free, (h, c, &wrapped), outcome)
            },
{
    if pointer != 0 {
        let wrapped = Pointer::new(pointer);
        handler.free(context, &wrapped);
    }
}

/// Forwards "show this pointer" to the handler that lives with the pointer
/// at `pointer`, and answers with the truth value of its outcome. A null
/// pointer fails without the handler.
pub fn rdp_pointer_set<H: PointerHandler>(
    context: &mut Context<H::ContextHandler>,
    handler: &mut H,
    pointer: usize,
) -> (ret: i32)
    ensures
        pointer == 0 ==> {
            &&& ret == 0
            &&& *final(context) == *old(context)
            &&& *final(handler) == *old(handler)
        },
        pointer != 0 ==> exists|
            h: &mut H,
            c: &mut Context<H::ContextHandler>,
            wrapped: Pointer,
            outcome: Result<(), RdpError>,
        |
            {
                &&& mut_ref_current(h) == *old(handler)
                &&& mut_ref_future(h) == *final(handler)
                &&& mut_ref_current(c) == *old(context)
                &&& mut_ref_future(c) == *final(context)
                &&& wrapped.spec_as_ptr() == pointer
                &&& #[trigger] call_ensures(H::set, (h, c, &wrapped), outcome)
                &&& ret == Slot::PointerSet.reports(outcome is Ok)
            },
{
    if pointer == 0 {
        return 0;
    }
    let wrapped = Pointer::new(pointer);
    let outcome = handler.set(context, &wrapped);
    Slot::PointerSet.native_return(&outcome) as i32
}

/// Forwards "hide the pointer" to the handler type, and answers with the
/// truth value of its outcome.
pub fn rdp_pointer_set_null<H: PointerHandler>(
    context: &mut Context<H::ContextHandler>,
) -> (ret: i32)
    ensures
        exists|c: &mut Context<H::ContextHandler>, outcome: Result<(), RdpError>|
            {
                &&& mut_ref_current(c) == *old(context)
                &&& mut_ref_future(c) == *final(context)
                &&& #[trigger] call_ensures(H::set_null, (c,), outcome)
                &&& ret == Slot::PointerSetNull.reports(outcome is Ok)
            },
{
    let outcome = H::set_null(context);
    Slot::PointerSetNull.native_return(&outcome) as i32
}

/// Forwards "show the default pointer" to the handler type, and answers with
/// the truth value of its outcome.
pub fn rdp_pointer_set_default<H: PointerHandler>(
    context: &mut Context<H::ContextHandler>,
) -> (ret: i32)
    ensures
        exists|c: &mut Context<H::ContextHandler>, outcome: Result<(), RdpError>|
            {
                &&& mut_ref_current(c) == *old(context)
                &&& mut_ref_future(c) == *final(context)
                &&& #[trigger] call_ensures(H::set_default, (c,), outcome)
                &&& ret == Slot::PointerSetDefault.reports(outcome is Ok)
            },
{
    let outcome = H::set_default(context);
    Slot::PointerSetDefault.native_return(&outcome) as i32
}

/// Forwards "move the pointer" to the handler type, and answers with the
/// truth value of its outcome.
pub fn rdp_pointer_set_position<H: PointerHandler>(
    context: &mut Context<H::ContextHandler>,
    x: u32,
    y: u32,
) -> (ret: i32)
    ensures
        exists|c: &mut Context<H::ContextHandler>, outcome: Result<(), RdpError>|
            {
                &&& mut_ref_current(c) == *old(context)
                &&& mut_ref_future(c) == *final(context)
                &&& #[trigger] call_ensures(H::set_position, (c, x, y), outcome)
                &&& ret == Slot::PointerSetPosition.reports(outcome is Ok)
            },
{
    let outcome = H::set_position(context, x, y);
    Slot::PointerSetPosition.native_return(&outcome) as i32
}

} // verus!
