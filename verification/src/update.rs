use vstd::prelude::*;

use crate::client::context::{Context, Handler};
use crate::convention::Slot;
use crate::error::RdpError;
use crate::native::NativeRef;

verus! {

/// The update module of a session: drawing callbacks are registered here.
#[derive(Debug)]
pub struct Update {
    inner: NativeRef,
}

impl Update {
    /// The address of the native object.
    pub closed spec fn spec_as_ptr(&self) -> usize {
        self.inner.spec_addr()
    }

    /// Wraps the native object at `update`.
    pub fn new(update: usize) -> (ret: Update)
        requires
            update != 0,
        ensures
            ret.spec_as_ptr() == update,
    {
        Update { inner: NativeRef::new_unchecked(update) }
    }

    #[verifier::when_used_as_spec(spec_as_ptr)]
    pub fn as_ptr(&self) -> (ret: usize)
        ensures
            ret == self.spec_as_ptr(),
            ret != 0,
    {
        self.inner.addr()
    }
}

/// What an application implements to follow the drawing of the session.
/// Every method succeeds without doing anything unless it is overridden.
pub trait UpdateHandler {
    type ContextHandler: Handler;

    fn begin_paint(_context: &mut Context<Self::ContextHandler>) -> (ret: Result<(), RdpError>)
        default_ensures
            ret is Ok,
            *final(_context) == *old(_context),
    {
        Ok(())
    }

    fn end_paint(_context: &mut Context<Self::ContextHandler>) -> (ret: Result<(), RdpError>)
        default_ensures
            ret is Ok,
            *final(_context) == *old(_context),
    {
        Ok(())
    }

    fn set_bounds(_context: &mut Context<Self::ContextHandler>, _bounds: &Bounds) -> (ret: Result<
        (),
        RdpError,
    >)
        default_ensures
            ret is Ok,
            *final(_context) == *old(_context),
    {
        Ok(())
    }

    fn synchronize(_context: &mut Context<Self::ContextHandler>) -> (ret: Result<(), RdpError>)
        default_ensures
            ret is Ok,
            *final(_context) == *old(_context),
    {
        Ok(())
    }

    fn desktop_resize(_context: &mut Context<Self::ContextHandler>) -> (ret: Result<(), RdpError>)
        default_ensures
            ret is Ok,
            *final(_context) == *old(_context),
    {
        Ok(())
    }
}

/// Forwards "painting begins" to the handler type. The context is handed to
/// the handler as it is and comes back as the handler left it; the answer is
/// the truth value of the handler's outcome.
pub fn rdp_update_begin_paint<H: UpdateHandler>(
    context: &mut Context<H::ContextHandler>,
) -> (ret: i32)
    ensures
        exists|c: &mut Context<H::ContextHandler>, outcome: Result<(), RdpError>|
            {
                &&& mut_ref_current(c) == *old(context)
                &&& mut_ref_future(c) == *final(context)
                &&& #[trigger] call_ensures(H::begin_paint, (c,), outcome)
                &&& ret == Slot::BeginPaint.reports(outcome is Ok)
            },
{
    let outcome = H::begin_paint(context);
    Slot::BeginPaint.native_return(&outcome) as i32
}

/// Forwards "painting ends" to the handler type, and answers with the truth
/// value of its outcome.
pub fn rdp_update_end_paint<H: UpdateHandler>(
    context: &mut Context<H::ContextHandler>,
) -> (ret: i32)
    ensures
        exists|c: &mut Context<H::ContextHandler>, outcome: Result<(), RdpError>|
            {
                &&& mut_ref_current(c) == *old(context)
                &&& mut_ref_future(c) == *final(context)
                &&& #[trigger] call_ensures(H::end_paint, (c,), outcome)
                &&& ret == Slot::EndPaint.reports(outcome is Ok)
            },
{
    let outcome = H::end_paint(context);
    Slot::EndPaint.native_return(&outcome) as i32
}

/// Forwards the bounds of what is drawn next to the handler type, and answers
/// with the truth value of its outcome. Without bounds there is nothing to
/// forward, and the call fails.
pub fn rdp_update_set_bounds<H: UpdateHandler>(
    context: &mut Context<H::ContextHandler>,
    bounds: Option<&Bounds>,
) -> (ret: i32)
    ensures
        bounds is None ==> ret == 0 && *final(context) == *old(context),
        bounds matches Some(b) ==> exists|
            c: &mut Context<H::ContextHandler>,
            outcome: Result<(), RdpError>,
        |
            {
                &&& mut_ref_current(c) == *old(context)
                &&& mut_ref_future(c) == *final(context)
                &&& #[trigger] call_ensures(H::set_bounds, (c, b), outcome)
                &&& ret == Slot::SetBounds.reports(outcome is Ok)
            },
{
    match bounds {
        Some(b) => {
            let outcome = H::set_bounds(context, b);
            Slot::SetBounds.native_return(&outcome) as i32
        },
        None => 0,
    }
}

/// Forwards "synchronize" to the handler type, and answers with the truth
/// value of its outcome.
pub fn rdp_update_synchronize<H: UpdateHandler>(
    context: &mut Context<H::ContextHandler>,
) -> (ret: i32)
    ensures
        exists|c: &mut Context<H::ContextHandler>, outcome: Result<(), RdpError>|
            {
                &&& mut_ref_current(c) == *old(context)
                &&& mut_ref_future(c) == *final(context)
                &&& #[trigger] call_ensures(H::synchronize, (c,), outcome)
                &&& ret == Slot::Synchronize.reports(outcome is Ok)
            },
{
    let outcome = H::synchronize(context);
    Slot::Synchronize.native_return(&outcome) as i32
}

/// Forwards "the desktop changed its size" to the handler type, and answers
/// with the truth value of its outcome.
pub fn rdp_update_desktop_resize<H: UpdateHandler>(
    context: &mut Context<H::ContextHandler>,
) -> (ret: i32)
    ensures
        exists|c: &mut Context<H::ContextHandler>, outcome: Result<(), RdpError>|
            {
                &&& mut_ref_current(c) == *old(context)
                &&& mut_ref_future(c) == *final(context)
                &&& #[trigger] call_ensures(H::desktop_resize, (c,), outcome)
                &&& ret == Slot::DesktopResize.reports(outcome is Ok)
            },
{
    let outcome = H::desktop_resize(context);
    Slot::DesktopResize.native_return(&outcome) as i32
}

/// A rectangle that bounds drawing.
#[derive(Clone, Copy, Debug, PartialEq, Eq, Structural)]
pub struct Bounds {
    pub left: i32,
    pub top: i32,
    pub right: i32,
    pub bottom: i32,
}

impl Bounds {
    pub fn new(left: i32, top: i32, right: i32, bottom: i32) -> (ret: Bounds)
        ensures
            ret == (Bounds { left, top, right, bottom }),
    {
        Bounds { left, top, right, bottom }
    }
}

} // verus!
