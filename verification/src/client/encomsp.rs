use vstd::prelude::*;

use crate::channels::encomsp::ParticipantCreated;
use crate::client::custom::Custom;
use crate::convention::Slot;
use crate::error::RdpError;
use crate::native::NativeRef;

verus! {

/// A multiparty channel's native context, as far as this side needs to know
/// it: where it is, who is to release the handler, and whether a handler is
/// registered.
#[derive(Debug)]
pub struct EncomspClientContext {
    inner: NativeRef,
    owned: bool,
    registered: bool,
}

/// What an application implements to follow a multiparty channel. The
/// method succeeds without doing anything unless it is overridden.
pub trait EncomspHandler: Sized {
    fn participant_created(
        &mut self,
        _ctxt: &mut EncomspClientContext,
        _participant: &ParticipantCreated,
    ) -> (ret: Result<(), RdpError>)
        default_ensures
            ret is Ok,
            *final(self) == *old(self),
            *final(_ctxt) == *old(_ctxt),
    {
        Ok(())
    }
}

impl EncomspClientContext {
    pub closed spec fn spec_as_ptr(&self) -> usize {
        self.inner.spec_addr()
    }

    pub closed spec fn spec_owned(&self) -> bool {
        self.owned
    }

    pub closed spec fn spec_is_registered(&self) -> bool {
        self.registered
    }

    /// Wraps the native context at `context`, whose user-data slot is
    /// occupied exactly if `registered`.
    pub fn from_ptr(context: usize, owned: bool, registered: bool) -> (ret: EncomspClientContext)
        requires
            context != 0,
        ensures
            ret.spec_as_ptr() == context,
            ret.spec_owned() == owned,
            ret.spec_is_registered() == registered,
    {
        EncomspClientContext { inner: NativeRef::new_unchecked(context), owned, registered }
    }

    #[verifier::when_used_as_spec(spec_as_ptr)]
    pub fn as_ptr(&self) -> (ret: usize)
        ensures
            ret == self.spec_as_ptr(),
            ret != 0,
    {
        self.inner.addr()
    }

    #[verifier::when_used_as_spec(spec_owned)]
    pub fn owned(&self) -> (ret: bool)
        ensures
            ret == self.spec_owned(),
    {
        self.owned
    }

    #[verifier::when_used_as_spec(spec_is_registered)]
    pub fn is_registered(&self) -> (ret: bool)
        ensures
            ret == self.spec_is_registered(),
    {
        self.registered
    }

    /// Binds `handler` to the context: the payload to put into the context's
    /// user-data slot comes back, and the context counts as registered from
    /// now on. A context takes one handler in its life.
    pub fn register_handler<H: EncomspHandler>(&mut self, handler: H) -> (ret: Custom<H>)
        requires
            !old(self).spec_is_registered(),
        ensures
            ret.payload() == Some(handler),
            final(self).spec_is_registered(),
            final(self).spec_as_ptr() == old(self).spec_as_ptr(),
            final(self).spec_owned() == old(self).spec_owned(),
    {
        self.registered = true;
        Custom::new(handler)
    }

    /// Binds `handler` to the context unless the context has a handler
    /// already. A context that has one refuses the second: the handler comes
    /// back as it was given, nothing is replaced, and the context stays as it
    /// was. Otherwise this is `register_handler`.
    pub fn try_register_handler<H: EncomspHandler>(&mut self, handler: H) -> (ret: Result<
        Custom<H>,
        H,
    >)
        ensures
            match ret {
                Ok(custom) => {
                    &&& !old(self).spec_is_registered()
                    &&& custom.payload() == Some(handler)
                    &&& final(self).spec_is_registered()
                    &&& final(self).spec_as_ptr() == old(self).spec_as_ptr()
                    &&& final(self).spec_owned() == old(self).spec_owned()
                },
                Err(refused) => {
                    &&& old(self).spec_is_registered()
                    &&& refused == handler
                    &&& *final(self) == *old(self)
                },
            },
    {
        if self.registered {
            Err(handler)
        } else {
            Ok(self.register_handler(handler))
        }
    }

    /// Ends this wrapper's life. The answer says whether the payload in the
    /// user-data slot is to be released now: it is if this wrapper owns the
    /// context and a handler is registered. Afterwards nothing is registered
    /// as far as an owning wrapper is concerned, so a second call never asks
    /// for a release again.
    pub fn teardown(&mut self) -> (ret: bool)
        ensures
            ret == (old(self).spec_owned() && old(self).spec_is_registered()),
            final(self).spec_is_registered() == (old(self).spec_is_registered()
                && !old(self).spec_owned()),
            final(self).spec_as_ptr() == old(self).spec_as_ptr(),
            final(self).spec_owned() == old(self).spec_owned(),
    {
        if self.owned && self.registered {
            self.registered = false;
            true
        } else {
            false
        }
    }
}

/// Forwards the announcement of a new participant to the handler in
/// `custom`: the handler and the context are handed over as they are and come
/// back as the call left them, and the answer is zero exactly if the handler
/// succeeded. Without a handler the call fails.
pub fn rdp_participant_created<H: EncomspHandler>(
    context: &mut EncomspClientContext,
    custom: &mut Custom<H>,
    participant: &ParticipantCreated,
) -> (ret: u32)
    ensures
        old(custom).payload() is None ==> {
            &&& ret == 1
            &&& final(custom).payload() is None
            &&& *final(context) == *old(context)
        },
        old(custom).payload() is Some ==> exists|
            h: &mut H,
            c: &mut EncomspClientContext,
            outcome: Result<(), RdpError>,
        |
            {
                &&& mut_ref_current(h) == old(custom).payload()->0
                &&& final(custom).payload() == Some(mut_ref_future(h))
                &&& mut_ref_current(c) == *old(context)
                &&& mut_ref_future(c) == *final(context)
                &&& #[trigger] call_ensures(H::participant_created, (h, c, participant), outcome)
                &&& ret == Slot::ParticipantCreated.reports(outcome is Ok)
            },
{
    if custom.is_released() {
        return 1;
    }
    let handler = custom.handler();
    let outcome = handler.participant_created(context, participant);
    Slot::ParticipantCreated.native_return(&outcome)
}

} // verus!
