use vstd::prelude::*;

verus! {

/// The payload of a native context's user-data slot: the typed handler that
/// callbacks are forwarded to, kept until it is released.
#[derive(Debug)]
pub struct Custom<H> {
    handler: Option<H>,
}

impl<H> Custom<H> {
    /// The handler that the slot holds, as long as it has not been released.
    pub closed spec fn payload(&self) -> Option<H> {
        self.handler
    }

    /// The slot as a release leaves it.
    pub closed spec fn released(&self) -> Custom<H> {
        Custom { handler: None }
    }

    /// Stores `handler` in a fresh slot.
    pub fn new(handler: H) -> (ret: Custom<H>)
        ensures
            ret.payload() == Some(handler),
    {
        Custom { handler: Some(handler) }
    }

    /// Whether the handler has been released already.
    pub fn is_released(&self) -> (ret: bool)
        ensures
            ret == (self.payload() is None),
    {
        self.handler.is_none()
    }

    /// Recovers the handler for one callback. What the caller does to it is
    /// what the slot holds afterwards.
    pub fn handler(&mut self) -> (ret: &mut H)
        requires
            old(self).payload() is Some,
        ensures
            *ret == old(self).payload()->0,
            final(self).payload() == Some(*final(ret)),
    {
        self.handler.as_mut().unwrap()
    }

    /// Releases the slot: hands the handler out to be destroyed, the first
    /// time, and nothing ever after.
    pub fn release(&mut self) -> (ret: Option<H>)
        ensures
            ret == old(self).payload(),
            *final(self) == old(self).released(),
            final(self).payload() is None,
    {
        self.handler.take()
    }

    /// How many of `times` releases in a row hand out a handler.
    pub open spec fn handed_out(&self, times: nat) -> nat
        decreases times,
    {
        if times == 0 {
            0
        } else {
            (if self.payload() is Some {
                1nat
            } else {
                0nat
            }) + self.released().handed_out((times - 1) as nat)
        }
    }

    /// However often a slot is released, its handler is handed out exactly
    /// once if it held one, and never if it held none: a released slot holds
    /// nothing, and releasing it again changes nothing.
    pub proof fn released_exactly_once(&self, times: nat)
        ensures
            self.released().payload() is None,
            self.released().released() == self.released(),
            self.payload() is None ==> self.handed_out(times) == 0,
            self.payload() is Some && times > 0 ==> self.handed_out(times) == 1,
        decreases times,
    {
        if times > 0 {
            self.released().released_exactly_once((times - 1) as nat);
        }
    }
}

} // verus!
