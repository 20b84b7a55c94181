use vstd::prelude::*;

use crate::client::context::{Context, Handler};
use crate::native::NativeRef;
use crate::text::{decode_lossy, optional_text, text_of_bytes};

verus! {

/// The arguments of an event as the native bus hands them over: the size
/// that the sender claims for them, the name of the sender if the event is
/// attributed to one, and the fields that follow the header.
#[derive(Debug)]
pub struct EventArgs {
    pub size: u32,
    pub sender: Option<Vec<u8>>,
    pub name: Vec<u8>,
    pub interface: usize,
}

/// A kind of event: the name under which the bus knows it, and how it is
/// read from the native arguments.
pub trait PubSubEvent: Sized {
    const NAME: &'static str;

    fn from_args(args: &EventArgs) -> Self;
}

/// What handles the events of one kind.
pub trait PubSubHandler<H: Handler> {
    type Event: PubSubEvent;

    fn handle(context: &mut Context<H>, event: &Self::Event, sender: Option<&str>);
}

/// A channel was connected: its name, and the address of its native
/// interface.
#[derive(Debug)]
pub struct EventChannelConnected {
    pub name: String,
    pub interface: usize,
}

impl PubSubEvent for EventChannelConnected {
    const NAME: &'static str = "ChannelConnected";

    fn from_args(args: &EventArgs) -> (ret: EventChannelConnected)
        ensures
            ret.name@ == text_of_bytes(args.name@),
            ret.interface == args.interface,
    {
        EventChannelConnected {
            name: decode_lossy(args.name.as_slice()),
            interface: args.interface,
        }
    }
}

/// A channel was disconnected: its name, and the address of its native
/// interface.
#[derive(Debug)]
pub struct EventChannelDisconnected {
    pub name: String,
    pub interface: usize,
}

impl PubSubEvent for EventChannelDisconnected {
    const NAME: &'static str = "ChannelDisconnected";

    fn from_args(args: &EventArgs) -> (ret: EventChannelDisconnected)
        ensures
            ret.name@ == text_of_bytes(args.name@),
            ret.interface == args.interface,
    {
        EventChannelDisconnected {
            name: decode_lossy(args.name.as_slice()),
            interface: args.interface,
        }
    }
}

/// One subscription: the bus it was made on, the event it is for, and the
/// number that the bus gave it.
#[derive(Debug)]
pub struct PubSubHandle {
    pub_sub: usize,
    name: String,
    id: u64,
}

impl PubSubHandle {
    /// The address of the bus that the subscription was made on.
    pub closed spec fn spec_pub_sub(&self) -> usize {
        self.pub_sub
    }

    /// The name of the event that the subscription is for.
    pub closed spec fn spec_name(&self) -> Seq<char> {
        self.name@
    }

    /// The number of the subscription on its bus.
    pub closed spec fn spec_id(&self) -> u64 {
        self.id
    }

    #[verifier::when_used_as_spec(spec_pub_sub)]
    pub fn pub_sub(&self) -> (ret: usize)
        ensures
            ret == self.spec_pub_sub(),
    {
        self.pub_sub
    }

    pub fn name(&self) -> (ret: &str)
        ensures
            ret@ == self.spec_name(),
    {
        self.name.as_str()
    }

    #[verifier::when_used_as_spec(spec_id)]
    pub fn id(&self) -> (ret: u64)
        ensures
            ret == self.spec_id(),
    {
        self.id
    }
}

/// An entry of the registry.
#[derive(Debug)]
struct Subscription {
    name: String,
    id: u64,
}

/// The subscriptions to `name` among `subscriptions`, by their numbers and
/// in their order.
pub open spec fn subscribers_of(subscriptions: Seq<(Seq<char>, u64)>, name: Seq<char>) -> Seq<u64>
    decreases subscriptions.len(),
{
    if subscriptions.len() == 0 {
        Seq::empty()
    } else {
        let before = subscribers_of(subscriptions.drop_last(), name);
        if subscriptions.last().0 == name {
            before.push(subscriptions.last().1)
        } else {
            before
        }
    }
}

/// Whether one of `subscriptions` carries the number `id`.
pub open spec fn carries(subscriptions: Seq<(Seq<char>, u64)>, id: u64) -> bool {
    exists|i: int| 0 <= i < subscriptions.len() && (#[trigger] subscriptions[i]).1 == id
}

/// A number that no subscription carries is not among the subscribers of any
/// event: a subscription that has ended counts for no event any more.
pub proof fn absent_id_is_no_subscriber(
    subscriptions: Seq<(Seq<char>, u64)>,
    name: Seq<char>,
    id: u64,
)
    requires
        !carries(subscriptions, id),
    ensures
        !subscribers_of(subscriptions, name).contains(id),
    decreases subscriptions.len(),
{
    if subscriptions.len() > 0 {
        let rest = subscriptions.drop_last();
        assert forall|k: int| 0 <= k < rest.len() implies (#[trigger] rest[k]).1 != id by {
            assert(rest[k] == subscriptions[k]);
        }
        absent_id_is_no_subscriber(rest, name, id);
        let before = subscribers_of(rest, name);
        if subscriptions.last().0 == name {
            let all = before.push(subscriptions.last().1);
            assert(subscriptions[subscriptions.len() - 1].1 != id);
            assert forall|k: int| 0 <= k < all.len() implies all[k] != id by {
                if k < before.len() {
                    assert(before.contains(before[k]));
                }
            }
        }
    }
}

/// The registry of an event bus: this side's record of who subscribed to
/// which event through it, in the order in which they did. The native bus
/// makes the calls; `deliver` hands an event on only while the registry holds
/// a subscription to its name.
#[derive(Debug)]
pub struct PubSub {
    inner: NativeRef,
    subscriptions: Vec<Subscription>,
    issued: u64,
}

impl PubSub {
    #[verifier::type_invariant]
    spec fn numbers_are_unique(self) -> bool {
        &&& forall|i: int|
            0 <= i < self.subscriptions@.len() ==> (#[trigger] self.subscriptions@[i]).id
                < self.issued
        &&& forall|i: int, j: int|
            0 <= i < j < self.subscriptions@.len() ==> (#[trigger] self.subscriptions@[i]).id != (
            #[trigger] self.subscriptions@[j]).id
    }

    /// The address of the native bus.
    pub closed spec fn spec_as_ptr(&self) -> usize {
        self.inner.spec_addr()
    }

    /// The subscriptions that are alive: the name of the event and the number
    /// of the subscription, oldest first.
    pub closed spec fn spec_subscriptions(&self) -> Seq<(Seq<char>, u64)> {
        Seq::new(
            self.subscriptions@.len(),
            |i: int| (self.subscriptions@[i].name@, self.subscriptions@[i].id),
        )
    }

    /// How many subscriptions this bus has made in its life.
    pub closed spec fn spec_issued(&self) -> u64 {
        self.issued
    }

    /// Wraps the native bus at `pubsub`: nobody has subscribed yet.
    pub fn new(pubsub: usize) -> (ret: PubSub)
        requires
            pubsub != 0,
        ensures
            ret.spec_as_ptr() == pubsub,
            ret.spec_subscriptions() == Seq::<(Seq<char>, u64)>::empty(),
            ret.spec_issued() == 0,
    {
        let ret = PubSub {
            inner: NativeRef::new_unchecked(pubsub),
            subscriptions: Vec::new(),
            issued: 0,
        };
        assert(ret.spec_subscriptions() =~= Seq::<(Seq<char>, u64)>::empty());
        ret
    }

    #[verifier::when_used_as_spec(spec_as_ptr)]
    pub fn as_ptr(&self) -> (ret: usize)
        ensures
            ret == self.spec_as_ptr(),
            ret != 0,
    {
        self.inner.addr()
    }

    #[verifier::when_used_as_spec(spec_issued)]
    pub fn issued(&self) -> (ret: u64)
        ensures
            ret == self.spec_issued(),
    {
        self.issued
    }

    /// Subscribes to the event `name`. The subscription goes to the end of
    /// the registry and gets the next number, which no live subscription
    /// carries.
    pub fn subscribe_to(&mut self, name: &str) -> (ret: PubSubHandle)
        requires
            old(self).spec_issued() < u64::MAX,
        ensures
            ret.spec_pub_sub() == old(self).spec_as_ptr(),
            ret.spec_name() == name@,
            ret.spec_id() == old(self).spec_issued(),
            !carries(old(self).spec_subscriptions(), ret.spec_id()),
            final(self).spec_subscriptions() == old(self).spec_subscriptions().push(
                (name@, ret.spec_id()),
            ),
            final(self).spec_issued() == old(self).spec_issued() + 1,
            final(self).spec_as_ptr() == old(self).spec_as_ptr(),
    {
        proof {
            use_type_invariant(&*self);
        }
        let id = self.issued;
        let handle = PubSubHandle { pub_sub: self.inner.addr(), name: name.to_owned(), id };
        let mut subscriptions: Vec<Subscription> = Vec::new();
        core::mem::swap(&mut self.subscriptions, &mut subscriptions);
        subscriptions.push(Subscription { name: name.to_owned(), id });
        self.issued = id + 1;
        core::mem::swap(&mut self.subscriptions, &mut subscriptions);
        assert(self.spec_subscriptions() =~= old(self).spec_subscriptions().push((name@, id)));
        handle
    }

    /// Subscribes the handler `P` to its event.
    pub fn subscribe<P: PubSubHandler<H>, H: Handler>(&mut self) -> (ret: PubSubHandle)
        requires
            old(self).spec_issued() < u64::MAX,
        ensures
            ret.spec_pub_sub() == old(self).spec_as_ptr(),
            ret.spec_name() == <P::Event as PubSubEvent>::NAME@,
            ret.spec_id() == old(self).spec_issued(),
            !carries(old(self).spec_subscriptions(), ret.spec_id()),
            final(self).spec_subscriptions() == old(self).spec_subscriptions().push(
                (<P::Event as PubSubEvent>::NAME@, ret.spec_id()),
            ),
            final(self).spec_issued() == old(self).spec_issued() + 1,
            final(self).spec_as_ptr() == old(self).spec_as_ptr(),
    {
        self.subscribe_to(<P::Event as PubSubEvent>::NAME)
    }

    /// Ends the subscription that `handle` stands for, if this is the bus it
    /// was made on. Afterwards no subscription of this bus carries the
    /// handle's number; every other subscription stays, in its place.
    pub fn unsubscribe(&mut self, handle: PubSubHandle) -> (ret: bool)
        ensures
            ret == (handle.spec_pub_sub() == old(self).spec_as_ptr() && carries(
                old(self).spec_subscriptions(),
                handle.spec_id(),
            )),
            ret ==> exists|i: int|
                {
                    &&& 0 <= i < old(self).spec_subscriptions().len()
                    &&& (#[trigger] old(self).spec_subscriptions()[i]).1 == handle.spec_id()
                    &&& final(self).spec_subscriptions() == old(self).spec_subscriptions().remove(i)
                },
            !ret ==> final(self).spec_subscriptions() == old(self).spec_subscriptions(),
            handle.spec_pub_sub() == old(self).spec_as_ptr() ==> !carries(
                final(self).spec_subscriptions(),
                handle.spec_id(),
            ),
            final(self).spec_issued() == old(self).spec_issued(),
            final(self).spec_as_ptr() == old(self).spec_as_ptr(),
    {
        proof {
            use_type_invariant(&*self);
        }
        if handle.pub_sub != self.inner.addr() {
            return false;
        }
        let mut i: usize = 0;
        while i < self.subscriptions.len()
            invariant
                i <= self.subscriptions@.len(),
                *self == *old(self),
                handle.spec_pub_sub() == old(self).spec_as_ptr(),
                forall|k: int| 0 <= k < i ==> self.subscriptions@[k].id != handle.id,
            decreases self.subscriptions@.len() - i,
        {
            if self.subscriptions[i].id == handle.id {
                proof {
                    use_type_invariant(&*self);
                }
                let ghost before = self.spec_subscriptions();
                let ghost entries = self.subscriptions@;
                assert(0 <= i < before.len() && before[i as int].1 == handle.spec_id());
                let mut subscriptions: Vec<Subscription> = Vec::new();
                core::mem::swap(&mut self.subscriptions, &mut subscriptions);
                subscriptions.remove(i);
                assert(subscriptions@ == entries.remove(i as int));
                assert forall|a: int, b: int| 0 <= a < b < subscriptions@.len() implies (
                #[trigger] subscriptions@[a]).id != (#[trigger] subscriptions@[b]).id by {
                    let a0 = if a < i { a } else { a + 1 };
                    let b0 = if b < i { b } else { b + 1 };
                    assert(subscriptions@[a] == entries[a0]);
                    assert(subscriptions@[b] == entries[b0]);
                }
                assert forall|a: int| 0 <= a < subscriptions@.len() implies (
                #[trigger] subscriptions@[a]).id < self.issued && subscriptions@[a].id
                    != handle.id by {
                    let a0 = if a < i { a } else { a + 1 };
                    assert(subscriptions@[a] == entries[a0]);
                    if a0 < i {
                    } else {
                        assert(entries[i as int].id != entries[a0].id);
                    }
                }
                core::mem::swap(&mut self.subscriptions, &mut subscriptions);
                assert(self.spec_subscriptions() =~= before.remove(i as int));
                return true;
            }
            i += 1;
        }
        false
    }

    /// The subscriptions to the event `name`, by their numbers and in the
    /// order in which they were made.
    pub fn subscribers(&self, name: &str) -> (ret: Vec<u64>)
        ensures
            ret@ == subscribers_of(self.spec_subscriptions(), name@),
    {
        let wanted = name.to_owned();
        let mut out: Vec<u64> = Vec::new();
        let mut i: usize = 0;
        assert(self.spec_subscriptions().take(0) =~= Seq::<(Seq<char>, u64)>::empty());
        while i < self.subscriptions.len()
            invariant
                i <= self.subscriptions@.len(),
                wanted@ == name@,
                out@ == subscribers_of(self.spec_subscriptions().take(i as int), name@),
            decreases self.subscriptions@.len() - i,
        {
            let ghost next = self.spec_subscriptions().take(i + 1);
            assert(next.drop_last() =~= self.spec_subscriptions().take(i as int));
            assert(next.last() == self.spec_subscriptions()[i as int]);
            if self.subscriptions[i].name == wanted {
                out.push(self.subscriptions[i].id);
            }
            i += 1;
        }
        assert(self.spec_subscriptions().take(i as int) =~= self.spec_subscriptions());
        out
    }
}

/// Hands one event of the bus to the handler `P`: the event is read from the
/// native arguments as its kind reads it, the sender's name is decoded
/// leniently if there is one and passed as missing if there is none, and the
/// handler is called once with the session, the event and the sender; the
/// session is afterwards as the handler left it. `c_size` is the size that
/// the event's arguments have on the native side; arguments of another size
/// are not this event's, and the handler does not see them. The answer says
/// whether the handler was called.
pub fn dispatch<P: PubSubHandler<H>, H: Handler>(
    context: &mut Context<H>,
    args: &EventArgs,
    c_size: u32,
) -> (ret: bool)
    ensures
        ret == (args.size == c_size),
        !ret ==> *final(context) == *old(context),
        ret ==> exists|c: &mut Context<H>, event: P::Event, sender: Option<&str>|
            {
                &&& mut_ref_current(c) == *old(context)
                &&& mut_ref_future(c) == *final(context)
                &&& call_ensures(<P::Event as PubSubEvent>::from_args, (args,), event)
                &&& match args.sender {
                    Some(b) => sender matches Some(t) && t@ == text_of_bytes(b@),
                    None => sender is None,
                }
                &&& #[trigger] call_ensures(P::handle, (c, &event, sender), ())
            },
{
    if args.size != c_size {
        return false;
    }
    let event = <P::Event as PubSubEvent>::from_args(args);
    let sender: Option<String> = match &args.sender {
        Some(b) => optional_text(Some(b.as_slice())),
        None => None,
    };
    match &sender {
        Some(s) => P::handle(context, &event, Some(s.as_str())),
        None => P::handle(context, &event, None),
    }
    true
}

/// Hands one event of the bus to the handler `P` as `dispatch` does, but only
/// while the session's registry holds a subscription to the event's name:
/// once the last one has ended, the handler is not called any more, and
/// nothing changes. The answer says whether the handler was called.
pub fn deliver<P: PubSubHandler<H>, H: Handler>(
    context: &mut Context<H>,
    args: &EventArgs,
    c_size: u32,
) -> (ret: bool)
    ensures
        ret == (args.size == c_size && subscribers_of(
            old(context).pub_sub.spec_subscriptions(),
            <P::Event as PubSubEvent>::NAME@,
        ).len() > 0),
        !ret ==> *final(context) == *old(context),
        ret ==> exists|c: &mut Context<H>, event: P::Event, sender: Option<&str>|
            {
                &&& mut_ref_current(c) == *old(context)
                &&& mut_ref_future(c) == *final(context)
                &&& call_ensures(<P::Event as PubSubEvent>::from_args, (args,), event)
                &&& match args.sender {
                    Some(b) => sender matches Some(t) && t@ == text_of_bytes(b@),
                    None => sender is None,
                }
                &&& #[trigger] call_ensures(P::handle, (c, &event, sender), ())
            },
{
    let subscribed = context.pub_sub.subscribers(<P::Event as PubSubEvent>::NAME);
    if subscribed.len() == 0 {
        return false;
    }
    dispatch::<P, H>(context, args, c_size)
}

} // verus!
