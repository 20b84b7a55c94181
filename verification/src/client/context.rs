use vstd::prelude::*;
use vstd::std_specs::convert::FromSpecImpl;
use vstd::utf8::{decode_utf8, valid_utf8};

use crate::channels;
use crate::client::cliprdr::CliprdrClientContext;
use crate::client::disp::DispClientContext;
use crate::client::encomsp::EncomspClientContext;
use crate::client::pub_sub::{
    EventChannelConnected, EventChannelDisconnected, PubSub, PubSubEvent, PubSubHandle,
    PubSubHandler,
};
use crate::client::rdpei::RdpeiClientContext;
use crate::convention::{exit_code, is_outcome, outcome, spec_exit_code, Slot};
use crate::error::{RdpCode, RdpErr, RdpError};
use crate::freerdp::FreeRdp;
use crate::gdi::Gdi;
use crate::graphics::Graphics;
use crate::input::Input;
use crate::native::NativeRef;
use crate::settings::Settings;
use crate::text::{decode_strict, decode_utf16_lossy, lossy_utf16_decoding, same_text};
use crate::update::Update;
use crate::winpr::Handle;

verus! {

/// The channels that a session knows how to set up.
#[derive(Clone, Copy, Debug, PartialEq, Eq, Structural)]
pub enum Channel {
    Rdpei,
    Rdpgfx,
    Rail,
    Cliprdr,
    Encomsp,
    Disp,
    Geometry,
    VideoControl,
    VideoData,
    Unknown,
}

/// The channel that goes by `name`.
pub open spec fn spec_channel_of(name: Seq<char>) -> Channel {
    if name == channels::rdpei::DVC_CHANNEL_NAME@ {
        Channel::Rdpei
    } else if name == channels::rdpgfx::DVC_CHANNEL_NAME@ {
        Channel::Rdpgfx
    } else if name == channels::rail::SVC_CHANNEL_NAME@ {
        Channel::Rail
    } else if name == channels::cliprdr::SVC_CHANNEL_NAME@ {
        Channel::Cliprdr
    } else if name == channels::encomsp::SVC_CHANNEL_NAME@ {
        Channel::Encomsp
    } else if name == channels::disp::DVC_CHANNEL_NAME@ {
        Channel::Disp
    } else if name == channels::geometry::DVC_CHANNEL_NAME@ {
        Channel::Geometry
    } else if name == channels::video::CONTROL_DVC_CHANNEL_NAME@ {
        Channel::VideoControl
    } else if name == channels::video::DATA_DVC_CHANNEL_NAME@ {
        Channel::VideoData
    } else {
        Channel::Unknown
    }
}

#[verifier::when_used_as_spec(spec_channel_of_str)]
pub fn channel_of(name: &str) -> (ret: Channel)
    ensures
        ret == spec_channel_of(name@),
{
    if same_text(name, channels::rdpei::DVC_CHANNEL_NAME) {
        Channel::Rdpei
    } else if same_text(name, channels::rdpgfx::DVC_CHANNEL_NAME) {
        Channel::Rdpgfx
    } else if same_text(name, channels::rail::SVC_CHANNEL_NAME) {
        Channel::Rail
    } else if same_text(name, channels::cliprdr::SVC_CHANNEL_NAME) {
        Channel::Cliprdr
    } else if same_text(name, channels::encomsp::SVC_CHANNEL_NAME) {
        Channel::Encomsp
    } else if same_text(name, channels::disp::DVC_CHANNEL_NAME) {
        Channel::Disp
    } else if same_text(name, channels::geometry::DVC_CHANNEL_NAME) {
        Channel::Geometry
    } else if same_text(name, channels::video::CONTROL_DVC_CHANNEL_NAME) {
        Channel::VideoControl
    } else if same_text(name, channels::video::DATA_DVC_CHANNEL_NAME) {
        Channel::VideoData
    } else {
        Channel::Unknown
    }
}

pub open spec fn spec_channel_of_str(name: &str) -> Channel {
    spec_channel_of(name@)
}

/// Work on the native side that a callback asked for. The embedding layer
/// carries the actions out in their order once the callback has returned.
#[derive(Clone, Copy, Debug, PartialEq, Eq, Structural)]
pub enum Action {
    /// Subscribe the default handler for the connection of channels on the
    /// native bus.
    SubscribeChannelConnected,
    /// Subscribe the default handler for the disconnection of channels on the
    /// native bus.
    SubscribeChannelDisconnected,
    /// Take the drawing layer down.
    GdiUninit,
    /// Attach the graphics pipeline at this address to the drawing layer.
    GraphicsPipelineInit(usize),
    GraphicsPipelineUninit(usize),
    /// Attach the geometry channel at this address to the drawing layer.
    GeometryInit(usize),
    GeometryUninit(usize),
    /// Attach the video control channel at this address to the drawing layer.
    VideoControlInit(usize),
    VideoControlUninit(usize),
    /// Attach the video data channel at this address to the drawing layer.
    VideoDataInit(usize),
    VideoDataUninit(usize),
    /// Release the handler of the clipboard channel at this address: the
    /// session let go of the context that owned it.
    ReleaseCliprdrHandler(usize),
    /// Release the handler of the multiparty channel at this address.
    ReleaseEncomspHandler(usize),
}

/// A step in taking a session down.
#[derive(Clone, Copy, Debug, PartialEq, Eq, Structural)]
pub enum TeardownStep {
    /// End the default subscription to the connection of channels.
    UnsubscribeChannelConnected,
    /// End the default subscription to the disconnection of channels.
    UnsubscribeChannelDisconnected,
    /// Release the handler of the clipboard channel at this address.
    ReleaseCliprdrHandler(usize),
    /// Release the handler of the multiparty channel at this address.
    ReleaseEncomspHandler(usize),
    /// Destroy the session's handler.
    ReleaseHandler,
    /// Free the native context at this address.
    FreeContext(usize),
}

/// What the handler decided about a certificate.
#[derive(Clone, Copy, Debug, PartialEq, Eq, Structural)]
pub enum VerifyCertificateResult {
    AcceptAndStore,
    AcceptOnlyThisSession,
    Fail,
}

impl VerifyCertificateResult {
    /// The number that tells the native side of this decision.
    pub open spec fn spec_code(&self) -> u32 {
        match self {
            VerifyCertificateResult::AcceptAndStore => 1,
            VerifyCertificateResult::AcceptOnlyThisSession => 2,
            VerifyCertificateResult::Fail => 0,
        }
    }
}

impl From<VerifyCertificateResult> for u32 {
    fn from(res: VerifyCertificateResult) -> (ret: u32) {
        match res {
            VerifyCertificateResult::AcceptAndStore => 1,
            VerifyCertificateResult::AcceptOnlyThisSession => 2,
            VerifyCertificateResult::Fail => 0,
        }
    }
}

impl FromSpecImpl<VerifyCertificateResult> for u32 {
    open spec fn obeys_from_spec() -> bool {
        true
    }

    open spec fn from_spec(res: VerifyCertificateResult) -> u32 {
        res.spec_code()
    }
}

/// A session: the application's handler together with what the native
/// context holds for it.
#[derive(Debug)]
pub struct Context<H: Handler> {
    /// The application's handler. It is taken out for the time of a callback
    /// that gets the context too, and put back afterwards.
    pub handler: Option<H>,
    pub settings: Settings,
    pub instance: FreeRdp,
    pub pub_sub: PubSub,
    pub rdpei: Option<RdpeiClientContext>,
    pub disp: Option<DispClientContext>,
    pub cliprdr: Option<CliprdrClientContext>,
    pub encomsp: Option<EncomspClientContext>,
    /// Native work that callbacks asked for and that is still to be done,
    /// oldest first.
    pub actions: Vec<Action>,
    /// What loading the channel add-ins returned when the session was last
    /// asked to get ready to connect: non-zero if they were loaded. Zero as
    /// long as nothing was loaded.
    pub addins: i32,
    pub default_channel_connected: Option<PubSubHandle>,
    pub default_channel_disconnected: Option<PubSubHandle>,
    /// Where the native context lies.
    pub rdp_context: NativeRef,
    /// Whether the native context is freed together with this value.
    pub owned: bool,
}

/// The subscriptions that a session makes by default on a bus that has handed
/// out `issued` numbers: to the connection of channels and to their
/// disconnection, in this order, as far as the numbers reach.
pub open spec fn default_subscriptions(issued: u64) -> Seq<(Seq<char>, u64)> {
    if issued < u64::MAX - 1 {
        seq![
            (<EventChannelConnected as PubSubEvent>::NAME@, issued),
            (<EventChannelDisconnected as PubSubEvent>::NAME@, (issued + 1) as u64),
        ]
    } else if issued < u64::MAX {
        seq![(<EventChannelConnected as PubSubEvent>::NAME@, issued)]
    } else {
        Seq::empty()
    }
}

/// The native work that a session asks for before it connects, on a bus that
/// has handed out `issued` numbers: one subscription on the native bus for
/// each one made in the registry.
pub open spec fn default_requests(issued: u64) -> Seq<Action> {
    if issued < u64::MAX - 1 {
        seq![Action::SubscribeChannelConnected, Action::SubscribeChannelDisconnected]
    } else if issued < u64::MAX {
        seq![Action::SubscribeChannelConnected]
    } else {
        Seq::empty()
    }
}

/// What an application implements to run a session. Only `post_connect` has
/// to be written; every other method has a default.
pub trait Handler: Sized {
    /// By default: succeeds.
    fn global_init() -> (ret: Result<(), RdpError>)
        default_ensures
            ret is Ok,
    {
        Ok(())
    }

    fn global_uninit() {
    }

    /// By default: succeeds.
    fn client_new(_instance: &FreeRdp) -> (ret: Result<(), RdpError>)
        default_ensures
            ret is Ok,
    {
        Ok(())
    }

    fn client_free(_instance: &FreeRdp) {
    }

    /// By default: succeeds and changes nothing.
    fn client_start(&mut self) -> (ret: Result<(), i32>)
        default_ensures
            ret is Ok,
            *final(self) == *old(self),
    {
        Ok(())
    }

    /// By default: succeeds and changes nothing.
    fn client_stop(&mut self) -> (ret: Result<(), i32>)
        default_ensures
            ret is Ok,
            *final(self) == *old(self),
    {
        Ok(())
    }

    /// By default: subscribes the session to the connection and disconnection
    /// of channels, as far as the bus still hands out subscriptions, keeps
    /// the subscriptions, and asks for the same on the native bus. The result
    /// is that of loading the channel add-ins, which the session holds in
    /// `addins`: success if they were loaded, the failure if they were not.
    /// The subscriptions are made and kept either way.
    fn pre_connect(&mut self, context: &mut Context<Self>) -> (ret: Result<(), RdpError>)
        default_ensures
            is_outcome(ret, old(context).addins != 0, "Failed to load client addins"@),
            *final(self) == *old(self),
            final(context).pub_sub.spec_subscriptions() == old(context).pub_sub.spec_subscriptions()
                + default_subscriptions(old(context).pub_sub.spec_issued()),
            final(context).pub_sub.spec_issued() == old(context).pub_sub.spec_issued()
                + default_subscriptions(old(context).pub_sub.spec_issued()).len(),
            final(context).pub_sub.spec_as_ptr() == old(context).pub_sub.spec_as_ptr(),
            is_default_subscription(
                final(context).default_channel_connected,
                old(context).pub_sub,
                0,
            ),
            is_default_subscription(
                final(context).default_channel_disconnected,
                old(context).pub_sub,
                1,
            ),
            final(context).actions@ == old(context).actions@ + default_requests(
                old(context).pub_sub.spec_issued(),
            ),
            (Context {
                pub_sub: old(context).pub_sub,
                actions: old(context).actions,
                default_channel_connected: old(context).default_channel_connected,
                default_channel_disconnected: old(context).default_channel_disconnected,
                ..*final(context)
            }) == *old(context),
    {
        let ghost before = context.actions@;
        let ghost issued = context.pub_sub.spec_issued();
        let (connected, disconnected) = subscribe_default_channels(&mut context.pub_sub);
        if connected.is_some() {
            context.actions.push(Action::SubscribeChannelConnected);
        }
        if disconnected.is_some() {
            context.actions.push(Action::SubscribeChannelDisconnected);
        }
        context.default_channel_connected = connected;
        context.default_channel_disconnected = disconnected;
        assert(context.actions@ =~= before + default_requests(issued));
        outcome(context.addins != 0, "Failed to load client addins")
    }

    /// By default: changes nothing.
    fn clipboard_connected(&mut self, _clip: &mut CliprdrClientContext)
        default_ensures
            *final(self) == *old(self),
            *final(_clip) == *old(_clip),
    {
    }

    /// By default: changes nothing.
    fn encomsp_connected(&mut self, _encomsp: &mut EncomspClientContext)
        default_ensures
            *final(self) == *old(self),
            *final(_encomsp) == *old(_encomsp),
    {
    }

    /// By default: fails as unsupported and changes nothing.
    fn authenticate(&mut self, _context: &mut Context<Self>) -> (ret: Result<(), RdpError>)
        default_ensures
            ret == Err::<(), RdpError>(RdpError::Unsupported),
            *final(self) == *old(self),
            *final(_context) == *old(_context),
    {
        Err(RdpError::Unsupported)
    }

    fn post_connect(&mut self, context: &mut Context<Self>) -> Result<(), RdpError>;

    /// By default: asks for the drawing layer to be taken down.
    fn post_disconnect(&mut self, context: &mut Context<Self>)
        default_ensures
            *final(self) == *old(self),
            final(context).actions@ == old(context).actions@.push(Action::GdiUninit),
            (Context { actions: old(context).actions, ..*final(context) }) == *old(context),
    {
        context.actions.push(Action::GdiUninit);
    }

    /// By default: accepts the certificate for this session only.
    fn verify_certificate(
        &mut self,
        _host: &str,
        _port: u16,
        _common_name: Option<&str>,
        _subject: &str,
        _issuer: &str,
        _fingerprint: &str,
        _flags: u32,
    ) -> (ret: VerifyCertificateResult)
        default_ensures
            ret == VerifyCertificateResult::AcceptOnlyThisSession,
            *final(self) == *old(self),
    {
        VerifyCertificateResult::AcceptOnlyThisSession
    }

    /// By default: accepts the certificate for this session only.
    fn verify_certificate_changed(
        &mut self,
        _host: &str,
        _port: u16,
        _common_name: Option<&str>,
        _subject: &str,
        _issuer: &str,
        _new_fingerprint: &str,
        _old_subject: &str,
        _old_issuer: &str,
        _old_fingerprint: &str,
        _flags: u32,
    ) -> (ret: VerifyCertificateResult)
        default_ensures
            ret == VerifyCertificateResult::AcceptOnlyThisSession,
            *final(self) == *old(self),
    {
        VerifyCertificateResult::AcceptOnlyThisSession
    }

    /// By default: succeeds and changes nothing.
    fn present_gateway_message(
        &mut self,
        _type: u32,
        _is_display_mandatory: bool,
        _is_consent_mandatory: bool,
        _msg: &str,
    ) -> (ret: Result<(), RdpError>)
        default_ensures
            ret is Ok,
            *final(self) == *old(self),
    {
        Ok(())
    }

    /// By default: answers 1 and changes nothing.
    fn logon_error_info(&mut self, _data: u32, _type: u32) -> (ret: i32)
        default_ensures
            ret == 1,
            *final(self) == *old(self),
    {
        1
    }
}

/// Whether `kept` is the default subscription with the given place (0 for
/// the connection of channels, 1 for their disconnection) made on the bus
/// `bus`: it is there exactly if the bus still had a number for it, and then
/// carries that number, the name of its event and the address of the bus.
pub open spec fn is_default_subscription(
    kept: Option<PubSubHandle>,
    bus: PubSub,
    place: int,
) -> bool {
    &&& kept is Some <==> place < default_subscriptions(bus.spec_issued()).len()
    &&& kept matches Some(h) ==> {
        &&& h.spec_id() == bus.spec_issued() + place
        &&& h.spec_name() == default_subscriptions(bus.spec_issued())[place].0
        &&& h.spec_pub_sub() == bus.spec_as_ptr()
    }
}

/// Reads a native error code: zero is success, anything else the code of the
/// error.
pub fn cvt_nz(error: u32) -> (ret: Result<(), RdpError>)
    ensures
        error == 0 ==> ret is Ok,
        error != 0 ==> ret == Err::<(), RdpError>(RdpError::Code(RdpCode(error))),
{
    if error == 0 {
        Ok(())
    } else {
        Err(RdpError::Code(RdpCode(error)))
    }
}

/// Subscribes to the connection and to the disconnection of channels, in
/// this order. The two subscriptions come back; a bus that has handed out all
/// its numbers gives none, one that has a single number left gives the first
/// only.
pub fn subscribe_default_channels(pub_sub: &mut PubSub) -> (ret: (
    Option<PubSubHandle>,
    Option<PubSubHandle>,
))
    ensures
        is_default_subscription(ret.0, *old(pub_sub), 0),
        is_default_subscription(ret.1, *old(pub_sub), 1),
        final(pub_sub).spec_subscriptions() == old(pub_sub).spec_subscriptions()
            + default_subscriptions(old(pub_sub).spec_issued()),
        final(pub_sub).spec_issued() == old(pub_sub).spec_issued() + default_subscriptions(
            old(pub_sub).spec_issued(),
        ).len(),
        final(pub_sub).spec_as_ptr() == old(pub_sub).spec_as_ptr(),
{
    let ghost before = pub_sub.spec_subscriptions();
    let ghost issued = pub_sub.spec_issued();
    let connected = if pub_sub.issued() < u64::MAX {
        Some(pub_sub.subscribe_to(<EventChannelConnected as PubSubEvent>::NAME))
    } else {
        None
    };
    let disconnected = if pub_sub.issued() < u64::MAX {
        Some(pub_sub.subscribe_to(<EventChannelDisconnected as PubSubEvent>::NAME))
    } else {
        None
    };
    assert(pub_sub.spec_subscriptions() =~= before + default_subscriptions(issued));
    (connected, disconnected)
}

/// The handler for the connection of a channel that a session subscribes by
/// default.
pub struct ChannelConnected;

/// The handler for the disconnection of a channel that a session subscribes
/// by default.
pub struct ChannelDisconnected;

impl<H: Handler> PubSubHandler<H> for ChannelConnected {
    type Event = EventChannelConnected;

    /// Takes note of the channel that the event names: the session is
    /// afterwards what the connection of that channel makes of it.
    fn handle(
        context: &mut Context<H>,
        event: &EventChannelConnected,
        _sender: Option<&str>,
    )
        ensures
            Context::connected(*old(context), *final(context), event.name@, event.interface),
            ({
                &&& event.interface != 0
                &&& spec_channel_of(event.name@) == Channel::Cliprdr
                &&& old(context).handler is Some
            }) ==> exists|h: &mut H, shown: &mut CliprdrClientContext|
                {
                    &&& mut_ref_current(h) == old(context).handler->0
                    &&& final(context).handler == Some(mut_ref_future(h))
                    &&& mut_ref_current(shown).spec_as_ptr() == event.interface
                    &&& mut_ref_current(shown).spec_owned()
                    &&& !mut_ref_current(shown).spec_is_registered()
                    &&& final(context).cliprdr == Some(mut_ref_future(shown))
                    &&& #[trigger] call_ensures(H::clipboard_connected, (h, shown), ())
                },
            ({
                &&& event.interface != 0
                &&& spec_channel_of(event.name@) == Channel::Encomsp
                &&& old(context).handler is Some
            }) ==> exists|h: &mut H, shown: &mut EncomspClientContext|
                {
                    &&& mut_ref_current(h) == old(context).handler->0
                    &&& final(context).handler == Some(mut_ref_future(h))
                    &&& mut_ref_current(shown).spec_as_ptr() == event.interface
                    &&& mut_ref_current(shown).spec_owned()
                    &&& !mut_ref_current(shown).spec_is_registered()
                    &&& final(context).encomsp == Some(mut_ref_future(shown))
                    &&& #[trigger] call_ensures(H::encomsp_connected, (h, shown), ())
                },
    {
        context.channel_connected(event.name.as_str(), event.interface);
    }
}

impl<H: Handler> PubSubHandler<H> for ChannelDisconnected {
    type Event = EventChannelDisconnected;

    /// Takes note of the channel that the event names: the session is
    /// afterwards what the disconnection of that channel makes of it.
    fn handle(
        context: &mut Context<H>,
        event: &EventChannelDisconnected,
        _sender: Option<&str>,
    )
        ensures
            Context::disconnected(*old(context), *final(context), event.name@, event.interface),
    {
        context.channel_disconnected(event.name.as_str(), event.interface);
    }
}

/// The native work that the connection of a channel asks for, if any.
pub open spec fn connected_action(channel: Channel, interface: usize) -> Option<Action> {
    match channel {
        Channel::Rdpgfx => Some(Action::GraphicsPipelineInit(interface)),
        Channel::Geometry => Some(Action::GeometryInit(interface)),
        Channel::VideoControl => Some(Action::VideoControlInit(interface)),
        Channel::VideoData => Some(Action::VideoDataInit(interface)),
        _ => None,
    }
}

/// The native work that the disconnection of a channel asks for, if any.
pub open spec fn disconnected_action(channel: Channel, interface: usize) -> Option<Action> {
    match channel {
        Channel::Rdpgfx => Some(Action::GraphicsPipelineUninit(interface)),
        Channel::Geometry => Some(Action::GeometryUninit(interface)),
        Channel::VideoControl => Some(Action::VideoControlUninit(interface)),
        Channel::VideoData => Some(Action::VideoDataUninit(interface)),
        _ => None,
    }
}

/// The release that letting go of a clipboard context asks for: one if the
/// context is owned and has a handler, none otherwise.
pub open spec fn cliprdr_release(context: Option<CliprdrClientContext>) -> Seq<Action> {
    match context {
        Some(c) if c.spec_owned() && c.spec_is_registered() => seq![
            Action::ReleaseCliprdrHandler(c.spec_as_ptr()),
        ],
        _ => Seq::empty(),
    }
}

/// The release that letting go of a multiparty context asks for: one if the
/// context is owned and has a handler, none otherwise.
pub open spec fn encomsp_release(context: Option<EncomspClientContext>) -> Seq<Action> {
    match context {
        Some(c) if c.spec_owned() && c.spec_is_registered() => seq![
            Action::ReleaseEncomspHandler(c.spec_as_ptr()),
        ],
        _ => Seq::empty(),
    }
}

/// The steps that take down a session: first its default subscriptions end,
/// as far as it holds them; then the handlers of the clipboard channel at
/// `cliprdr` and of the multiparty channel at `encomsp` are released, each
/// named only if its handler is to be released; then the session's own
/// handler, if there is one; and the native context is freed last, if the
/// session owns it.
pub open spec fn teardown_steps(
    connected: bool,
    disconnected: bool,
    cliprdr: Option<usize>,
    encomsp: Option<usize>,
    has_handler: bool,
    owned: bool,
    rdp_context: usize,
) -> Seq<TeardownStep> {
    (if connected {
        seq![TeardownStep::UnsubscribeChannelConnected]
    } else {
        Seq::empty()
    }) + (if disconnected {
        seq![TeardownStep::UnsubscribeChannelDisconnected]
    } else {
        Seq::empty()
    }) + (match cliprdr {
        Some(c) => seq![TeardownStep::ReleaseCliprdrHandler(c)],
        None => Seq::empty(),
    }) + (match encomsp {
        Some(e) => seq![TeardownStep::ReleaseEncomspHandler(e)],
        None => Seq::empty(),
    }) + (if has_handler {
        seq![TeardownStep::ReleaseHandler]
    } else {
        Seq::empty()
    }) + (if owned {
        seq![TeardownStep::FreeContext(rdp_context)]
    } else {
        Seq::empty()
    })
}

/// In the steps that take a session down, nothing is done after the native
/// context has been freed: every other step, and with it every release of a
/// handler and every end of a subscription, stands before the step that
/// frees the context. The session's handler is released exactly if there is
/// one, and the context freed exactly if the session owns it.
pub proof fn handlers_go_before_context(
    connected: bool,
    disconnected: bool,
    cliprdr: Option<usize>,
    encomsp: Option<usize>,
    has_handler: bool,
    owned: bool,
    rdp_context: usize,
)
    ensures
        ({
            let steps = teardown_steps(
                connected,
                disconnected,
                cliprdr,
                encomsp,
                has_handler,
                owned,
                rdp_context,
            );
            &&& forall|i: int, j: int|
                0 <= i < steps.len() && 0 <= j < steps.len() && steps[i] is FreeContext
                    && !(steps[j] is FreeContext) ==> j < i
            &&& has_handler <==> steps.contains(TeardownStep::ReleaseHandler)
            &&& owned <==> steps.contains(TeardownStep::FreeContext(rdp_context))
        }),
{
    let steps = teardown_steps(
        connected,
        disconnected,
        cliprdr,
        encomsp,
        has_handler,
        owned,
        rdp_context,
    );
    let u: Seq<TeardownStep> = if connected {
        seq![TeardownStep::UnsubscribeChannelConnected]
    } else {
        Seq::empty()
    };
    let v: Seq<TeardownStep> = if disconnected {
        seq![TeardownStep::UnsubscribeChannelDisconnected]
    } else {
        Seq::empty()
    };
    let a: Seq<TeardownStep> = match cliprdr {
        Some(c) => seq![TeardownStep::ReleaseCliprdrHandler(c)],
        None => Seq::empty(),
    };
    let b: Seq<TeardownStep> = match encomsp {
        Some(e) => seq![TeardownStep::ReleaseEncomspHandler(e)],
        None => Seq::empty(),
    };
    let c: Seq<TeardownStep> = if has_handler {
        seq![TeardownStep::ReleaseHandler]
    } else {
        Seq::empty()
    };
    let d: Seq<TeardownStep> = if owned {
        seq![TeardownStep::FreeContext(rdp_context)]
    } else {
        Seq::empty()
    };
    let before = u + v + a + b;
    assert(steps == before + c + d);
    assert forall|i: int| 0 <= i < (before + c).len() implies !((before + c)[i]
        is FreeContext) by {}
    assert forall|i: int| 0 <= i < before.len() implies before[i]
        != TeardownStep::ReleaseHandler by {}
    if has_handler {
        assert(steps[before.len() as int] == TeardownStep::ReleaseHandler);
    }
    if owned {
        assert(steps[(before + c).len() as int] == TeardownStep::FreeContext(rdp_context));
    }
}

impl<H: Handler> Context<H> {
    /// The address of the native context.
    pub open spec fn spec_as_ptr(&self) -> usize {
        self.rdp_context.spec_addr()
    }

    /// Whether the native context is freed together with this value.
    pub open spec fn spec_owned(&self) -> bool {
        self.owned
    }

    /// A session around `handler` and the native context at `rdp_context`,
    /// whose settings, instance and event bus lie at the other addresses. No
    /// channel is connected yet and no native work is pending.
    pub fn new(
        handler: H,
        rdp_context: usize,
        settings: usize,
        instance: usize,
        pub_sub: usize,
    ) -> (ret: Context<H>)
        requires
            rdp_context != 0,
            settings != 0,
            instance != 0,
            pub_sub != 0,
        ensures
            ret.handler == Some(handler),
            ret.spec_as_ptr() == rdp_context,
            ret.spec_owned(),
            ret.settings.spec_as_ptr() == settings,
            !ret.settings.spec_owned(),
            ret.instance.spec_as_ptr() == instance,
            ret.pub_sub.spec_as_ptr() == pub_sub,
            ret.pub_sub.spec_subscriptions() == Seq::<(Seq<char>, u64)>::empty(),
            ret.pub_sub.spec_issued() == 0,
            ret.addins == 0,
            ret.rdpei is None,
            ret.disp is None,
            ret.cliprdr is None,
            ret.encomsp is None,
            ret.actions@ == Seq::<Action>::empty(),
            ret.default_channel_connected is None,
            ret.default_channel_disconnected is None,
    {
        Context {
            handler: Some(handler),
            settings: Settings::new(false, settings),
            instance: FreeRdp::new(instance),
            pub_sub: PubSub::new(pub_sub),
            rdpei: None,
            disp: None,
            cliprdr: None,
            encomsp: None,
            actions: Vec::new(),
            addins: 0,
            default_channel_connected: None,
            default_channel_disconnected: None,
            rdp_context: NativeRef::new_unchecked(rdp_context),
            owned: true,
        }
    }

    #[verifier::when_used_as_spec(spec_as_ptr)]
    pub fn as_ptr(&self) -> (ret: usize)
        ensures
            ret == self.spec_as_ptr(),
            ret != 0,
    {
        self.rdp_context.addr()
    }

    #[verifier::when_used_as_spec(spec_owned)]
    pub fn owned(&self) -> (ret: bool)
        ensures
            ret == self.spec_owned(),
    {
        self.owned
    }

    /// Reads what starting the client returned.
    pub fn client_start(&mut self, status: i32) -> (ret: Result<(), RdpError>)
        ensures
            status == 0 ==> ret is Ok,
            status != 0 ==> ret == Err::<(), RdpError>(RdpError::Code(RdpCode(status as u32))),
            *final(self) == *old(self),
    {
        assert(status == 0 <==> status as u32 == 0) by (bit_vector);
        cvt_nz(#[verifier::truncate] (status as u32))
    }

    /// Reads what stopping the client returned.
    pub fn client_stop(&mut self, status: i32) -> (ret: Result<(), RdpError>)
        ensures
            status == 0 ==> ret is Ok,
            status != 0 ==> ret == Err::<(), RdpError>(RdpError::Code(RdpCode(status as u32))),
            *final(self) == *old(self),
    {
        assert(status == 0 <==> status as u32 == 0) by (bit_vector);
        cvt_nz(#[verifier::truncate] (status as u32))
    }

    /// The wait objects of the session: the first `count` of `handles`, none
    /// of them owned. A count of zero means that the native side could not
    /// name them.
    pub fn event_handles(&self, handles: &[usize], count: u32) -> (ret: Result<
        Vec<Handle>,
        RdpError,
    >)
        requires
            count <= handles@.len(),
        ensures
            match ret {
                Ok(v) => {
                    &&& count != 0
                    &&& v@.len() == count
                    &&& forall|i: int|
                        0 <= i < count ==> (#[trigger] v@[i]).spec_as_raw() == handles@[i]
                            && !v@[i].spec_owned()
                },
                Err(e) => {
                    &&& count == 0
                    &&& e matches RdpError::Failed(m)
                    &&& m@ == "freerdp_get_event_handles() failed"@
                },
            },
    {
        if count == 0 {
            return Err(RdpError::Failed("freerdp_get_event_handles() failed".to_owned()));
        }
        let mut out: Vec<Handle> = Vec::new();
        let mut i: usize = 0;
        while i < count as usize
            invariant
                i <= count,
                count <= handles@.len(),
                out@.len() == i,
                forall|k: int|
                    0 <= k < i ==> (#[trigger] out@[k]).spec_as_raw() == handles@[k]
                        && !out@[k].spec_owned(),
            decreases count - i,
        {
            out.push(Handle::new(handles[i], false));
            i += 1;
        }
        Ok(out)
    }

    /// Reads the native answer to "were the events handled": a positive
    /// value is yes.
    pub fn check_event_handles(&mut self, answer: i32) -> (ret: bool)
        ensures
            ret == (answer > 0),
            *final(self) == *old(self),
    {
        answer > 0
    }

    /// The structured form of the session's last error code: none where the
    /// code is zero or stands for nothing known.
    pub fn last_error(&self, code: u32) -> (ret: Option<RdpErr>)
        ensures
            ret == if code == 0 {
                None
            } else {
                RdpCode(code).spec_as_err()
            },
    {
        match cvt_nz(code) {
            Err(RdpError::Code(c)) => c.as_err(),
            _ => None,
        }
    }

    /// The input channel of the session, unless the native context has none.
    pub fn input(&self, input: usize) -> (ret: Option<Input>)
        ensures
            input == 0 <==> ret is None,
            ret matches Some(x) ==> x.spec_as_ptr() == input,
    {
        if input == 0 {
            None
        } else {
            Some(Input::new(input))
        }
    }

    /// The drawing layer of the session, unless the native context has none.
    /// `palette` is where the palette lies inside it.
    pub fn gdi(&self, gdi: usize, palette: usize) -> (ret: Option<Gdi>)
        requires
            gdi != 0 ==> palette != 0,
        ensures
            gdi == 0 <==> ret is None,
            ret matches Some(x) ==> x.spec_as_ptr() == gdi && x.spec_palette().spec_as_ptr()
                == palette,
    {
        if gdi == 0 {
            None
        } else {
            Some(Gdi::new(gdi, palette))
        }
    }

    /// The graphics module of the session, unless the native context has
    /// none.
    pub fn graphics(&self, graphics: usize) -> (ret: Option<Graphics>)
        ensures
            graphics == 0 <==> ret is None,
            ret matches Some(x) ==> x.spec_as_ptr() == graphics,
    {
        if graphics == 0 {
            None
        } else {
            Some(Graphics::new(graphics))
        }
    }

    /// The update module of the session, unless the native context has none.
    pub fn update(&self, update: usize) -> (ret: Option<Update>)
        ensures
            update == 0 <==> ret is None,
            ret matches Some(x) ==> x.spec_as_ptr() == update,
    {
        if update == 0 {
            None
        } else {
            Some(Update::new(update))
        }
    }

    /// Takes note of what loading the channel add-ins returned, and reads it:
    /// non-zero is success.
    pub fn load_addins(&mut self, success: i32) -> (ret: Result<(), RdpError>)
        ensures
            is_outcome(ret, success != 0, "Failed to load client addins"@),
            *final(self) == (Context { addins: success, ..*old(self) }),
    {
        self.addins = success;
        outcome(success != 0, "Failed to load client addins")
    }

    /// Lets go of the clipboard context, if there is one, and asks for the
    /// release of its handler where this session is to release it.
    pub fn release_cliprdr(&mut self)
        ensures
            final(self).cliprdr is None,
            final(self).actions@ == old(self).actions@ + cliprdr_release(old(self).cliprdr),
            (Context { cliprdr: old(self).cliprdr, actions: old(self).actions, ..*final(self) })
                == *old(self),
    {
        match self.cliprdr.take() {
            Some(mut c) => {
                let at = c.as_ptr();
                if c.teardown() {
                    self.actions.push(Action::ReleaseCliprdrHandler(at));
                    assert(self.actions@ =~= old(self).actions@ + cliprdr_release(
                        old(self).cliprdr,
                    ));
                } else {
                    assert(self.actions@ =~= old(self).actions@ + cliprdr_release(
                        old(self).cliprdr,
                    ));
                }
            },
            None => {
                assert(self.actions@ =~= old(self).actions@ + cliprdr_release(old(self).cliprdr));
            },
        }
    }

    /// Lets go of the multiparty context, if there is one, and asks for the
    /// release of its handler where this session is to release it.
    pub fn release_encomsp(&mut self)
        ensures
            final(self).encomsp is None,
            final(self).actions@ == old(self).actions@ + encomsp_release(old(self).encomsp),
            (Context { encomsp: old(self).encomsp, actions: old(self).actions, ..*final(self) })
                == *old(self),
    {
        match self.encomsp.take() {
            Some(mut c) => {
                let at = c.as_ptr();
                if c.teardown() {
                    self.actions.push(Action::ReleaseEncomspHandler(at));
                    assert(self.actions@ =~= old(self).actions@ + encomsp_release(
                        old(self).encomsp,
                    ));
                } else {
                    assert(self.actions@ =~= old(self).actions@ + encomsp_release(
                        old(self).encomsp,
                    ));
                }
            },
            None => {
                assert(self.actions@ =~= old(self).actions@ + encomsp_release(old(self).encomsp));
            },
        }
    }

    /// Whether `after` is what the connection of the channel `name`, with its
    /// native interface at `interface`, makes of the session `before`.
    ///
    /// A touch or display channel is kept. A clipboard or multiparty channel
    /// is kept in place of the context that the session had, whose handler is
    /// released; where the session has no handler to show it to, it is kept
    /// as a context that the session owns and that has no handler yet. For a
    /// graphics or video channel the matching set-up is asked for. Nothing
    /// changes for other channels, or where `interface` is null.
    pub open spec fn connected(
        before: Context<H>,
        after: Context<H>,
        name: Seq<char>,
        interface: usize,
    ) -> bool {
        if interface == 0 {
            after == before
        } else {
            match spec_channel_of(name) {
                Channel::Rdpei => {
                    &&& after.rdpei matches Some(c)
                    &&& c.spec_as_ptr() == interface
                    &&& (Context { rdpei: before.rdpei, ..after }) == before
                },
                Channel::Disp => {
                    &&& after.disp matches Some(c)
                    &&& c.spec_as_ptr() == interface
                    &&& (Context { disp: before.disp, ..after }) == before
                },
                Channel::Cliprdr => {
                    &&& after.actions@ == before.actions@ + cliprdr_release(before.cliprdr)
                    &&& (Context {
                        cliprdr: before.cliprdr,
                        handler: before.handler,
                        actions: before.actions,
                        ..after
                    }) == before
                    &&& after.cliprdr is Some
                    &&& match before.handler {
                        Some(_) => after.handler is Some,
                        None => {
                            &&& after.handler is None
                            &&& after.cliprdr->0.spec_as_ptr() == interface
                            &&& after.cliprdr->0.spec_owned()
                            &&& !after.cliprdr->0.spec_is_registered()
                        },
                    }
                },
                Channel::Encomsp => {
                    &&& after.actions@ == before.actions@ + encomsp_release(before.encomsp)
                    &&& (Context {
                        encomsp: before.encomsp,
                        handler: before.handler,
                        actions: before.actions,
                        ..after
                    }) == before
                    &&& after.encomsp is Some
                    &&& match before.handler {
                        Some(_) => after.handler is Some,
                        None => {
                            &&& after.handler is None
                            &&& after.encomsp->0.spec_as_ptr() == interface
                            &&& after.encomsp->0.spec_owned()
                            &&& !after.encomsp->0.spec_is_registered()
                        },
                    }
                },
                Channel::Rail | Channel::Unknown => after == before,
                other => {
                    &&& after.actions@ == before.actions@.push(
                        connected_action(other, interface)->0,
                    )
                    &&& (Context { actions: before.actions, ..after }) == before
                },
            }
        }
    }

    /// Takes note that the channel `name` was connected, with its native
    /// interface at `interface`. A clipboard or multiparty channel is shown
    /// to the session's handler first, as a context that the session owns and
    /// that has no handler yet; what the call leaves of the handler and of
    /// the context is what the session keeps.
    pub fn channel_connected(&mut self, name: &str, interface: usize)
        ensures
            Context::connected(*old(self), *final(self), name@, interface),
            ({
                &&& interface != 0
                &&& spec_channel_of(name@) == Channel::Cliprdr
                &&& old(self).handler is Some
            }) ==> exists|h: &mut H, shown: &mut CliprdrClientContext|
                {
                    &&& mut_ref_current(h) == old(self).handler->0
                    &&& final(self).handler == Some(mut_ref_future(h))
                    &&& mut_ref_current(shown).spec_as_ptr() == interface
                    &&& mut_ref_current(shown).spec_owned()
                    &&& !mut_ref_current(shown).spec_is_registered()
                    &&& final(self).cliprdr == Some(mut_ref_future(shown))
                    &&& #[trigger] call_ensures(H::clipboard_connected, (h, shown), ())
                },
            ({
                &&& interface != 0
                &&& spec_channel_of(name@) == Channel::Encomsp
                &&& old(self).handler is Some
            }) ==> exists|h: &mut H, shown: &mut EncomspClientContext|
                {
                    &&& mut_ref_current(h) == old(self).handler->0
                    &&& final(self).handler == Some(mut_ref_future(h))
                    &&& mut_ref_current(shown).spec_as_ptr() == interface
                    &&& mut_ref_current(shown).spec_owned()
                    &&& !mut_ref_current(shown).spec_is_registered()
                    &&& final(self).encomsp == Some(mut_ref_future(shown))
                    &&& #[trigger] call_ensures(H::encomsp_connected, (h, shown), ())
                },
    {
        if interface == 0 {
            return ;
        }
        match channel_of(name) {
            Channel::Rdpei => {
                self.rdpei = Some(RdpeiClientContext::from_ptr(interface));
            },
            Channel::Rdpgfx => {
                self.actions.push(Action::GraphicsPipelineInit(interface));
            },
            Channel::Rail => {},
            Channel::Cliprdr => {
                let mut iface = CliprdrClientContext::from_ptr(interface, true, false);
                match self.handler.take() {
                    Some(mut handler) => {
                        handler.clipboard_connected(&mut iface);
                        self.handler = Some(handler);
                    },
                    None => {},
                }
                self.release_cliprdr();
                self.cliprdr = Some(iface);
            },
            Channel::Encomsp => {
                let mut iface = EncomspClientContext::from_ptr(interface, true, false);
                match self.handler.take() {
                    Some(mut handler) => {
                        handler.encomsp_connected(&mut iface);
                        self.handler = Some(handler);
                    },
                    None => {},
                }
                self.release_encomsp();
                self.encomsp = Some(iface);
            },
            Channel::Disp => {
                self.disp = Some(DispClientContext::from_ptr(interface));
            },
            Channel::Geometry => {
                self.actions.push(Action::GeometryInit(interface));
            },
            Channel::VideoControl => {
                self.actions.push(Action::VideoControlInit(interface));
            },
            Channel::VideoData => {
                self.actions.push(Action::VideoDataInit(interface));
            },
            Channel::Unknown => {},
        }
    }

    /// Whether `after` is what the disconnection of the channel `name`, with
    /// its native interface at `interface`, makes of the session `before`.
    ///
    /// A touch or display channel is forgotten, and so is a clipboard or
    /// multiparty channel, whose handler is released with it. For a graphics
    /// or video channel the matching take-down is asked for, unless
    /// `interface` is null. Nothing changes for other channels.
    pub open spec fn disconnected(
        before: Context<H>,
        after: Context<H>,
        name: Seq<char>,
        interface: usize,
    ) -> bool {
        match spec_channel_of(name) {
            Channel::Rdpei => after == (Context { rdpei: None, ..before }),
            Channel::Disp => after == (Context { disp: None, ..before }),
            Channel::Cliprdr => {
                &&& after.cliprdr is None
                &&& after.actions@ == before.actions@ + cliprdr_release(before.cliprdr)
                &&& (Context { cliprdr: before.cliprdr, actions: before.actions, ..after })
                    == before
            },
            Channel::Encomsp => {
                &&& after.encomsp is None
                &&& after.actions@ == before.actions@ + encomsp_release(before.encomsp)
                &&& (Context { encomsp: before.encomsp, actions: before.actions, ..after })
                    == before
            },
            Channel::Rail | Channel::Unknown => after == before,
            other => if interface == 0 {
                after == before
            } else {
                &&& after.actions@ == before.actions@.push(
                    disconnected_action(other, interface)->0,
                )
                &&& (Context { actions: before.actions, ..after }) == before
            },
        }
    }

    /// Takes note that the channel `name` was disconnected, where its native
    /// interface was at `interface`.
    pub fn channel_disconnected(&mut self, name: &str, interface: usize)
        ensures
            Context::disconnected(*old(self), *final(self), name@, interface),
    {
        match channel_of(name) {
            Channel::Rdpei => {
                self.rdpei = None;
            },
            Channel::Rdpgfx => {
                if interface != 0 {
                    self.actions.push(Action::GraphicsPipelineUninit(interface));
                }
            },
            Channel::Rail => {},
            Channel::Cliprdr => {
                self.release_cliprdr();
            },
            Channel::Encomsp => {
                self.release_encomsp();
            },
            Channel::Disp => {
                self.disp = None;
            },
            Channel::Geometry => {
                if interface != 0 {
                    self.actions.push(Action::GeometryUninit(interface));
                }
            },
            Channel::VideoControl => {
                if interface != 0 {
                    self.actions.push(Action::VideoControlUninit(interface));
                }
            },
            Channel::VideoData => {
                if interface != 0 {
                    self.actions.push(Action::VideoDataUninit(interface));
                }
            },
            Channel::Unknown => {},
        }
    }

    /// Ends the session. The steps to take come back in their order, and with
    /// them the handler, to be destroyed at its step: the default
    /// subscriptions end first, then the handlers of the channels are
    /// released, where this session is to release them, then the session's
    /// own, and the native context is freed last, if the session owns it.
    pub fn teardown(self) -> (ret: (Vec<TeardownStep>, Option<H>))
        ensures
            ret.1 == self.handler,
            ret.0@ == self.spec_teardown(),
    {
        let mut steps: Vec<TeardownStep> = Vec::new();
        let mut this = self;
        if this.default_channel_connected.is_some() {
            steps.push(TeardownStep::UnsubscribeChannelConnected);
        }
        if this.default_channel_disconnected.is_some() {
            steps.push(TeardownStep::UnsubscribeChannelDisconnected);
        }
        match this.cliprdr.take() {
            Some(mut c) => {
                let at = c.as_ptr();
                if c.teardown() {
                    steps.push(TeardownStep::ReleaseCliprdrHandler(at));
                }
            },
            None => {},
        }
        match this.encomsp.take() {
            Some(mut e) => {
                let at = e.as_ptr();
                if e.teardown() {
                    steps.push(TeardownStep::ReleaseEncomspHandler(at));
                }
            },
            None => {},
        }
        let handler = this.handler.take();
        if handler.is_some() {
            steps.push(TeardownStep::ReleaseHandler);
        }
        if this.owned {
            steps.push(TeardownStep::FreeContext(this.rdp_context.addr()));
        }
        assert(steps@ =~= self.spec_teardown());
        (steps, handler)
    }

    /// The steps that take this session down.
    pub open spec fn spec_teardown(&self) -> Seq<TeardownStep> {
        teardown_steps(
            self.default_channel_connected is Some,
            self.default_channel_disconnected is Some,
            match self.cliprdr {
                Some(c) if c.spec_owned() && c.spec_is_registered() => Some(c.spec_as_ptr()),
                _ => None,
            },
            match self.encomsp {
                Some(e) if e.spec_owned() && e.spec_is_registered() => Some(e.spec_as_ptr()),
                _ => None,
            },
            self.handler is Some,
            self.spec_owned(),
            self.spec_as_ptr(),
        )
    }
}

/// Forwards the global set-up to the handler type, and reports what came of
/// it as a truth value.
pub fn rdp_global_init<H: Handler>() -> (ret: i32)
    ensures
        exists|outcome: Result<(), RdpError>|
            call_ensures(H::global_init, (), outcome) && ret
                == Slot::GlobalInit.spec_convention().spec_encode(outcome is Ok),
{
    let outcome = H::global_init();
    Slot::GlobalInit.native_return(&outcome) as i32
}

/// Forwards the global take-down to the handler type.
pub fn rdp_global_uninit<H: Handler>()
    ensures
        call_ensures(H::global_uninit, (), ()),
{
    H::global_uninit()
}

/// Forwards "about to connect" to the session's handler. `addins` is what
/// loading the channel add-ins returned; the session takes note of it first.
/// The handler is then taken out of the session for the call and gets the
/// session without it; afterwards the session is what the call left of it,
/// with the handler put back as the call left it. The answer is the truth
/// value of the handler's outcome. Without a handler the call fails, and only
/// the note of the add-ins is taken.
pub fn rdp_instance_pre_connect<H: Handler>(context: &mut Context<H>, addins: i32) -> (ret: i32)
    ensures
        old(context).handler is None ==> ret == 0 && *final(context) == (Context {
            addins,
            ..*old(context)
        }),
        old(context).handler is Some ==> exists|
            h: &mut H,
            c: &mut Context<H>,
            outcome: Result<(), RdpError>,
        |
            {
                &&& mut_ref_current(h) == old(context).handler->0
                &&& mut_ref_current(c) == (Context { handler: None, addins, ..*old(context) })
                &&& *final(context) == (Context {
                    handler: Some(mut_ref_future(h)),
                    ..mut_ref_future(c)
                })
                &&& #[trigger] call_ensures(H::pre_connect, (h, c), outcome)
                &&& ret == Slot::PreConnect.reports(outcome is Ok)
            },
{
    context.addins = addins;
    match context.handler.take() {
        Some(mut handler) => {
            let outcome = handler.pre_connect(context);
            context.handler = Some(handler);
            Slot::PreConnect.native_return(&outcome) as i32
        },
        None => 0,
    }
}

/// Forwards "connected" to the session's handler. The handler is
/// taken out of the session for the call and gets the session without it;
/// afterwards the session is what the call left of it, with the handler put
/// back as the call left it. The answer is the truth value of the handler's
/// outcome. Without a handler the call fails and nothing changes.
pub fn rdp_instance_post_connect<H: Handler>(context: &mut Context<H>) -> (ret: i32)
    ensures
        old(context).handler is None ==> ret == 0 && *final(context) == *old(context),
        old(context).handler is Some ==> exists|
            h: &mut H,
            c: &mut Context<H>,
            outcome: Result<(), RdpError>,
        |
            {
                &&& mut_ref_current(h) == old(context).handler->0
                &&& mut_ref_current(c) == (Context { handler: None, ..*old(context) })
                &&& *final(context) == (Context {
                    handler: Some(mut_ref_future(h)),
                    ..mut_ref_future(c)
                })
                &&& #[trigger] call_ensures(H::post_connect, (h, c), outcome)
                &&& ret == Slot::PostConnect.reports(outcome is Ok)
            },
{
    match context.handler.take() {
        Some(mut handler) => {
            let outcome = handler.post_connect(context);
            context.handler = Some(handler);
            Slot::PostConnect.native_return(&outcome) as i32
        },
        None => 0,
    }
}

/// Forwards "disconnected" to the session's handler, if there is one. The
/// handler is taken out of the session for the call and gets the session
/// without it; afterwards the session is what the call left of it, with the
/// handler put back as the call left it.
pub fn rdp_instance_post_disconnect<H: Handler>(context: &mut Context<H>)
    ensures
        old(context).handler is None ==> *final(context) == *old(context),
        old(context).handler is Some ==> exists|h: &mut H, c: &mut Context<H>|
            {
                &&& mut_ref_current(h) == old(context).handler->0
                &&& mut_ref_current(c) == (Context { handler: None, ..*old(context) })
                &&& *final(context) == (Context {
                    handler: Some(mut_ref_future(h)),
                    ..mut_ref_future(c)
                })
                &&& #[trigger] call_ensures(H::post_disconnect, (h, c), ())
            },
{
    match context.handler.take() {
        Some(mut handler) => {
            handler.post_disconnect(context);
            context.handler = Some(handler);
        },
        None => {},
    }
}

/// Forwards the request for credentials to the session's handler. The handler is
/// taken out of the session for the call and gets the session without it;
/// afterwards the session is what the call left of it, with the handler put
/// back as the call left it. The answer is the truth value of the handler's
/// outcome. Without a handler the call fails and nothing changes.
pub fn rdp_instance_authenticate<H: Handler>(context: &mut Context<H>) -> (ret: i32)
    ensures
        old(context).handler is None ==> ret == 0 && *final(context) == *old(context),
        old(context).handler is Some ==> exists|
            h: &mut H,
            c: &mut Context<H>,
            outcome: Result<(), RdpError>,
        |
            {
                &&& mut_ref_current(h) == old(context).handler->0
                &&& mut_ref_current(c) == (Context { handler: None, ..*old(context) })
                &&& *final(context) == (Context {
                    handler: Some(mut_ref_future(h)),
                    ..mut_ref_future(c)
                })
                &&& #[trigger] call_ensures(H::authenticate, (h, c), outcome)
                &&& ret == Slot::Authenticate.reports(outcome is Ok)
            },
{
    match context.handler.take() {
        Some(mut handler) => {
            let outcome = handler.authenticate(context);
            context.handler = Some(handler);
            Slot::Authenticate.native_return(&outcome) as i32
        },
        None => 0,
    }
}

/// The common name of a certificate as the handler gets it: the text that
/// the bytes encode, and none where the name is missing or no valid UTF-8.
pub open spec fn spec_common_name(common_name: Option<&[u8]>) -> Option<Seq<char>> {
    match common_name {
        Some(b) => if valid_utf8(b@) {
            Some(decode_utf8(b@))
        } else {
            None
        },
        None => None,
    }
}

/// Whether `given` is the text `text`, or missing as it is.
pub open spec fn is_text(given: Option<&str>, text: Option<Seq<char>>) -> bool {
    match text {
        Some(t) => given matches Some(g) && g@ == t,
        None => given is None,
    }
}

/// Forwards a certificate to the session's handler and hands its decision
/// back as a number. The texts come as C strings: the common name may be
/// missing, or be no valid UTF-8, and is then passed on as missing; any of
/// the others that is no valid UTF-8 fails the certificate without asking
/// the handler, and so does a session without a handler.
pub fn rdp_instance_verify_certificate<H: Handler>(
    context: &mut Context<H>,
    host: &[u8],
    port: u16,
    common_name: Option<&[u8]>,
    subject: &[u8],
    issuer: &[u8],
    fingerprint: &[u8],
    flags: u32,
) -> (ret: u32)
    ensures
        old(context).handler is None || !valid_utf8(host@) || !valid_utf8(subject@) || !valid_utf8(
            issuer@,
        ) || !valid_utf8(fingerprint@) ==> ret == VerifyCertificateResult::Fail.spec_code()
            && *final(context) == *old(context),
        old(context).handler is Some && valid_utf8(host@) && valid_utf8(subject@) && valid_utf8(
            issuer@,
        ) && valid_utf8(fingerprint@) ==> exists|
            h: &mut H,
            host_text: &str,
            common_text: Option<&str>,
            subject_text: &str,
            issuer_text: &str,
            fingerprint_text: &str,
            decision: VerifyCertificateResult,
        |
            {
                &&& mut_ref_current(h) == old(context).handler->0
                &&& final(context).handler == Some(mut_ref_future(h))
                &&& host_text@ == decode_utf8(host@)
                &&& is_text(common_text, spec_common_name(common_name))
                &&& subject_text@ == decode_utf8(subject@)
                &&& issuer_text@ == decode_utf8(issuer@)
                &&& fingerprint_text@ == decode_utf8(fingerprint@)
                &&& #[trigger] call_ensures(
                    H::verify_certificate,
                    (
                        h,
                        host_text,
                        port,
                        common_text,
                        subject_text,
                        issuer_text,
                        fingerprint_text,
                        flags,
                    ),
                    decision,
                )
                &&& ret == decision.spec_code()
            },
        (Context { handler: old(context).handler, ..*final(context) }) == *old(context),
{
    let common_name: Option<String> = match common_name {
        Some(b) => decode_strict(b),
        None => None,
    };
    let host = decode_strict(host);
    let subject = decode_strict(subject);
    let issuer = decode_strict(issuer);
    let fingerprint = decode_strict(fingerprint);
    match (&mut context.handler, host, subject, issuer, fingerprint) {
        (Some(handler), Some(host), Some(subject), Some(issuer), Some(fingerprint)) => {
            let decision = match &common_name {
                Some(n) => handler.verify_certificate(
                    host.as_str(),
                    port,
                    Some(n.as_str()),
                    subject.as_str(),
                    issuer.as_str(),
                    fingerprint.as_str(),
                    flags,
                ),
                None => handler.verify_certificate(
                    host.as_str(),
                    port,
                    None,
                    subject.as_str(),
                    issuer.as_str(),
                    fingerprint.as_str(),
                    flags,
                ),
            };
            u32::from(decision)
        },
        _ => u32::from(VerifyCertificateResult::Fail),
    }
}

/// Forwards a certificate that differs from the one on record to the
/// session's handler and hands its decision back as a number. The texts are
/// read as for a first certificate.
pub fn rdp_instance_verify_changed_certificate<H: Handler>(
    context: &mut Context<H>,
    host: &[u8],
    port: u16,
    common_name: Option<&[u8]>,
    subject: &[u8],
    issuer: &[u8],
    new_fingerprint: &[u8],
    old_subject: &[u8],
    old_issuer: &[u8],
    old_fingerprint: &[u8],
    flags: u32,
) -> (ret: u32)
    ensures
        old(context).handler is None || !valid_utf8(host@) || !valid_utf8(subject@) || !valid_utf8(
            issuer@,
        ) || !valid_utf8(new_fingerprint@) || !valid_utf8(old_subject@) || !valid_utf8(old_issuer@)
            || !valid_utf8(old_fingerprint@) ==> ret == VerifyCertificateResult::Fail.spec_code()
            && *final(context) == *old(context),
        old(context).handler is Some && valid_utf8(host@) && valid_utf8(subject@) && valid_utf8(
            issuer@,
        ) && valid_utf8(new_fingerprint@) && valid_utf8(old_subject@) && valid_utf8(old_issuer@)
            && valid_utf8(old_fingerprint@) ==> exists|
            h: &mut H,
            host_text: &str,
            common_text: Option<&str>,
            subject_text: &str,
            issuer_text: &str,
            new_fingerprint_text: &str,
            old_subject_text: &str,
            old_issuer_text: &str,
            old_fingerprint_text: &str,
            decision: VerifyCertificateResult,
        |
            {
                &&& mut_ref_current(h) == old(context).handler->0
                &&& final(context).handler == Some(mut_ref_future(h))
                &&& host_text@ == decode_utf8(host@)
                &&& is_text(common_text, spec_common_name(common_name))
                &&& subject_text@ == decode_utf8(subject@)
                &&& issuer_text@ == decode_utf8(issuer@)
                &&& new_fingerprint_text@ == decode_utf8(new_fingerprint@)
                &&& old_subject_text@ == decode_utf8(old_subject@)
                &&& old_issuer_text@ == decode_utf8(old_issuer@)
                &&& old_fingerprint_text@ == decode_utf8(old_fingerprint@)
                &&& #[trigger] call_ensures(
                    H::verify_certificate_changed,
                    (
                        h,
                        host_text,
                        port,
                        common_text,
                        subject_text,
                        issuer_text,
                        new_fingerprint_text,
                        old_subject_text,
                        old_issuer_text,
                        old_fingerprint_text,
                        flags,
                    ),
                    decision,
                )
                &&& ret == decision.spec_code()
            },
        (Context { handler: old(context).handler, ..*final(context) }) == *old(context),
{
    let common_name: Option<String> = match common_name {
        Some(b) => decode_strict(b),
        None => None,
    };
    let host = decode_strict(host);
    let subject = decode_strict(subject);
    let issuer = decode_strict(issuer);
    let new_fingerprint = decode_strict(new_fingerprint);
    let old_subject = decode_strict(old_subject);
    let old_issuer = decode_strict(old_issuer);
    let old_fingerprint = decode_strict(old_fingerprint);
    match (
        &mut context.handler,
        host,
        subject,
        issuer,
        new_fingerprint,
        old_subject,
        old_issuer,
        old_fingerprint,
    ) {
        (
            Some(handler),
            Some(host),
            Some(subject),
            Some(issuer),
            Some(new_fingerprint),
            Some(old_subject),
            Some(old_issuer),
            Some(old_fingerprint),
        ) => {
            let decision = match &common_name {
                Some(n) => handler.verify_certificate_changed(
                    host.as_str(),
                    port,
                    Some(n.as_str()),
                    subject.as_str(),
                    issuer.as_str(),
                    new_fingerprint.as_str(),
                    old_subject.as_str(),
                    old_issuer.as_str(),
                    old_fingerprint.as_str(),
                    flags,
                ),
                None => handler.verify_certificate_changed(
                    host.as_str(),
                    port,
                    None,
                    subject.as_str(),
                    issuer.as_str(),
                    new_fingerprint.as_str(),
                    old_subject.as_str(),
                    old_issuer.as_str(),
                    old_fingerprint.as_str(),
                    flags,
                ),
            };
            u32::from(decision)
        },
        _ => u32::from(VerifyCertificateResult::Fail),
    }
}

/// Forwards a message of the gateway to the session's handler. The message
/// comes as UTF-16 and is decoded leniently; the two flags are truth values
/// of the native side. Without a handler the call fails.
pub fn rdp_instance_present_gateway_message<H: Handler>(
    context: &mut Context<H>,
    type_: u32,
    is_display_mandatory: i32,
    is_consent_mandatory: i32,
    message: &[u16],
) -> (ret: i32)
    ensures
        old(context).handler is None ==> ret == 0,
        old(context).handler is Some ==> exists|
            h: &mut H,
            display: bool,
            consent: bool,
            text: &str,
            outcome: Result<(), RdpError>,
        |
            {
                &&& mut_ref_current(h) == old(context).handler->0
                &&& final(context).handler == Some(mut_ref_future(h))
                &&& display == (is_display_mandatory != 0)
                &&& consent == (is_consent_mandatory != 0)
                &&& text@ == lossy_utf16_decoding(message@)
                &&& #[trigger] call_ensures(
                    H::present_gateway_message,
                    (h, type_, display, consent, text),
                    outcome,
                )
                &&& ret == Slot::PresentGatewayMessage.reports(outcome is Ok)
            },
        (Context { handler: old(context).handler, ..*final(context) }) == *old(context),
{
    let msg = decode_utf16_lossy(message);
    match &mut context.handler {
        Some(handler) => {
            let outcome = handler.present_gateway_message(
                type_,
                is_display_mandatory != 0,
                is_consent_mandatory != 0,
                msg.as_str(),
            );
            Slot::PresentGatewayMessage.native_return(&outcome) as i32
        },
        None => 0,
    }
}

/// Forwards information on a failed logon to the session's handler and hands
/// its answer back. Without a handler the answer is 1, as the default
/// handler gives it.
pub fn rdp_instance_logon_error_info<H: Handler>(
    context: &mut Context<H>,
    data: u32,
    type_: u32,
) -> (ret: i32)
    ensures
        old(context).handler is None ==> ret == 1,
        old(context).handler is Some ==> exists|h: &mut H|
            {
                &&& mut_ref_current(h) == old(context).handler->0
                &&& final(context).handler == Some(mut_ref_future(h))
                &&& #[trigger] call_ensures(H::logon_error_info, (h, data, type_), ret)
            },
        (Context { handler: old(context).handler, ..*final(context) }) == *old(context),
{
    match &mut context.handler {
        Some(handler) => handler.logon_error_info(data, type_),
        None => 1,
    }
}

/// Forwards "a client instance was made" to the handler type, and reports
/// what came of it as a truth value. Without an instance the call fails.
pub fn rdp_client_new<H: Handler>(instance: usize) -> (ret: i32)
    ensures
        instance == 0 ==> ret == 0,
        instance != 0 ==> exists|wrapped: FreeRdp, outcome: Result<(), RdpError>|
            wrapped.spec_as_ptr() == instance && call_ensures(H::client_new, (&wrapped,), outcome)
                && ret == Slot::ClientNew.spec_convention().spec_encode(outcome is Ok),
{
    if instance == 0 {
        return 0;
    }
    let wrapped = FreeRdp::new(instance);
    let outcome = H::client_new(&wrapped);
    Slot::ClientNew.native_return(&outcome) as i32
}

/// Forwards "the client instance goes away" to the handler type, if there is
/// an instance.
pub fn rdp_client_free<H: Handler>(instance: usize)
    ensures
        instance != 0 ==> exists|wrapped: FreeRdp|
            wrapped.spec_as_ptr() == instance && #[trigger] call_ensures(
                H::client_free,
                (&wrapped,),
                (),
            ),
{
    if instance != 0 {
        let wrapped = FreeRdp::new(instance);
        H::client_free(&wrapped)
    }
}

/// Forwards "start" to the session's handler: zero on success, else the
/// number that the handler chose. Without a handler the call fails with 1.
pub fn rdp_client_start<H: Handler>(context: &mut Context<H>) -> (ret: i32)
    ensures
        old(context).handler is None ==> ret == 1,
        old(context).handler is Some ==> exists|h: &mut H, outcome: Result<(), i32>|
            {
                &&& mut_ref_current(h) == old(context).handler->0
                &&& final(context).handler == Some(mut_ref_future(h))
                &&& #[trigger] call_ensures(H::client_start, (h,), outcome)
                &&& ret == spec_exit_code(outcome)
            },
        (Context { handler: old(context).handler, ..*final(context) }) == *old(context),
{
    match &mut context.handler {
        Some(handler) => {
            let outcome = handler.client_start();
            exit_code(&outcome)
        },
        None => 1,
    }
}

/// Forwards "stop" to the session's handler: zero on success, else the
/// number that the handler chose. Without a handler the call fails with 1.
pub fn rdp_client_stop<H: Handler>(context: &mut Context<H>) -> (ret: i32)
    ensures
        old(context).handler is None ==> ret == 1,
        old(context).handler is Some ==> exists|h: &mut H, outcome: Result<(), i32>|
            {
                &&& mut_ref_current(h) == old(context).handler->0
                &&& final(context).handler == Some(mut_ref_future(h))
                &&& #[trigger] call_ensures(H::client_stop, (h,), outcome)
                &&& ret == spec_exit_code(outcome)
            },
        (Context { handler: old(context).handler, ..*final(context) }) == *old(context),
{
    match &mut context.handler {
        Some(handler) => {
            let outcome = handler.client_stop();
            exit_code(&outcome)
        },
        None => 1,
    }
}

} // verus!
