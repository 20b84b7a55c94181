use freerdp2::channels;
use freerdp2::client::cliprdr::{CliprdrClientContext, CliprdrHandler};
use freerdp2::client::context::{
    channel_of, rdp_client_free, rdp_client_new, rdp_client_start, rdp_client_stop,
    rdp_global_init, rdp_global_uninit, rdp_instance_authenticate,
    rdp_instance_logon_error_info, rdp_instance_post_connect, rdp_instance_post_disconnect,
    rdp_instance_pre_connect, rdp_instance_present_gateway_message,
    rdp_instance_verify_certificate, rdp_instance_verify_changed_certificate, Action, Channel,
    Context, Handler, TeardownStep, VerifyCertificateResult,
};
use freerdp2::client::custom::Custom;
use freerdp2::client::encomsp::EncomspClientContext;
use freerdp2::error::{RdpCode, RdpErr, RdpErrConnect, RdpError};
use freerdp2::freerdp::FreeRdp;

#[derive(Debug)]
struct MyHandler {}

impl Handler for MyHandler {
    fn global_init() -> Result<(), RdpError> {
        Ok(())
    }

    fn global_uninit() {}

    fn client_new(_instance: &FreeRdp) -> Result<(), RdpError> {
        Ok(())
    }

    fn client_free(_instance: &FreeRdp) {}

    fn client_start(&mut self) -> Result<(), i32> {
        Ok(())
    }

    fn client_stop(&mut self) -> Result<(), i32> {
        Ok(())
    }

    fn post_connect(&mut self, _context: &mut Context<Self>) -> Result<(), RdpError> {
        Ok(())
    }
}

#[derive(Debug, Default)]
struct Spy {
    log: Vec<String>,
    fail: bool,
    decision: u8,
}

struct Clip;

impl CliprdrHandler for Clip {}

impl Handler for Spy {
    fn global_init() -> Result<(), RdpError> {
        Err(RdpError::Unsupported)
    }

    fn client_new(instance: &FreeRdp) -> Result<(), RdpError> {
        if instance.as_ptr() == 0x3000 {
            Ok(())
        } else {
            Err(RdpError::Unsupported)
        }
    }

    fn client_start(&mut self) -> Result<(), i32> {
        self.log.push("start".to_string());
        if self.fail {
            Err(-7)
        } else {
            Ok(())
        }
    }

    fn client_stop(&mut self) -> Result<(), i32> {
        self.log.push("stop".to_string());
        if self.fail {
            Err(0)
        } else {
            Ok(())
        }
    }

    fn clipboard_connected(&mut self, clip: &mut CliprdrClientContext) {
        self.log.push(format!("clipboard at {:#x}", clip.as_ptr()));
        let _payload: Custom<Clip> = clip.register_handler(Clip);
    }

    fn encomsp_connected(&mut self, encomsp: &mut EncomspClientContext) {
        self.log.push(format!("encomsp at {:#x}", encomsp.as_ptr()));
    }

    fn post_connect(&mut self, context: &mut Context<Self>) -> Result<(), RdpError> {
        self.log.push(format!("post_connect, handler out: {}", context.handler.is_none()));
        if self.fail {
            Err(RdpError::Unsupported)
        } else {
            Ok(())
        }
    }

    fn verify_certificate(
        &mut self,
        host: &str,
        port: u16,
        common_name: Option<&str>,
        subject: &str,
        issuer: &str,
        fingerprint: &str,
        flags: u32,
    ) -> VerifyCertificateResult {
        self.log.push(format!(
            "{host}:{port} {common_name:?} {subject} {issuer} {fingerprint} {flags}"
        ));
        match self.decision {
            0 => VerifyCertificateResult::Fail,
            1 => VerifyCertificateResult::AcceptAndStore,
            _ => VerifyCertificateResult::AcceptOnlyThisSession,
        }
    }

    fn present_gateway_message(
        &mut self,
        type_: u32,
        is_display_mandatory: bool,
        is_consent_mandatory: bool,
        msg: &str,
    ) -> Result<(), RdpError> {
        self.log.push(format!("{type_} {is_display_mandatory} {is_consent_mandatory} {msg}"));
        if self.fail {
            Err(RdpError::Unsupported)
        } else {
            Ok(())
        }
    }

    fn logon_error_info(&mut self, data: u32, type_: u32) -> i32 {
        (data + type_) as i32
    }
}

fn spy() -> Context<Spy> {
    Context::new(Spy::default(), 0x1000, 0x2000, 0x3000, 0x4000)
}

fn log(context: &Context<Spy>) -> Vec<String> {
    context.handler.as_ref().unwrap().log.clone()
}

#[test]
fn it_works() {
    let mut ctxt = Context::new(MyHandler {}, 0x1000, 0x2000, 0x3000, 0x4000);
    ctxt.client_start(0).unwrap();
    ctxt.client_stop(0).unwrap();
}

#[test]
fn a_new_session_knows_its_parts_and_no_channel() {
    let context = spy();
    assert_eq!(context.as_ptr(), 0x1000);
    assert!(context.owned());
    assert_eq!(context.settings.as_ptr(), 0x2000);
    assert!(!context.settings.owned());
    assert_eq!(context.instance.as_ptr(), 0x3000);
    assert_eq!(context.pub_sub.as_ptr(), 0x4000);
    assert!(context.handler.is_some());
    assert!(context.rdpei.is_none());
    assert!(context.disp.is_none());
    assert!(context.cliprdr.is_none());
    assert!(context.encomsp.is_none());
    assert!(context.actions.is_empty());
    assert!(context.default_channel_connected.is_none());
    assert!(context.default_channel_disconnected.is_none());
}

#[test]
fn start_and_stop_read_a_code() {
    let mut context = spy();
    assert_eq!(context.client_start(0), Ok(()));
    assert_eq!(context.client_stop(0x0002_0006), Err(RdpError::Code(RdpCode(0x0002_0006))));
    assert_eq!(context.client_start(-1), Err(RdpError::Code(RdpCode(u32::MAX))));
    assert!(context.check_event_handles(1));
    assert!(!context.check_event_handles(0));
    assert!(!context.check_event_handles(-1));
    assert_eq!(context.load_addins(1), Ok(()));
    assert_eq!(context.addins, 1);
    assert_eq!(
        context.load_addins(0),
        Err(RdpError::Failed("Failed to load client addins".to_string()))
    );
    assert_eq!(context.addins, 0);
}

#[test]
fn the_last_error_is_decoded() {
    let context = spy();
    assert_eq!(context.last_error(0), None);
    assert_eq!(
        context.last_error(0x0002_0009),
        Some(RdpErr::RdpErrConnect(RdpErrConnect::AuthenticationFailed))
    );
    assert_eq!(context.last_error(0x0005_0001), None);
}

#[test]
fn event_handles_are_the_first_of_the_array_and_borrowed() {
    let context = spy();
    let raw = [0x10usize, 0x20, 0x30, 0, 0];
    let handles = context.event_handles(&raw, 3).unwrap();
    assert_eq!(handles.len(), 3);
    assert_eq!(handles.iter().map(|h| h.as_raw()).collect::<Vec<_>>(), vec![0x10, 0x20, 0x30]);
    assert!(handles.iter().all(|h| !h.owned()));
    assert_eq!(context.event_handles(&raw, 5).unwrap().len(), 5);
    assert_eq!(
        context.event_handles(&raw, 0).err(),
        Some(RdpError::Failed("freerdp_get_event_handles() failed".to_string()))
    );
}

#[test]
fn modules_are_wrapped_unless_null() {
    let context = spy();
    assert!(context.input(0).is_none());
    assert_eq!(context.input(0x50).map(|x| x.as_ptr()), Some(0x50));
    assert!(context.gdi(0, 0).is_none());
    let gdi = context.gdi(0x60, 0x68).unwrap();
    assert_eq!(gdi.as_ptr(), 0x60);
    assert_eq!(gdi.palette().as_ptr(), 0x68);
    assert!(context.graphics(0).is_none());
    assert_eq!(context.graphics(0x70).map(|x| x.as_ptr()), Some(0x70));
    assert!(context.update(0).is_none());
    assert_eq!(context.update(0x80).map(|x| x.as_ptr()), Some(0x80));
}

#[test]
fn channels_go_by_their_names() {
    assert_eq!(channels::rdpei::DVC_CHANNEL_NAME, "Microsoft::Windows::RDS::Input");
    assert_eq!(channels::rdpgfx::DVC_CHANNEL_NAME, "Microsoft::Windows::RDS::Graphics");
    assert_eq!(channels::disp::DVC_CHANNEL_NAME, "Microsoft::Windows::RDS::DisplayControl");
    assert_eq!(channel_of("Microsoft::Windows::RDS::Input"), Channel::Rdpei);
    assert_eq!(channel_of("Microsoft::Windows::RDS::Graphics"), Channel::Rdpgfx);
    assert_eq!(channel_of("rail"), Channel::Rail);
    assert_eq!(channel_of("cliprdr"), Channel::Cliprdr);
    assert_eq!(channel_of("encomsp"), Channel::Encomsp);
    assert_eq!(channel_of("Microsoft::Windows::RDS::DisplayControl"), Channel::Disp);
    assert_eq!(channel_of("Microsoft::Windows::RDS::Geometry::v08.01"), Channel::Geometry);
    assert_eq!(channel_of("Microsoft::Windows::RDS::Video::Control::v08.01"), Channel::VideoControl);
    assert_eq!(channel_of("Microsoft::Windows::RDS::Video::Data::v08.01"), Channel::VideoData);
    assert_eq!(channel_of("rdpsnd"), Channel::Unknown);
    assert_eq!(channel_of("CLIPRDR"), Channel::Unknown);
    assert_eq!(channel_of(""), Channel::Unknown);
}

#[test]
fn connected_channels_are_kept_or_set_up() {
    let mut context = spy();
    context.channel_connected("Microsoft::Windows::RDS::Input", 0x100);
    context.channel_connected("Microsoft::Windows::RDS::DisplayControl", 0x200);
    context.channel_connected("Microsoft::Windows::RDS::Graphics", 0x300);
    context.channel_connected("Microsoft::Windows::RDS::Geometry::v08.01", 0x400);
    context.channel_connected("Microsoft::Windows::RDS::Video::Control::v08.01", 0x500);
    context.channel_connected("Microsoft::Windows::RDS::Video::Data::v08.01", 0x600);
    context.channel_connected("rail", 0x700);
    context.channel_connected("rdpsnd", 0x800);
    assert_eq!(context.rdpei.as_ref().map(|c| c.as_ptr()), Some(0x100));
    assert_eq!(context.disp.as_ref().map(|c| c.as_ptr()), Some(0x200));
    assert_eq!(
        context.actions,
        vec![
            Action::GraphicsPipelineInit(0x300),
            Action::GeometryInit(0x400),
            Action::VideoControlInit(0x500),
            Action::VideoDataInit(0x600),
        ]
    );
    assert!(context.cliprdr.is_none());
    assert!(context.encomsp.is_none());
    assert!(log(&context).is_empty());
}

#[test]
fn the_handler_sees_a_clipboard_before_it_is_kept() {
    let mut context = spy();
    context.channel_connected("cliprdr", 0x900);
    context.channel_connected("encomsp", 0xA00);
    assert_eq!(log(&context), vec!["clipboard at 0x900", "encomsp at 0xa00"]);
    let clip = context.cliprdr.as_ref().unwrap();
    assert_eq!(clip.as_ptr(), 0x900);
    assert!(clip.owned());
    assert!(clip.is_registered());
    let encomsp = context.encomsp.as_ref().unwrap();
    assert_eq!(encomsp.as_ptr(), 0xA00);
    assert!(encomsp.owned());
    assert!(!encomsp.is_registered());
    assert!(context.actions.is_empty());
}

#[test]
fn a_channel_without_an_interface_is_ignored() {
    let mut context = spy();
    context.channel_connected("cliprdr", 0);
    context.channel_connected("Microsoft::Windows::RDS::Input", 0);
    context.channel_connected("Microsoft::Windows::RDS::Graphics", 0);
    assert!(context.cliprdr.is_none());
    assert!(context.rdpei.is_none());
    assert!(context.actions.is_empty());
    assert!(log(&context).is_empty());
}

#[test]
fn disconnected_channels_are_forgotten_or_taken_down() {
    let mut context = spy();
    context.channel_connected("Microsoft::Windows::RDS::Input", 0x100);
    context.channel_connected("Microsoft::Windows::RDS::DisplayControl", 0x200);
    context.channel_connected("cliprdr", 0x900);
    context.channel_connected("encomsp", 0xA00);
    context.channel_disconnected("Microsoft::Windows::RDS::Input", 0);
    assert!(context.rdpei.is_none());
    assert!(context.disp.is_some());
    context.channel_disconnected("Microsoft::Windows::RDS::DisplayControl", 0x200);
    context.channel_disconnected("cliprdr", 0x900);
    assert!(context.disp.is_none());
    assert!(context.cliprdr.is_none());
    assert!(context.encomsp.is_some());
    context.channel_disconnected("encomsp", 0xA00);
    assert!(context.encomsp.is_none());
    context.channel_disconnected("Microsoft::Windows::RDS::Graphics", 0x300);
    context.channel_disconnected("Microsoft::Windows::RDS::Geometry::v08.01", 0x400);
    context.channel_disconnected("Microsoft::Windows::RDS::Video::Control::v08.01", 0x500);
    context.channel_disconnected("Microsoft::Windows::RDS::Video::Data::v08.01", 0x600);
    context.channel_disconnected("Microsoft::Windows::RDS::Graphics", 0);
    context.channel_disconnected("rail", 0x700);
    context.channel_disconnected("rdpsnd", 0x800);
    assert_eq!(
        context.actions,
        vec![
            Action::ReleaseCliprdrHandler(0x900),
            Action::GraphicsPipelineUninit(0x300),
            Action::GeometryUninit(0x400),
            Action::VideoControlUninit(0x500),
            Action::VideoDataUninit(0x600),
        ]
    );
}

#[test]
fn letting_go_of_a_channel_releases_its_handler_once() {
    let mut context = spy();
    context.channel_connected("cliprdr", 0x900);
    context.channel_connected("cliprdr", 0x980);
    assert_eq!(context.actions, vec![Action::ReleaseCliprdrHandler(0x900)]);
    assert_eq!(context.cliprdr.as_ref().map(|c| c.as_ptr()), Some(0x980));
    context.release_cliprdr();
    context.release_cliprdr();
    context.channel_disconnected("cliprdr", 0x980);
    assert_eq!(
        context.actions,
        vec![Action::ReleaseCliprdrHandler(0x900), Action::ReleaseCliprdrHandler(0x980)]
    );
    context.encomsp = Some(EncomspClientContext::from_ptr(0xA00, true, true));
    context.channel_connected("encomsp", 0xA80);
    context.encomsp = Some(EncomspClientContext::from_ptr(0xB00, false, true));
    context.release_encomsp();
    assert_eq!(
        context.actions,
        vec![
            Action::ReleaseCliprdrHandler(0x900),
            Action::ReleaseCliprdrHandler(0x980),
            Action::ReleaseEncomspHandler(0xA00),
        ]
    );
    assert!(context.encomsp.is_none());
}

#[test]
fn the_default_pre_connect_subscribes_and_answers_for_the_addins() {
    let mut context = Context::new(MyHandler {}, 0x1000, 0x2000, 0x3000, 0x4000);
    assert_eq!(context.pub_sub.issued(), 0);
    assert_eq!(context.addins, 0);
    assert_eq!(rdp_instance_pre_connect(&mut context, 1), 1);
    assert_eq!(context.addins, 1);
    assert_eq!(
        context.actions,
        vec![Action::SubscribeChannelConnected, Action::SubscribeChannelDisconnected]
    );
    assert_eq!(context.default_channel_connected.as_ref().map(|h| h.id()), Some(0));
    assert_eq!(context.default_channel_disconnected.as_ref().map(|h| h.id()), Some(1));
    assert_eq!(context.pub_sub.subscribers("ChannelConnected"), vec![0]);
    assert_eq!(context.pub_sub.subscribers("ChannelDisconnected"), vec![1]);
    assert!(context.handler.is_some());
    rdp_instance_post_disconnect(&mut context);
    assert_eq!(context.actions.last(), Some(&Action::GdiUninit));
    assert_eq!(context.actions.len(), 3);
    assert_eq!(rdp_instance_authenticate(&mut context), 0);
    assert_eq!(rdp_instance_post_connect(&mut context), 1);
    let (steps, _handler) = context.teardown();
    assert_eq!(
        steps,
        vec![
            TeardownStep::UnsubscribeChannelConnected,
            TeardownStep::UnsubscribeChannelDisconnected,
            TeardownStep::ReleaseHandler,
            TeardownStep::FreeContext(0x1000),
        ]
    );
}

#[test]
fn pre_connect_fails_if_the_addins_did_not_load_and_keeps_its_subscriptions() {
    let mut context = Context::new(MyHandler {}, 0x1000, 0x2000, 0x3000, 0x4000);
    assert_eq!(rdp_instance_pre_connect(&mut context, 0), 0);
    assert_eq!(context.addins, 0);
    assert_eq!(context.default_channel_connected.as_ref().map(|h| h.id()), Some(0));
    assert_eq!(context.default_channel_disconnected.as_ref().map(|h| h.id()), Some(1));
    assert_eq!(context.pub_sub.subscribers("ChannelConnected"), vec![0]);
    assert_eq!(context.pub_sub.subscribers("ChannelDisconnected"), vec![1]);
    assert!(context.handler.is_some());

    let mut fresh = Context::new(MyHandler {}, 0x1000, 0x2000, 0x3000, 0x4000);
    let mut handler = MyHandler {};
    fresh.addins = 0;
    assert_eq!(
        handler.pre_connect(&mut fresh),
        Err(RdpError::Failed("Failed to load client addins".to_string()))
    );
    fresh.addins = -1;
    assert_eq!(handler.pre_connect(&mut fresh), Ok(()));
    assert_eq!(fresh.pub_sub.issued(), 4);
}

#[test]
fn truth_valued_callbacks_return_one_on_success_and_zero_on_failure() {
    let mut context = spy();
    assert_eq!(rdp_instance_post_connect(&mut context), 1);
    context.handler.as_mut().unwrap().fail = true;
    assert_eq!(rdp_instance_post_connect(&mut context), 0);
    assert_eq!(
        log(&context),
        vec!["post_connect, handler out: true", "post_connect, handler out: true"]
    );
    assert_eq!(rdp_global_init::<MyHandler>(), 1);
    assert_eq!(rdp_global_init::<Spy>(), 0);
    rdp_global_uninit::<MyHandler>();
    assert_eq!(rdp_client_new::<Spy>(0x3000), 1);
    assert_eq!(rdp_client_new::<Spy>(0x3008), 0);
    assert_eq!(rdp_client_new::<MyHandler>(0), 0);
    rdp_client_free::<MyHandler>(0x3000);
    rdp_client_free::<MyHandler>(0);
}

#[test]
fn start_and_stop_return_the_number_that_the_handler_chose() {
    let mut context = spy();
    assert_eq!(rdp_client_start(&mut context), 0);
    assert_eq!(rdp_client_stop(&mut context), 0);
    context.handler.as_mut().unwrap().fail = true;
    assert_eq!(rdp_client_start(&mut context), -7);
    assert_eq!(rdp_client_stop(&mut context), 0);
    assert_eq!(log(&context), vec!["start", "stop", "start", "stop"]);
}

#[test]
fn a_session_without_its_handler_fails_every_callback() {
    let mut context = spy();
    context.handler = None;
    assert_eq!(rdp_instance_pre_connect(&mut context, 1), 0);
    assert_eq!(rdp_instance_post_connect(&mut context), 0);
    assert_eq!(rdp_instance_authenticate(&mut context), 0);
    rdp_instance_post_disconnect(&mut context);
    assert_eq!(rdp_client_start(&mut context), 1);
    assert_eq!(rdp_client_stop(&mut context), 1);
    assert_eq!(rdp_instance_logon_error_info(&mut context, 1, 2), 1);
    assert_eq!(rdp_instance_present_gateway_message(&mut context, 1, 1, 1, &[0x41]), 0);
    assert_eq!(
        rdp_instance_verify_certificate(&mut context, b"h", 1, None, b"s", b"i", b"f", 0),
        0
    );
    assert!(context.handler.is_none());
    assert!(context.actions.is_empty());
}

#[test]
fn certificate_decisions_have_their_numbers() {
    assert_eq!(u32::from(VerifyCertificateResult::Fail), 0);
    assert_eq!(u32::from(VerifyCertificateResult::AcceptAndStore), 1);
    assert_eq!(u32::from(VerifyCertificateResult::AcceptOnlyThisSession), 2);
    let mut context = Context::new(MyHandler {}, 0x1000, 0x2000, 0x3000, 0x4000);
    assert_eq!(
        rdp_instance_verify_certificate(&mut context, b"h", 1, None, b"s", b"i", b"f", 0),
        2
    );
    assert_eq!(
        rdp_instance_verify_changed_certificate(
            &mut context, b"h", 1, None, b"s", b"i", b"f", b"os", b"oi", b"of", 0
        ),
        2
    );
    assert_eq!(rdp_instance_logon_error_info(&mut context, 5, 6), 1);
    assert_eq!(rdp_instance_present_gateway_message(&mut context, 1, 0, 0, &[0x41]), 1);
}

#[test]
fn a_certificate_reaches_the_handler_as_text() {
    let mut context = spy();
    context.handler.as_mut().unwrap().decision = 1;
    assert_eq!(
        rdp_instance_verify_certificate(
            &mut context,
            b"rdp.example.org",
            3389,
            Some(b"example"),
            "CN=b\u{fc}ro".as_bytes(),
            b"CN=ca",
            b"aa:bb",
            4,
        ),
        1
    );
    context.handler.as_mut().unwrap().decision = 2;
    assert_eq!(
        rdp_instance_verify_certificate(
            &mut context, b"h", 1, Some(&[0xFF]), b"s", b"i", b"f", 0
        ),
        2
    );
    context.handler.as_mut().unwrap().decision = 0;
    assert_eq!(
        rdp_instance_verify_certificate(&mut context, b"h", 1, None, b"s", b"i", b"f", 0),
        0
    );
    assert_eq!(
        log(&context),
        vec![
            "rdp.example.org:3389 Some(\"example\") CN=b\u{fc}ro CN=ca aa:bb 4",
            "h:1 None s i f 0",
            "h:1 None s i f 0",
        ]
    );
}

#[test]
fn a_certificate_with_malformed_text_fails_without_the_handler() {
    let mut context = spy();
    context.handler.as_mut().unwrap().decision = 1;
    let bad: &[u8] = &[0x68, 0xC3];
    assert_eq!(rdp_instance_verify_certificate(&mut context, bad, 1, None, b"s", b"i", b"f", 0), 0);
    assert_eq!(rdp_instance_verify_certificate(&mut context, b"h", 1, None, bad, b"i", b"f", 0), 0);
    assert_eq!(rdp_instance_verify_certificate(&mut context, b"h", 1, None, b"s", bad, b"f", 0), 0);
    assert_eq!(rdp_instance_verify_certificate(&mut context, b"h", 1, None, b"s", b"i", bad, 0), 0);
    assert_eq!(
        rdp_instance_verify_changed_certificate(
            &mut context, b"h", 1, None, b"s", b"i", b"f", b"os", bad, b"of", 0
        ),
        0
    );
    assert!(log(&context).is_empty());
    assert_eq!(
        rdp_instance_verify_changed_certificate(
            &mut context, b"h", 1, None, b"s", b"i", b"f", b"os", b"oi", b"of", 0
        ),
        2
    );
}

#[test]
fn a_gateway_message_is_decoded_from_utf16() {
    let mut context = spy();
    let message: Vec<u16> = "Bitte best\u{e4}tigen \u{1F512}".encode_utf16().collect();
    assert_eq!(rdp_instance_present_gateway_message(&mut context, 2, 1, 0, &message), 1);
    context.handler.as_mut().unwrap().fail = true;
    assert_eq!(rdp_instance_present_gateway_message(&mut context, 3, 0, 5, &[0x41, 0xD800]), 0);
    assert_eq!(
        log(&context),
        vec!["2 true false Bitte best\u{e4}tigen \u{1F512}", "3 false true A\u{FFFD}"]
    );
    assert_eq!(rdp_instance_logon_error_info(&mut context, 40, 2), 42);
}

#[test]
fn handlers_are_released_before_the_native_context_is_freed() {
    let mut context = spy();
    context.channel_connected("cliprdr", 0x900);
    context.channel_connected("encomsp", 0xA00);
    let mut encomsp = context.encomsp.take().unwrap();
    let _payload = encomsp.register_handler(Party);
    context.encomsp = Some(encomsp);
    let (steps, handler) = context.teardown();
    assert_eq!(
        steps,
        vec![
            TeardownStep::ReleaseCliprdrHandler(0x900),
            TeardownStep::ReleaseEncomspHandler(0xA00),
            TeardownStep::ReleaseHandler,
            TeardownStep::FreeContext(0x1000),
        ]
    );
    assert!(handler.is_some());
    let release = steps.iter().position(|s| *s == TeardownStep::ReleaseHandler).unwrap();
    let free = steps.iter().position(|s| matches!(s, TeardownStep::FreeContext(_))).unwrap();
    assert!(release < free);
}

struct Party;

impl freerdp2::client::encomsp::EncomspHandler for Party {}

#[test]
fn teardown_names_only_what_is_to_be_done() {
    let (steps, handler) = spy().teardown();
    assert_eq!(steps, vec![TeardownStep::ReleaseHandler, TeardownStep::FreeContext(0x1000)]);
    assert!(handler.is_some());

    let mut borrowed = spy();
    borrowed.owned = false;
    borrowed.handler = None;
    borrowed.cliprdr = Some(CliprdrClientContext::from_ptr(0x900, false, true));
    borrowed.encomsp = Some(EncomspClientContext::from_ptr(0xA00, true, false));
    let (steps, handler) = borrowed.teardown();
    assert!(steps.is_empty());
    assert!(handler.is_none());

    let mut mixed = spy();
    mixed.owned = false;
    mixed.encomsp = Some(EncomspClientContext::from_ptr(0xA00, true, true));
    let (steps, _handler) = mixed.teardown();
    assert_eq!(
        steps,
        vec![TeardownStep::ReleaseEncomspHandler(0xA00), TeardownStep::ReleaseHandler]
    );
}
