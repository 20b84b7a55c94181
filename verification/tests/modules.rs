use freerdp2::client::context::{Context, Handler};
use freerdp2::client::disp::DispClientContext;
use freerdp2::client::rdpei::{Contact, RdpeiClientContext};
use freerdp2::client::rdpgfx::RdpgfxClientContext;
use freerdp2::client::video::{GeometryClientContext, VideoClientContext};
use freerdp2::connection_type::ConnectionType;
use freerdp2::convention::{exit_code, outcome, Convention, Slot};
use freerdp2::error::RdpError;
use freerdp2::freerdp::FreeRdp;
use freerdp2::gdi::{graphics_pipeline_init, Gdi, GdiBitmap, GdiDC, GdiPalette, GdiRgn, GdiWnd};
use freerdp2::graphics::{
    rdp_pointer_free, rdp_pointer_new, rdp_pointer_set, rdp_pointer_set_default,
    rdp_pointer_set_null, rdp_pointer_set_position, Graphics, Pointer, PointerHandler,
};
use freerdp2::input::Input;
use freerdp2::locale::KeyboardLayout;
use freerdp2::settings::Settings;
use freerdp2::update::{
    rdp_update_begin_paint, rdp_update_desktop_resize, rdp_update_end_paint,
    rdp_update_set_bounds, rdp_update_synchronize, Bounds, Update, UpdateHandler,
};

fn failed(message: &str) -> Result<(), RdpError> {
    Err(RdpError::Failed(message.to_string()))
}

struct Session {
    log: Vec<String>,
    fail: bool,
}

impl Handler for Session {
    fn post_connect(&mut self, _context: &mut Context<Self>) -> Result<(), RdpError> {
        Ok(())
    }
}

fn note(context: &mut Context<Session>, what: String) -> Result<(), RdpError> {
    let session = context.handler.as_mut().unwrap();
    session.log.push(what);
    if session.fail {
        Err(RdpError::Unsupported)
    } else {
        Ok(())
    }
}

struct Painter;

impl UpdateHandler for Painter {
    type ContextHandler = Session;

    fn begin_paint(context: &mut Context<Session>) -> Result<(), RdpError> {
        note(context, "begin".to_string())
    }

    fn end_paint(context: &mut Context<Session>) -> Result<(), RdpError> {
        note(context, "end".to_string())
    }

    fn set_bounds(context: &mut Context<Session>, bounds: &Bounds) -> Result<(), RdpError> {
        note(context, format!("{bounds:?}"))
    }

    fn synchronize(context: &mut Context<Session>) -> Result<(), RdpError> {
        note(context, "sync".to_string())
    }

    fn desktop_resize(context: &mut Context<Session>) -> Result<(), RdpError> {
        note(context, "resize".to_string())
    }
}

struct Idle;

impl UpdateHandler for Idle {
    type ContextHandler = Session;
}

#[derive(Default)]
struct Cursor {
    seen: Vec<usize>,
}

impl PointerHandler for Cursor {
    type ContextHandler = Session;

    fn new(&mut self, context: &mut Context<Session>, pointer: &Pointer) -> Result<(), RdpError> {
        self.seen.push(pointer.as_ptr());
        note(context, "new".to_string())
    }

    fn free(&mut self, context: &mut Context<Session>, pointer: &Pointer) {
        self.seen.push(pointer.as_ptr());
        let _ = note(context, "free".to_string());
    }

    fn set(&mut self, context: &mut Context<Session>, pointer: &Pointer) -> Result<(), RdpError> {
        self.seen.push(pointer.as_ptr());
        note(context, "set".to_string())
    }

    fn set_null(context: &mut Context<Session>) -> Result<(), RdpError> {
        note(context, "null".to_string())
    }

    fn set_default(context: &mut Context<Session>) -> Result<(), RdpError> {
        note(context, "default".to_string())
    }

    fn set_position(context: &mut Context<Session>, x: u32, y: u32) -> Result<(), RdpError> {
        note(context, format!("{x},{y}"))
    }
}

struct Plain;

impl PointerHandler for Plain {
    type ContextHandler = Session;
}

fn session(fail: bool) -> Context<Session> {
    Context::new(Session { log: Vec::new(), fail }, 0x1000, 0x2000, 0x3000, 0x4000)
}

#[test]
fn every_slot_reports_by_its_convention() {
    let zero = [
        Slot::MonitorReady,
        Slot::ServerCapabilities,
        Slot::ServerFormatList,
        Slot::ServerFormatListResponse,
        Slot::ServerFormatDataRequest,
        Slot::ServerFormatDataResponse,
        Slot::ParticipantCreated,
    ];
    let truth = [
        Slot::GlobalInit,
        Slot::ClientNew,
        Slot::PreConnect,
        Slot::PostConnect,
        Slot::Authenticate,
        Slot::PresentGatewayMessage,
        Slot::BeginPaint,
        Slot::EndPaint,
        Slot::SetBounds,
        Slot::Synchronize,
        Slot::DesktopResize,
        Slot::PointerNew,
        Slot::PointerSet,
        Slot::PointerSetNull,
        Slot::PointerSetDefault,
        Slot::PointerSetPosition,
    ];
    let ok: Result<(), RdpError> = Ok(());
    let err: Result<(), RdpError> = Err(RdpError::Unsupported);
    for slot in zero {
        assert_eq!(slot.convention(), Convention::ZeroOnSuccess);
        assert_eq!(slot.native_return(&ok), 0);
        assert_eq!(slot.native_return(&err), 1);
    }
    for slot in truth {
        assert_eq!(slot.convention(), Convention::TrueOnSuccess);
        assert_eq!(slot.native_return(&ok), 1);
        assert_eq!(slot.native_return(&err), 0);
    }
}

#[test]
fn conventions_read_what_they_write() {
    assert_eq!(Convention::ZeroOnSuccess.encode(true), 0);
    assert_eq!(Convention::ZeroOnSuccess.encode(false), 1);
    assert_eq!(Convention::TrueOnSuccess.encode(true), 1);
    assert_eq!(Convention::TrueOnSuccess.encode(false), 0);
    assert!(Convention::ZeroOnSuccess.succeeded(0));
    assert!(!Convention::ZeroOnSuccess.succeeded(22));
    assert!(Convention::TrueOnSuccess.succeeded(1));
    assert!(Convention::TrueOnSuccess.succeeded(u32::MAX));
    assert!(!Convention::TrueOnSuccess.succeeded(0));
    assert_eq!(exit_code(&Ok(())), 0);
    assert_eq!(exit_code(&Err(-7)), -7);
    assert_eq!(exit_code(&Err(0)), 0);
    assert_eq!(outcome(true, "no"), Ok(()));
    assert_eq!(outcome(false, "no"), failed("no"));
}

#[test]
fn the_instance_reads_positive_as_success() {
    let mut instance = FreeRdp::new(0x3000);
    assert_eq!(instance.as_ptr(), 0x3000);
    assert_eq!(instance.connect(1), Ok(()));
    assert_eq!(instance.connect(0), failed("Failed to connect"));
    assert_eq!(instance.connect(-1), failed("Failed to connect"));
    assert_eq!(instance.abort_connect(1), Ok(()));
    assert_eq!(instance.abort_connect(0), failed("Failed to abort connect"));
    assert_eq!(instance.disconnect(2), Ok(()));
    assert_eq!(instance.disconnect(0), failed("Failed to disconnect"));
    assert_eq!(instance.reconnect(1), Ok(()));
    assert_eq!(instance.reconnect(-5), failed("Failed to reconnect"));
    assert_eq!(instance.gdi_init(1), Ok(()));
    assert_eq!(instance.gdi_init(0), failed("gdi_init() failed"));
    assert!(instance.shall_disconnect(1));
    assert!(!instance.shall_disconnect(0));
    assert!(!instance.shall_disconnect(-1));
}

#[test]
fn input_reads_non_zero_as_success() {
    let mut input = Input::new(0x50);
    assert_eq!(input.as_ptr(), 0x50);
    assert_eq!(input.send_synchronize_event(1), Ok(()));
    assert_eq!(input.send_synchronize_event(0), failed("send_synchronize_event() failed"));
    assert_eq!(input.send_keyboard_event(-1), Ok(()));
    assert_eq!(input.send_keyboard_event(0), failed("send_keyboard_event() failed"));
    assert_eq!(input.send_keyboard_pause_event(0), failed("send_keyboard_pause_event() failed"));
    assert_eq!(input.send_unicode_keyboard_event(0), failed("send_unicode_keyboard_event() failed"));
    assert_eq!(input.send_mouse_event(0), failed("send_mouse_event() failed"));
    assert_eq!(input.send_extended_mouse_event(0), failed("send_extended_mouse_event() failed"));
    assert_eq!(input.send_focus_in_event(0), failed("send_focus_in_event() failed"));
    assert_eq!(input.send_focus_in_event(1), Ok(()));
}

#[test]
fn settings_remember_who_frees_them() {
    let mut settings = Settings::new(true, 0x2000);
    assert_eq!(settings.as_ptr(), 0x2000);
    assert!(settings.owned());
    assert!(!Settings::new(false, 0x2000).owned());
    assert_eq!(settings.parse_command_line(0), Ok(()));
    assert_eq!(settings.parse_command_line(-1), Err(RdpError::Unsupported));
    assert_eq!(settings.parse_command_line(1), Err(RdpError::Unsupported));
    assert_eq!(settings.set_string(1), Ok(()));
    assert_eq!(settings.set_string(0), failed("Failed to set setting"));
    assert_eq!(settings.set_connection_type(1), Ok(()));
    assert_eq!(settings.set_connection_type(0), failed("Failed to set connection type"));
    assert_eq!(Settings::connection_type_argument(ConnectionType::Lan), 6);
    assert_eq!(settings.keyboard_layout(0x407), KeyboardLayout(0x407));
}

#[test]
fn the_drawing_layer_leads_to_its_parts() {
    let mut gdi = Gdi::new(0x60, 0x68);
    assert_eq!(gdi.as_ptr(), 0x60);
    assert_eq!(gdi.palette().as_ptr(), 0x68);
    assert!(gdi.primary(0).is_none());
    let mut bitmap: GdiBitmap = gdi.primary(0x70).unwrap();
    assert_eq!(bitmap.as_ptr(), 0x70);
    let mut dc: GdiDC = bitmap.hdc(0x78);
    assert_eq!(dc.as_ptr(), 0x78);
    let mut wnd: GdiWnd = dc.hwnd(0x80);
    assert_eq!(wnd.as_ptr(), 0x80);
    let mut rgn: GdiRgn = wnd.invalid(0x88);
    assert_eq!(rgn.as_ptr(), 0x88);
    assert_eq!(rgn.set_null(true), 1);
    assert_eq!(rgn.set_null(false), 0);
    assert!(rgn.null(1));
    assert!(rgn.null(-1));
    assert!(!rgn.null(0));
    assert_eq!(GdiPalette::new(0x90).as_ptr(), 0x90);
    assert_eq!(gdi.width(1920), Some(1920));
    assert_eq!(gdi.width(0), Some(0));
    assert_eq!(gdi.width(-1), None);
    assert_eq!(gdi.height(1080), Some(1080));
    assert_eq!(gdi.height(i32::MIN), None);
    assert_eq!(Gdi::primary_buffer_len(7680, 1080), 8_294_400);
    assert_eq!(Gdi::primary_buffer_len(0, 1080), 0);
    assert_eq!(Gdi::primary_buffer_len(2, i32::MAX), 4_294_967_294);
    assert_eq!(gdi.resize(1), Ok(()));
    assert_eq!(gdi.resize(0), failed("gdi_resize() failed"));
    assert_eq!(graphics_pipeline_init(1), Ok(()));
    assert_eq!(graphics_pipeline_init(0), failed("gdi_graphics_pipeline_init() failed"));
}

#[test]
fn a_pointer_image_takes_four_bytes_a_pixel() {
    assert_eq!(Pointer::data_len(32, 32), 4096);
    assert_eq!(Pointer::data_len(0, 32), 0);
    assert_eq!(Pointer::data_len(96, 64), 24_576);
    assert_eq!(Pointer::data_len(0x7FFF, 0x7FFF), 4_294_705_156);
    assert_eq!(Pointer::data_stride(32), 128);
    assert_eq!(Pointer::data_stride(0x3FFF_FFFF), 0xFFFF_FFFC);
    let pointer = Pointer::new(0xA0);
    let buffer = Pointer::data_buffer(3, 2);
    assert_eq!(buffer, vec![0u8; 24]);
    assert!(Pointer::data_buffer(0, 7).is_empty());
    let mut written = buffer.clone();
    written[5] = 0xEE;
    let image = pointer.data(3, 2, 1, written.clone()).unwrap();
    assert_eq!(image.len(), 24);
    assert_eq!(image, written);
    assert_eq!(
        pointer.data(3, 2, 0, written),
        Err(RdpError::Failed("freerdp_image_copy_from_pointer_data() failed".to_string()))
    );
    assert_eq!(pointer.data(0, 0, -1, Vec::new()), Ok(Vec::new()));
    assert_eq!(Graphics::new(0xB0).as_ptr(), 0xB0);
    assert_eq!(Update::new(0xC0).as_ptr(), 0xC0);
}

#[test]
fn channel_contexts_are_wrapped_addresses() {
    assert_eq!(DispClientContext::from_ptr(0x10).as_ptr(), 0x10);
    assert_eq!(RdpeiClientContext::from_ptr(0x20).as_ptr(), 0x20);
    assert_eq!(RdpgfxClientContext::from_ptr(0x30).as_ptr(), 0x30);
    assert_eq!(GeometryClientContext::from_ptr(0x40).as_ptr(), 0x40);
    assert_eq!(VideoClientContext::from_ptr(0x50).as_ptr(), 0x50);
    let mut disp = DispClientContext::from_ptr(0x10);
    assert_eq!(disp.send_monitor_layout(0), Ok(()));
    assert_eq!(disp.send_monitor_layout(13), Err(RdpError::IOError(13)));
}

#[test]
fn touch_calls_hand_back_the_contact_on_success() {
    let touch = RdpeiClientContext::from_ptr(0x20);
    assert_eq!(touch.add_contact(0), Ok(()));
    assert_eq!(touch.add_contact(22), Err(RdpError::IOError(22)));
    assert_eq!(touch.touch_begin(0, 4), Ok(4));
    assert_eq!(touch.touch_begin(1, 4), Err(RdpError::IOError(1)));
    assert_eq!(touch.touch_update(0, -2), Ok(-2));
    assert_eq!(touch.touch_update(9, 0), Err(RdpError::IOError(9)));
    assert_eq!(touch.touch_end(0, 0), Ok(0));
    assert_eq!(touch.touch_end(u32::MAX, 3), Err(RdpError::IOError(-1)));
    assert_eq!(touch.suspend_touch(0), Ok(()));
    assert_eq!(touch.suspend_touch(2), Err(RdpError::IOError(2)));
    assert_eq!(touch.resume_touch(0), Ok(()));
    assert_eq!(touch.resume_touch(3), Err(RdpError::IOError(3)));
    let contact = Contact {
        contact_id: 1,
        fields_present: 0,
        x: 10,
        y: 20,
        contact_flags: 0x19,
        contact_rect_left: 0,
        contact_rect_top: 0,
        contact_rect_right: 0,
        contact_rect_bottom: 0,
        orientation: 0,
        pressure: 0,
    };
    assert_eq!(contact, contact.clone());
}

#[test]
fn drawing_callbacks_return_truth_values() {
    let mut context = session(false);
    assert_eq!(rdp_update_begin_paint::<Painter>(&mut context), 1);
    assert_eq!(rdp_update_end_paint::<Painter>(&mut context), 1);
    assert_eq!(rdp_update_synchronize::<Painter>(&mut context), 1);
    assert_eq!(rdp_update_desktop_resize::<Painter>(&mut context), 1);
    assert_eq!(
        rdp_update_set_bounds::<Painter>(&mut context, Some(&Bounds::new(1, 2, 3, 4))),
        1
    );
    assert_eq!(rdp_update_set_bounds::<Painter>(&mut context, None), 0);
    context.handler.as_mut().unwrap().fail = true;
    assert_eq!(rdp_update_begin_paint::<Painter>(&mut context), 0);
    assert_eq!(rdp_update_end_paint::<Painter>(&mut context), 0);
    assert_eq!(rdp_update_synchronize::<Painter>(&mut context), 0);
    assert_eq!(rdp_update_desktop_resize::<Painter>(&mut context), 0);
    assert_eq!(
        rdp_update_set_bounds::<Painter>(&mut context, Some(&Bounds::new(0, 0, -1, -1))),
        0
    );
    assert_eq!(
        context.handler.unwrap().log,
        vec![
            "begin",
            "end",
            "sync",
            "resize",
            "Bounds { left: 1, top: 2, right: 3, bottom: 4 }",
            "begin",
            "end",
            "sync",
            "resize",
            "Bounds { left: 0, top: 0, right: -1, bottom: -1 }",
        ]
    );
    let mut idle = session(true);
    assert_eq!(rdp_update_begin_paint::<Idle>(&mut idle), 1);
    assert_eq!(rdp_update_end_paint::<Idle>(&mut idle), 1);
    assert_eq!(rdp_update_synchronize::<Idle>(&mut idle), 1);
    assert_eq!(rdp_update_desktop_resize::<Idle>(&mut idle), 1);
    assert_eq!(rdp_update_set_bounds::<Idle>(&mut idle, Some(&Bounds::new(0, 0, 0, 0))), 1);
}

#[test]
fn pointer_callbacks_return_truth_values() {
    let mut context = session(false);
    let mut cursor = Cursor::default();
    assert_eq!(rdp_pointer_new(&mut context, &mut cursor, 0xA0), 1);
    assert_eq!(rdp_pointer_set(&mut context, &mut cursor, 0xA8), 1);
    rdp_pointer_free(&mut context, &mut cursor, 0xA0);
    assert_eq!(rdp_pointer_set_null::<Cursor>(&mut context), 1);
    assert_eq!(rdp_pointer_set_default::<Cursor>(&mut context), 1);
    assert_eq!(rdp_pointer_set_position::<Cursor>(&mut context, 3, 4), 1);
    context.handler.as_mut().unwrap().fail = true;
    assert_eq!(rdp_pointer_new(&mut context, &mut cursor, 0xB0), 0);
    assert_eq!(rdp_pointer_set(&mut context, &mut cursor, 0xB0), 0);
    assert_eq!(rdp_pointer_set_null::<Cursor>(&mut context), 0);
    assert_eq!(rdp_pointer_set_default::<Cursor>(&mut context), 0);
    assert_eq!(rdp_pointer_set_position::<Cursor>(&mut context, 5, 6), 0);
    assert_eq!(cursor.seen, vec![0xA0, 0xA8, 0xA0, 0xB0, 0xB0]);
    assert_eq!(
        context.handler.unwrap().log,
        vec!["new", "set", "free", "null", "default", "3,4", "new", "set", "null", "default", "5,6"]
    );
}

#[test]
fn a_null_pointer_fails_without_the_handler() {
    let mut context = session(false);
    let mut cursor = Cursor::default();
    assert_eq!(rdp_pointer_new(&mut context, &mut cursor, 0), 0);
    assert_eq!(rdp_pointer_set(&mut context, &mut cursor, 0), 0);
    rdp_pointer_free(&mut context, &mut cursor, 0);
    assert!(cursor.seen.is_empty());
    assert!(context.handler.unwrap().log.is_empty());
    let mut plain = Plain;
    let mut other = session(true);
    assert_eq!(rdp_pointer_new(&mut other, &mut plain, 0xA0), 1);
    assert_eq!(rdp_pointer_set(&mut other, &mut plain, 0xA0), 1);
    rdp_pointer_free(&mut other, &mut plain, 0xA0);
    assert_eq!(rdp_pointer_set_null::<Plain>(&mut other), 1);
    assert_eq!(rdp_pointer_set_default::<Plain>(&mut other), 1);
    assert_eq!(rdp_pointer_set_position::<Plain>(&mut other, 0, 0), 1);
}
