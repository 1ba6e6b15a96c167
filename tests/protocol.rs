use exodus::client::Metadata;
use exodus::error::ErrorKind;
use exodus::graphics::buffer::Buffer;
use exodus::graphics::connector::{Connector, ConnectorInfo};
use exodus::graphics::crtc::{CrtcInfo, CRTC};
use exodus::graphics::encoder::EncoderInfo;
use exodus::graphics::enums::PixelFormat;
use exodus::graphics::framebuffer::Framebuffer;
use exodus::graphics::mode::ModeInfo;
use exodus::graphics::screen::Screen;
use exodus::logger::{log, Level};
use exodus::network_message::NetworkMessage;
use exodus::protocol::{Protocol, ProtocolCode};
use exodus::server::display::Display;
use exodus::server::entity::Entity;
use exodus::server::gpu::{gpus_found, is_card_node, GPU};
use exodus::server::protocol_handler::{Handler, ProtocolHandler};

fn mode(w: u16, h: u16) -> ModeInfo {
    ModeInfo {
        clock: 0,
        hdisplay: w,
        hsync_start: 0,
        hsync_end: 0,
        htotal: 0,
        hskew: 0,
        vdisplay: h,
        vsync_start: 0,
        vsync_end: 0,
        vtotal: 0,
        vscan: 0,
        vrefresh: 60,
        flags: 0,
        mode_type: 0,
    }
}

fn screen(connector_id: u32) -> Screen {
    let info = ConnectorInfo {
        connector_id,
        connected: true,
        connector_type: 10,
        mm_width: 300,
        mm_height: 200,
        subpixel: 1,
        modes: vec![mode(640, 480)],
        encoder_id: 1,
    };
    let encoder = EncoderInfo { encoder_type: 1, crtc_id: 2, possible_crtcs: 1, possible_clones: 0 };
    let connector = Connector::new(Some(info), Some(encoder)).unwrap().unwrap();
    let crtc = CRTC::new(
        5,
        2,
        Some(CrtcInfo { buffer_id: 0, x: 0, y: 0, width: 640, height: 480, mode: mode(640, 480), gamma_size: 0 }),
    )
    .unwrap();
    let buffers = vec![
        Buffer::new(640, 480, PixelFormat::XRGB8888, Some((1, 2560, 32))).unwrap(),
        Buffer::new(640, 480, PixelFormat::XRGB8888, Some((2, 2560, 32))).unwrap(),
    ];
    let framebuffers = vec![Framebuffer::new(5, Some(11)).unwrap(), Framebuffer::new(5, Some(12)).unwrap()];
    Screen::new(5, connector, crtc, 0, buffers, framebuffers)
}

fn display() -> Display {
    let first = GPU::new(5, 0x10DE, 0x1F02, Some((4096, 4096)), vec![screen(31), screen(32)]).unwrap();
    let second = GPU::new(9, 0x8086, 7, Some((4096, 4096)), vec![]).unwrap();
    Display::new(0, vec![first, second])
}

fn deliver(entity: &mut Entity, msg: &NetworkMessage) {
    entity.receive(NetworkMessage::from_bytes(msg.bytes().clone()));
}

fn builtin() -> ProtocolHandler<Handler> {
    ProtocolHandler::new()
}

#[test]
fn register_then_enumerate_gpus() {
    let mut display = display();
    let mut entity = Entity::new(1);
    let handler = builtin();

    let metadata = Metadata {
        class: "Term".to_string(),
        title: "Term-1".to_string(),
        version: 100,
        author: "A".to_string(),
        description: "D".to_string(),
    };
    deliver(&mut entity, &metadata.registration_message());
    assert_eq!(handler.handle(&mut display, &mut entity, ProtocolCode::ProtocolEntityRegister), Ok(()));
    assert_eq!(entity.class(), "Term");
    assert_eq!(entity.title(), "Term-1");
    assert_eq!(entity.version(), 100);
    assert_eq!(entity.author(), "A");
    assert_eq!(entity.description(), "D");
    assert!(entity.take_outgoing().is_empty());

    deliver(&mut entity, &NetworkMessage::new(ProtocolCode::ProtocolEnumerateGPUS));
    assert_eq!(handler.handle(&mut display, &mut entity, ProtocolCode::ProtocolEnumerateGPUS), Ok(()));
    let replies = entity.take_outgoing();
    assert_eq!(replies.len(), 1);
    let mut reply = NetworkMessage::from_bytes(replies[0].bytes().clone());
    assert_eq!(reply.code(), Ok(2));
    assert_eq!(reply.read_u32(), Ok(2));
    assert_eq!(reply.read_i32(), Ok(5));
    assert_eq!(reply.read_i32(), Ok(9));
    assert_eq!(reply.read_u8(), Err(ErrorKind::NETWORKMESSAGE_OVERFLOW));
}

#[test]
fn handle_without_pending_message_does_nothing() {
    let mut display = display();
    let mut entity = Entity::new(1);
    let handler = builtin();
    assert_eq!(handler.handle(&mut display, &mut entity, ProtocolCode::ProtocolEnumerateGPUS), Ok(()));
    assert!(entity.take_outgoing().is_empty());
}

#[test]
fn unhandled_code_consumes_without_reply() {
    let mut display = display();
    let mut entity = Entity::new(1);
    let handler = builtin();
    deliver(&mut entity, &NetworkMessage::new(ProtocolCode::ProtocolNone));
    assert_eq!(handler.handle(&mut display, &mut entity, ProtocolCode::ProtocolNone), Ok(()));
    assert!(entity.take_outgoing().is_empty());
    assert!(entity.recv_message().is_none());
}

#[test]
fn gpu_info_and_unknown_gpu() {
    let mut display = display();
    let mut entity = Entity::new(1);
    let handler = builtin();

    let mut ask = NetworkMessage::new(ProtocolCode::ProtocolGPUInfo);
    ask.write_i32(5);
    deliver(&mut entity, &ask);
    assert_eq!(handler.handle(&mut display, &mut entity, ProtocolCode::ProtocolGPUInfo), Ok(()));
    let mut ask = NetworkMessage::new(ProtocolCode::ProtocolGPUInfo);
    ask.write_i32(77);
    deliver(&mut entity, &ask);
    assert_eq!(handler.handle(&mut display, &mut entity, ProtocolCode::ProtocolGPUInfo), Ok(()));

    let replies = entity.take_outgoing();
    assert_eq!(replies.len(), 2);
    let mut info = NetworkMessage::from_bytes(replies[0].bytes().clone());
    assert_eq!(info.code(), Ok(3));
    assert_eq!(info.read_i32(), Ok(5));
    assert_eq!(info.read_u32(), Ok(0x10DE));
    assert_eq!(info.read_string_utf8().unwrap(), "NVIDIA Corporation");
    assert_eq!(info.read_u32(), Ok(0x1F02));
    let mut fault = NetworkMessage::from_bytes(replies[1].bytes().clone());
    assert_eq!(fault.code(), Ok(-1));
    assert_eq!(fault.read_string_utf8().unwrap(), "Failed to get GPU info.");
}

#[test]
fn short_request_is_an_error_without_reply() {
    let mut display = display();
    let mut entity = Entity::new(1);
    let handler = builtin();
    deliver(&mut entity, &NetworkMessage::new(ProtocolCode::ProtocolGPUInfo));
    assert_eq!(
        handler.handle(&mut display, &mut entity, ProtocolCode::ProtocolGPUInfo),
        Err(ErrorKind::NETWORKMESSAGE_OVERFLOW)
    );
    assert!(entity.take_outgoing().is_empty());
}

#[test]
fn screens_listing_and_info() {
    let mut display = display();
    let mut entity = Entity::new(1);
    let handler = builtin();

    let mut ask = NetworkMessage::new(ProtocolCode::ProtocolEnumerateScreens);
    ask.write_i32(5);
    deliver(&mut entity, &ask);
    handler.handle(&mut display, &mut entity, ProtocolCode::ProtocolEnumerateScreens).unwrap();

    let mut ask = NetworkMessage::new(ProtocolCode::ProtocolScreenInfo);
    ask.write_i32(5);
    ask.write_u32(32);
    deliver(&mut entity, &ask);
    handler.handle(&mut display, &mut entity, ProtocolCode::ProtocolScreenInfo).unwrap();

    let mut ask = NetworkMessage::new(ProtocolCode::ProtocolScreenInfo);
    ask.write_i32(5);
    ask.write_u32(33);
    deliver(&mut entity, &ask);
    handler.handle(&mut display, &mut entity, ProtocolCode::ProtocolScreenInfo).unwrap();

    let mut ask = NetworkMessage::new(ProtocolCode::ProtocolEnumerateScreens);
    ask.write_i32(6);
    deliver(&mut entity, &ask);
    handler.handle(&mut display, &mut entity, ProtocolCode::ProtocolEnumerateScreens).unwrap();

    let replies = entity.take_outgoing();
    assert_eq!(replies.len(), 4);
    let mut list = NetworkMessage::from_bytes(replies[0].bytes().clone());
    assert_eq!(list.code(), Ok(4));
    assert_eq!(list.read_u32(), Ok(2));
    assert_eq!(list.read_u32(), Ok(31));
    assert_eq!(list.read_u32(), Ok(32));

    let mut info = NetworkMessage::from_bytes(replies[1].bytes().clone());
    assert_eq!(info.code(), Ok(5));
    let mut fields = Vec::new();
    for _ in 0..9 {
        fields.push(info.read_u32().unwrap());
    }
    assert_eq!(fields, vec![32, 640, 480, 60, 1, 10, 300, 200, 2]);

    let mut missing = NetworkMessage::from_bytes(replies[2].bytes().clone());
    assert_eq!(missing.code(), Ok(-1));
    assert_eq!(missing.read_string_utf8().unwrap(), "Screen not found.");
    let mut no_gpu = NetworkMessage::from_bytes(replies[3].bytes().clone());
    assert_eq!(no_gpu.read_string_utf8().unwrap(), "GPU not found.");
}

fn echo_handler(_: &mut Display, entity: &mut Entity, _: NetworkMessage) -> Result<(), ErrorKind> {
    entity.send(NetworkMessage::new(ProtocolCode::ProtocolNone));
    Ok(())
}

#[test]
fn handler_slot_can_be_replaced() {
    let mut display = display();
    let mut entity = Entity::new(1);
    let mut handler: ProtocolHandler<Handler> = ProtocolHandler::new();
    assert_eq!(handler.set_protocol_handler(ProtocolCode::ProtocolGPUInfo, echo_handler), Ok(()));
    assert_eq!(
        handler.set_protocol_handler(ProtocolCode::ProtocolError, echo_handler),
        Err(ErrorKind::PROTOCOL_FAILED)
    );
    deliver(&mut entity, &NetworkMessage::new(ProtocolCode::ProtocolGPUInfo));
    assert_eq!(handler.handle(&mut display, &mut entity, ProtocolCode::ProtocolGPUInfo), Ok(()));
    let replies = entity.take_outgoing();
    assert_eq!(replies.len(), 1);
    assert_eq!(replies[0].code(), Ok(0));
}

#[test]
fn protocol_codes_convert_both_ways() {
    assert_eq!(ProtocolCode::ProtocolError.value(), -1);
    assert_eq!(ProtocolCode::ProtocolScreenInfo.value(), 5);
    assert_eq!(ProtocolCode::from_code(2), ProtocolCode::ProtocolEnumerateGPUS);
    assert_eq!(ProtocolCode::from_code(42), ProtocolCode::ProtocolNone);
    assert_eq!(Protocol::from(3), Protocol::ProtocolTypeSurfaceCommit);
    assert_eq!(Protocol::from(9), Protocol::ProtocolTypeNone);
    assert_eq!(Protocol::ProtocolTypeError.opcode(), 4);
}

#[test]
fn discovery_helpers() {
    assert!(is_card_node("/dev/dri/card0"));
    assert!(!is_card_node("/dev/dri/renderD128"));
    assert!(!is_card_node("car"));
    assert_eq!(gpus_found(vec![]).err(), Some(ErrorKind::GPU_NOT_FOUND));
    assert!(matches!(GPU::new(1, 0, 0, None, vec![]), Err(ErrorKind::GPU_RESOURCES_FAILED)));
    let d = display();
    assert_eq!(d.get_gpu(9).map(|g| g.model()), Some(7));
    assert!(d.get_gpu(10).is_none());
    assert_eq!(d.gpus()[0].get_screen(32).map(|s| s.id()), Some(32));
}

#[test]
fn display_dispose_restores_every_screen() {
    let mut d = display();
    let settings = d.dispose();
    assert_eq!(settings.len(), 2);
    assert_eq!(settings[0].connector, 31);
    assert_eq!(settings[1].connector, 32);
    assert_eq!(d.dispose(), settings);
}

#[test]
fn log_filters_by_level() {
    assert_eq!(log(Level::Info, Level::Debug, "x"), None);
    assert_eq!(log(Level::Info, Level::Warn, "disk").unwrap(), "[EXODUS] [WARN] - disk");
    assert_eq!(Level::from(2), Level::Debug);
    assert_eq!(Level::from(0), Level::Error);
}
