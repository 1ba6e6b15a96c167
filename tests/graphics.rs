use exodus::error::ErrorKind;
use exodus::graphics::buffer::Buffer;
use exodus::graphics::connector::{Connector, ConnectorInfo};
use exodus::graphics::crtc::{CrtcInfo, CRTC};
use exodus::graphics::draw::{draw_order, DrawCommand};
use exodus::graphics::encoder::{Encoder, EncoderInfo};
use exodus::graphics::enums::{
    buffer_usage, BufferFlag, ConnectorType, PixelFormat, Planes, ScreenFlags, SubPixel, Vendor,
};
use exodus::graphics::framebuffer::Framebuffer;
use exodus::graphics::mode::{select_mode, ModeInfo};
use exodus::graphics::screen::{buffer_count, Screen};

fn mode(w: u16, h: u16, refresh: u32) -> ModeInfo {
    ModeInfo {
        clock: 0,
        hdisplay: w,
        hsync_start: 0,
        hsync_end: 0,
        htotal: 0,
        hskew: 0,
        vdisplay: h,
        vsync_start: 0,
        vsync_end: 0,
        vtotal: 0,
        vscan: 0,
        vrefresh: refresh,
        flags: 0,
        mode_type: 0,
    }
}

fn buffer(w: u32, h: u32, stride: u32) -> Buffer {
    Buffer::new(w, h, PixelFormat::XRGB8888, Some((7, stride, 32))).unwrap()
}

#[test]
fn write_then_read_round_trips_with_padded_stride() {
    let b = buffer(4, 3, 24);
    let mut mem = vec![0xaaaa_aaaau32; 6 * 3];
    let pixels = vec![1, 2, 3, 4];
    assert_eq!(b.write(1, 1, 2, 2, &pixels, &mut mem), Ok(()));
    assert_eq!(b.read(1, 1, 2, 2, &mem), Ok(pixels));
    // rows land at stride-aligned offsets; the padding is untouched
    assert_eq!(mem[6 + 1], 1);
    assert_eq!(mem[6 + 2], 2);
    assert_eq!(mem[12 + 1], 3);
    assert_eq!(mem[12 + 2], 4);
    assert_eq!(mem[6 + 3], 0xaaaa_aaaa);
    assert_eq!(mem[0], 0xaaaa_aaaa);
}

#[test]
fn write_with_wrong_pixel_count_fails() {
    let b = buffer(4, 4, 16);
    let mut mem = vec![0u32; 16];
    assert_eq!(b.write(0, 0, 2, 2, &[1, 2, 3], &mut mem), Err(ErrorKind::BUFFER_INVALID_PIXELS));
    assert_eq!(b.write(0, 0, 3, 1, &[1, 2, 3, 4], &mut mem), Err(ErrorKind::BUFFER_INVALID_PIXELS));
    // the count is checked before the bounds
    assert_eq!(b.write(9, 9, 2, 2, &[1], &mut mem), Err(ErrorKind::BUFFER_INVALID_PIXELS));
    assert_eq!(mem, vec![0u32; 16]);
}

#[test]
fn write_and_read_out_of_bounds_fail() {
    let b = buffer(4, 4, 16);
    let mut mem = vec![0u32; 16];
    assert_eq!(b.write(3, 0, 2, 1, &[1, 2], &mut mem), Err(ErrorKind::BUFFER_OUT_OF_BOUNDS));
    assert_eq!(b.write(0, 3, 1, 2, &[1, 2], &mut mem), Err(ErrorKind::BUFFER_OUT_OF_BOUNDS));
    assert_eq!(b.read(0, 4, 1, 1, &mem), Err(ErrorKind::BUFFER_OUT_OF_BOUNDS));
    assert_eq!(b.read(u32::MAX, 0, 2, 1, &mem), Err(ErrorKind::BUFFER_OUT_OF_BOUNDS));
    // exactly reaching the edge is in bounds
    assert_eq!(b.write(2, 2, 2, 2, &[5, 6, 7, 8], &mut mem), Ok(()));
    assert_eq!(b.read(0, 0, 4, 4, &mem).unwrap()[15], 8);
}

#[test]
fn buffer_with_short_stride_or_failed_allocation_is_refused() {
    assert!(matches!(
        Buffer::new(4, 4, PixelFormat::ARGB8888, Some((1, 15, 32))),
        Err(ErrorKind::BUFFER_CREATE_FAILED)
    ));
    assert!(matches!(
        Buffer::new(4, 4, PixelFormat::ARGB8888, None),
        Err(ErrorKind::BUFFER_CREATE_FAILED)
    ));
    let b = Buffer::new(4, 4, PixelFormat::ARGB8888, Some((9, 16, 32))).unwrap();
    assert_eq!((b.width(), b.height(), b.handle(), b.stride(), b.bpp()), (4, 4, 9, 16, 32));
    assert_eq!(b.format(), PixelFormat::ARGB8888);
}

#[test]
fn draw_order_is_stable_by_plane() {
    assert_eq!(draw_order(&[3, 1, 2]), vec![1, 2, 0]);
    assert_eq!(draw_order(&[2, 1, 2, 1]), vec![1, 3, 0, 2]);
    assert_eq!(draw_order(&[]), Vec::<usize>::new());
}

fn connector_info(modes: Vec<ModeInfo>) -> ConnectorInfo {
    ConnectorInfo {
        connector_id: 31,
        connected: true,
        connector_type: 11,
        mm_width: 309,
        mm_height: 174,
        subpixel: 2,
        modes,
        encoder_id: 40,
    }
}

fn encoder_info(crtc_id: u32) -> EncoderInfo {
    EncoderInfo { encoder_type: 2, crtc_id, possible_crtcs: 1, possible_clones: 0 }
}

fn crtc_info() -> CrtcInfo {
    CrtcInfo { buffer_id: 99, x: 5, y: 6, width: 4, height: 2, mode: mode(4, 2, 30), gamma_size: 256 }
}

fn screen(count: usize) -> Screen {
    let connector = Connector::new(Some(connector_info(vec![mode(4, 2, 60)])), Some(encoder_info(50)))
        .unwrap()
        .unwrap();
    let crtc = CRTC::new(3, 50, Some(crtc_info())).unwrap();
    let mut buffers = Vec::new();
    let mut framebuffers = Vec::new();
    for k in 0..count {
        buffers.push(buffer(4, 2, 16));
        framebuffers.push(Framebuffer::new(3, Some(100 + k as u32)).unwrap());
    }
    Screen::new(3, connector, crtc, 0, buffers, framebuffers)
}

#[test]
fn swap_applies_commands_by_plane_and_presents_the_drawn_buffer() {
    let mut s = screen(2);
    assert_eq!(s.index(), 0);
    assert_eq!(s.next_index(), 1);
    s.submit(DrawCommand::new(0, 0, 3, 2, 1, vec![3, 3]));
    s.submit(DrawCommand::new(0, 0, 1, 4, 1, vec![1, 1, 1, 1]));
    s.submit(DrawCommand::new(1, 0, 2, 2, 1, vec![2, 2]));
    let mut mem = vec![0u32; 8];
    let setting = s.swap_buffers(&mut mem).unwrap();
    // plane 1 first, then 2, then 3 on top
    assert_eq!(mem[0..4].to_vec(), vec![3, 3, 2, 1]);
    assert_eq!(setting.fb_id, 101);
    assert_eq!(setting.crtc_id, 50);
    assert_eq!(setting.connector, 31);
    assert_eq!((setting.x, setting.y), (0, 0));
    assert_eq!(setting.mode, mode(4, 2, 60));
    assert_eq!(s.index(), 1);
    // the next write goes to a buffer other than the one just presented
    assert_eq!(s.next_index(), 0);
}

#[test]
fn equal_planes_keep_submission_order() {
    let mut s = screen(3);
    s.submit(DrawCommand::new(0, 0, 2, 1, 1, vec![10]));
    s.submit(DrawCommand::new(0, 0, 2, 1, 1, vec![20]));
    let mut mem = vec![0u32; 8];
    s.swap_buffers(&mut mem).unwrap();
    assert_eq!(mem[0], 20);
    assert_eq!(s.index(), 1);
    s.swap_buffers(&mut mem).unwrap();
    assert_eq!(s.index(), 2);
    s.swap_buffers(&mut mem).unwrap();
    assert_eq!(s.index(), 0);
}

#[test]
fn swap_with_a_bad_command_draws_nothing_and_stays() {
    let mut s = screen(2);
    s.submit(DrawCommand::new(0, 0, 1, 1, 1, vec![10]));
    s.submit(DrawCommand::new(3, 0, 1, 2, 1, vec![1, 2]));
    let mut mem = vec![0u32; 8];
    assert_eq!(s.swap_buffers(&mut mem), Err(ErrorKind::BUFFER_OUT_OF_BOUNDS));
    assert_eq!(mem, vec![0u32; 8]);
    assert_eq!(s.index(), 0);
    // the queue was emptied
    assert!(s.swap_buffers(&mut mem).is_ok());
}

#[test]
fn screen_write_targets_the_next_buffer() {
    let s = screen(2);
    let mut mem = vec![0u32; 8];
    assert_eq!(s.write(0, 1, 4, 1, &[1, 2, 3, 4], &mut mem), Ok(()));
    assert_eq!(mem[4..8].to_vec(), vec![1, 2, 3, 4]);
    assert_eq!(s.write(0, 0, 4, 1, &[1], &mut mem), Err(ErrorKind::BUFFER_INVALID_PIXELS));
    assert_eq!((s.width(), s.height(), s.refresh()), (4, 2, 60));
    assert_eq!(s.id(), 31);
    assert_eq!(s.connector_type(), ConnectorType::HDMIA);
    assert_eq!((s.mmWidth(), s.mmHeight(), s.subpixel()), (309, 174, 2));
    assert_eq!(s.buffer_count(), 2);
}

#[test]
fn disposing_twice_restores_the_same_state() {
    let mut s = screen(2);
    let first = s.dispose();
    let second = s.dispose();
    assert_eq!(first, second);
    assert_eq!(first.fb_id, 99);
    assert_eq!((first.x, first.y), (5, 6));
    assert_eq!(first.mode, mode(4, 2, 30));
    assert_eq!(first.connector, 31);
}

#[test]
fn optimal_mode_needs_both_dimensions_larger() {
    let modes = vec![mode(1024, 768, 60), mode(1280, 720, 60), mode(1920, 1080, 60), mode(2560, 1080, 60)];
    assert_eq!(select_mode(&modes, false), 0);
    assert_eq!(select_mode(&modes, true), 2);
    assert_eq!(select_mode(&[], true), 0);
}

#[test]
fn ring_depth_follows_the_last_buffering_flag() {
    assert_eq!(buffer_count(&[]), 1);
    assert_eq!(buffer_count(&[ScreenFlags::OptimalResolution]), 1);
    assert_eq!(buffer_count(&[ScreenFlags::DoubleBuffered]), 2);
    assert_eq!(buffer_count(&[ScreenFlags::TripleBuffered, ScreenFlags::DoubleBuffered]), 2);
    assert_eq!(buffer_count(&[ScreenFlags::DoubleBuffered, ScreenFlags::TripleBuffered]), 3);
}

#[test]
fn plan_picks_crtc_mode_and_depth() {
    let connector = Connector::new(
        Some(connector_info(vec![mode(800, 600, 60), mode(1920, 1080, 75)])),
        Some(encoder_info(50)),
    )
    .unwrap()
    .unwrap();
    let plan = Screen::plan(&connector, &[ScreenFlags::OptimalResolution, ScreenFlags::TripleBuffered]).unwrap();
    assert_eq!((plan.crtc_id, plan.mode, plan.width, plan.height, plan.refresh, plan.buffer_count), (50, 1, 1920, 1080, 75, 3));
    let plan = Screen::plan(&connector, &[]).unwrap();
    assert_eq!((plan.mode, plan.width, plan.buffer_count), (0, 800, 1));

    let idle = Connector::new(Some(connector_info(vec![mode(800, 600, 60)])), Some(encoder_info(0)))
        .unwrap()
        .unwrap();
    assert_eq!(Screen::plan(&idle, &[]), Err(ErrorKind::CRTC_NOT_FOUND));
}

#[test]
fn connector_materialisation() {
    assert!(matches!(Connector::new(None, None), Err(ErrorKind::CONNECTOR_FAILED)));
    let mut info = connector_info(vec![]);
    assert!(matches!(Connector::new(Some(info.clone()), Some(encoder_info(1))), Err(ErrorKind::CONNECTOR_MODE_FAILED)));
    info.connected = false;
    assert!(matches!(Connector::new(Some(info.clone()), Some(encoder_info(1))), Ok(None)));
    let info = connector_info(vec![mode(1, 1, 1)]);
    assert!(matches!(Connector::new(Some(info.clone()), None), Err(ErrorKind::ENCODER_FAILED)));
    let c = Connector::new(Some(info), Some(encoder_info(8))).unwrap().unwrap();
    assert_eq!(c.encoder().crtc_id(), 8);
    assert_eq!(c.encoder().id(), 40);
    assert_eq!(c.get_mode(0), Some(mode(1, 1, 1)));
    assert_eq!(c.get_mode(1), None);
}

#[test]
fn encoder_and_crtc_lookups() {
    assert_eq!(Encoder::new(0, Some(encoder_info(1))), Err(ErrorKind::ENCODER_FAILED));
    assert_eq!(Encoder::new(4, None), Err(ErrorKind::ENCODER_FAILED));
    assert_eq!(CRTC::new(1, 0, Some(crtc_info())), Err(ErrorKind::CRTC_NOT_FOUND));
    assert_eq!(CRTC::new(1, 2, None), Err(ErrorKind::CRTC_FAILED));
    let c = CRTC::new(1, 2, Some(crtc_info())).unwrap();
    assert_eq!((c.id(), c.buffer_id(), c.x(), c.y(), c.width(), c.height(), c.gamma_size()), (2, 99, 5, 6, 4, 2, 256));
    assert_eq!(Framebuffer::new(1, None), Err(ErrorKind::FRAMEBUFFER_CREATE_FAILED));
}

#[test]
fn framebuffer_request_describes_the_buffer() {
    let b = buffer(4, 2, 32);
    let r = Framebuffer::request(&b);
    assert_eq!((r.width, r.height, r.depth, r.bpp, r.pitch, r.handle), (4, 2, 24, 32, 32, 7));
}

#[test]
fn enum_conversions() {
    assert_eq!(ConnectorType::from_u32(11), ConnectorType::HDMIA);
    assert_eq!(ConnectorType::from_u32(10), ConnectorType::DISPLAY_PORT);
    assert_eq!(ConnectorType::from_u32(99), ConnectorType::Unknown);
    assert_eq!(ConnectorType::USB.code(), 20);
    assert_eq!(Vendor::from(0x10DE), Vendor::Nvidia);
    assert_eq!(Vendor::from(0x1234), Vendor::Unknown);
    assert_eq!(Vendor::Intel.id(), 0x8086);
    assert_eq!(Vendor::AMD.name(), "Advanced Micro Devices");
    assert_eq!(SubPixel::from(3), SubPixel::HorizontalBGR);
    assert_eq!(SubPixel::from(1), SubPixel::Unknown);
    assert_eq!(Planes::from(4), Planes::Cursor);
    assert_eq!(Planes::from(9), Planes::NoPlane);
    assert_eq!(PixelFormat::from(1), PixelFormat::ARGB8888);
    assert_eq!(PixelFormat::from(5), PixelFormat::XRGB8888);
    assert_eq!(PixelFormat::ARGB8888.bpp(), 32);
    assert_eq!(PixelFormat::XRGB8888.size(), 4);
    assert_eq!(buffer_usage(&[BufferFlag::Scanout, BufferFlag::Rendering]), 5);
    assert_eq!(buffer_usage(&[BufferFlag::Linear, BufferFlag::Protected, BufferFlag::Cursor]), 50);
}

#[test]
fn draw_command_setters() {
    let mut c = DrawCommand::new(1, 2, 3, 4, 5, vec![]);
    c.set_x(9);
    c.set_plane(1);
    c.set_width(1);
    c.set_height(1);
    c.set_pixels(vec![6]);
    assert_eq!((c.x, c.y(), c.plane, c.width, c.height), (9, 2, 1, 1, 1));
    assert_eq!(c.pixels, vec![6]);
}

#[test]
fn clear_zeroes_the_whole_buffer_only() {
    let b = buffer(2, 2, 12);
    let mut mem = vec![7u32; 6];
    assert_eq!(b.clear(&mut mem), Ok(()));
    assert_eq!(mem, vec![0, 0, 7, 0, 0, 7]);
    let s = screen(2);
    let mut mapped = vec![5u32; 8];
    assert_eq!(s.clear(&mut mapped), Ok(()));
    assert_eq!(mapped, vec![0u32; 8]);
}

#[test]
fn connector_names_and_mode_size() {
    assert_eq!(ConnectorType::HDMIA.name(), "HDMI-A");
    assert_eq!(ConnectorType::NINE_PIN_DIN.name(), "9-Pin DIN");
    assert_eq!(ConnectorType::from_u32(6).name(), "S-Video");
    let size = mode(1920, 1080, 60).size();
    assert_eq!((size.width, size.height), (1920, 1080));
}

#[test]
fn swap_reports_the_first_failure_in_drawing_order() {
    let mut s = screen(2);
    s.submit(DrawCommand::new(3, 0, 2, 2, 1, vec![1, 2]));
    s.submit(DrawCommand::new(0, 0, 1, 2, 2, vec![1]));
    let mut mem = vec![0u32; 8];
    // the plane-1 command is drawn first, so its pixel-count error is the one reported
    assert_eq!(s.swap_buffers(&mut mem), Err(ErrorKind::BUFFER_INVALID_PIXELS));
    assert_eq!(s.index(), 0);
}
