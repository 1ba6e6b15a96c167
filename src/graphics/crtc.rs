use vstd::prelude::*;
use crate::error::ErrorKind;
use crate::graphics::framebuffer::Framebuffer;
use crate::graphics::mode::ModeInfo;

verus! {

/// What the hardware reports of a CRTC.
#[derive(Debug, Clone, Copy, PartialEq, Eq, Structural)]
pub struct CrtcInfo {
    pub buffer_id: u32,
    pub x: u32,
    pub y: u32,
    pub width: u32,
    pub height: u32,
    pub mode: ModeInfo,
    pub gamma_size: i32,
}

/// One programming of a CRTC: show framebuffer `fb_id` at (`x`, `y`) in
/// `mode` on `connector`.
#[derive(Debug, Clone, Copy, PartialEq, Eq, Structural)]
pub struct CrtcSetting {
    pub crtc_id: u32,
    pub fb_id: u32,
    pub x: u32,
    pub y: u32,
    pub connector: u32,
    pub mode: ModeInfo,
}

/// A scan-out unit, with the state it had when it was taken over; that
/// state is put back on release.
#[derive(Debug, Clone, Copy, PartialEq, Eq, Structural)]
pub struct CRTC {
    id: u32,
    gpu: i32,
    saved: CrtcInfo,
}

impl CRTC {
    pub closed spec fn spec_id(&self) -> u32 {
        self.id
    }

    pub closed spec fn spec_gpu(&self) -> i32 {
        self.gpu
    }

    /// The state captured when the CRTC was taken over.
    pub closed spec fn saved(&self) -> CrtcInfo {
        self.saved
    }

    /// The CRTC `crtc_id` of `gpu`, capturing the state the hardware
    /// reported (`None` where the query failed). Id 0 names no CRTC.
    pub fn new(gpu: i32, crtc_id: u32, info: Option<CrtcInfo>) -> (r: Result<CRTC, ErrorKind>)
        ensures
            crtc_id == 0 ==> r == Err::<CRTC, ErrorKind>(ErrorKind::CRTC_NOT_FOUND),
            crtc_id != 0 && info is None ==> r == Err::<CRTC, ErrorKind>(ErrorKind::CRTC_FAILED),
            crtc_id != 0 && info is Some ==> (r matches Ok(c) && c.spec_id() == crtc_id
                && c.spec_gpu() == gpu && c.saved() == info->0),
    {
        if crtc_id == 0 {
            return Err(ErrorKind::CRTC_NOT_FOUND);
        }
        match info {
            None => Err(ErrorKind::CRTC_FAILED),
            Some(saved) => Ok(CRTC { id: crtc_id, gpu, saved }),
        }
    }

    pub fn id(&self) -> (r: u32)
        ensures
            r == self.spec_id(),
    {
        self.id
    }

    pub fn gpu(&self) -> (r: i32)
        ensures
            r == self.spec_gpu(),
    {
        self.gpu
    }

    pub fn buffer_id(&self) -> (r: u32)
        ensures
            r == self.saved().buffer_id,
    {
        self.saved.buffer_id
    }

    pub fn x(&self) -> (r: u32)
        ensures
            r == self.saved().x,
    {
        self.saved.x
    }

    pub fn y(&self) -> (r: u32)
        ensures
            r == self.saved().y,
    {
        self.saved.y
    }

    pub fn width(&self) -> (r: u32)
        ensures
            r == self.saved().width,
    {
        self.saved.width
    }

    pub fn height(&self) -> (r: u32)
        ensures
            r == self.saved().height,
    {
        self.saved.height
    }

    pub fn mode(&self) -> (r: ModeInfo)
        ensures
            r == self.saved().mode,
    {
        self.saved.mode
    }

    pub fn gamma_size(&self) -> (r: i32)
        ensures
            r == self.saved().gamma_size,
    {
        self.saved.gamma_size
    }

    /// The programming that puts the captured state back on `connector`.
    pub open spec fn restore_setting(&self, connector: u32) -> CrtcSetting {
        CrtcSetting {
            crtc_id: self.spec_id(),
            fb_id: self.saved().buffer_id,
            x: self.saved().x,
            y: self.saved().y,
            connector,
            mode: self.saved().mode,
        }
    }

    /// The programming that shows `framebuffer` at the origin in `mode` on
    /// `connector`.
    pub open spec fn set_spec(&self, connector: u32, mode: ModeInfo, framebuffer: Framebuffer) -> CrtcSetting {
        CrtcSetting {
            crtc_id: self.spec_id(),
            fb_id: framebuffer.spec_id(),
            x: 0,
            y: 0,
            connector,
            mode,
        }
    }

    /// The programming that shows `framebuffer` in `mode` on `connector`.
    pub fn set(&self, connector: u32, mode: ModeInfo, framebuffer: &Framebuffer) -> (r: CrtcSetting)
        ensures
            r == self.set_spec(connector, mode, *framebuffer),
    {
        CrtcSetting { crtc_id: self.id, fb_id: framebuffer.id(), x: 0, y: 0, connector, mode }
    }

    /// The programming that restores the captured state on `connector`. It
    /// depends on the captured state alone, so it may be applied any number
    /// of times.
    pub fn restore(&self, connector: u32) -> (r: CrtcSetting)
        ensures
            r == self.restore_setting(connector),
    {
        CrtcSetting {
            crtc_id: self.id,
            fb_id: self.saved.buffer_id,
            x: self.saved.x,
            y: self.saved.y,
            connector,
            mode: self.saved.mode,
        }
    }
}

} // verus!
