use vstd::prelude::*;
use crate::error::ErrorKind;
use crate::graphics::buffer::Buffer;

verus! {

/// Colour depth of every framebuffer this server registers.
pub const FRAMEBUFFER_DEPTH: u32 = 24;

/// What the mode-setting API needs to register a buffer as a framebuffer.
#[derive(Debug, Clone, Copy, PartialEq, Eq, Structural)]
pub struct FramebufferRequest {
    pub width: u32,
    pub height: u32,
    pub depth: u32,
    pub bpp: u32,
    pub pitch: u32,
    pub handle: u32,
}

/// A buffer registered with the mode-setting subsystem, so that a CRTC can
/// scan it out; it names the buffer by the kernel-assigned id.
#[derive(Debug, Clone, Copy, PartialEq, Eq, Structural)]
pub struct Framebuffer {
    id: u32,
    gpu_id: i32,
}

impl Framebuffer {
    pub closed spec fn spec_id(&self) -> u32 {
        self.id
    }

    pub closed spec fn spec_gpu(&self) -> i32 {
        self.gpu_id
    }

    /// The registration that makes `buffer` displayable.
    pub fn request(buffer: &Buffer) -> (r: FramebufferRequest)
        ensures
            r == (FramebufferRequest {
                width: buffer.spec_width() as u32,
                height: buffer.spec_height() as u32,
                depth: FRAMEBUFFER_DEPTH,
                bpp: buffer.spec_bpp(),
                pitch: buffer.spec_stride(),
                handle: buffer.spec_handle(),
            }),
    {
        FramebufferRequest {
            width: buffer.width(),
            height: buffer.height(),
            depth: FRAMEBUFFER_DEPTH,
            bpp: buffer.bpp(),
            pitch: buffer.stride(),
            handle: buffer.handle(),
        }
    }

    /// The framebuffer registered on `gpu` under `registered`; `None` where
    /// registration failed.
    pub fn new(gpu: i32, registered: Option<u32>) -> (r: Result<Framebuffer, ErrorKind>)
        ensures
            registered is None ==> r == Err::<Framebuffer, ErrorKind>(
                ErrorKind::FRAMEBUFFER_CREATE_FAILED,
            ),
            registered matches Some(id) ==> (r matches Ok(f) && f.spec_id() == id
                && f.spec_gpu() == gpu),
    {
        match registered {
            None => Err(ErrorKind::FRAMEBUFFER_CREATE_FAILED),
            Some(id) => Ok(Framebuffer { id, gpu_id: gpu }),
        }
    }

    pub fn id(&self) -> (r: u32)
        ensures
            r == self.spec_id(),
    {
        self.id
    }

    pub fn gpu(&self) -> (r: i32)
        ensures
            r == self.spec_gpu(),
    {
        self.gpu_id
    }
}

} // verus!
