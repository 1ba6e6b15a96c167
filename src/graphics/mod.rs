pub mod buffer;
pub mod connector;
pub mod crtc;
pub mod draw;
pub mod encoder;
pub mod enums;
pub mod framebuffer;
pub mod mode;
pub mod screen;
