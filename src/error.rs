use vstd::prelude::*;

verus! {

/// Failure kinds reported by the display server and its protocol layer.
#[allow(non_camel_case_types)]
#[derive(Debug, Clone, Copy, PartialEq, Eq, Structural)]
pub enum ErrorKind {
    CONNECTION_FAILED,
    CONNECTION_CLOSED,
    CONNECTION_TIMEOUT,
    /// A message too short to hold what was asked of it.
    NETWORKMESSAGE_FAILED,
    /// A read on a message that holds no bytes at all.
    NETWORKMESSAGE_EMPTY,
    /// A read that would run past the end of a message.
    NETWORKMESSAGE_OVERFLOW,
    GPU_LOAD_FAILED,
    GPU_RESOURCES_FAILED,
    GPU_NOT_FOUND,
    GPUS_LIST_FAILED,
    DISPLAY_NOT_FOUND,
    DISPLAY_LISTENER_FAILED,
    NATIVE_DEVICE_NOT_FOUND,
    DEVICE_MANAGER_CREATE_FAILED,
    BUFFER_EMPTY,
    BUFFER_CREATE_FAILED,
    BUFFER_MAPPING_FAILED,
    /// The target rectangle does not lie inside the buffer.
    BUFFER_OUT_OF_BOUNDS,
    /// The pixel count differs from width * height.
    BUFFER_INVALID_PIXELS,
    SURFACE_CREATE_FAILED,
    SURFACE_GET_BUFFER_FAILED,
    SURFACE_LOCK_FAILED,
    SURFACE_LOCK_MAPPING_FAILED,
    FRAMEBUFFER_CREATE_FAILED,
    CRTC_NOT_FOUND,
    CRTC_FAILED,
    CRTC_SET_FAILED,
    ENCODER_FAILED,
    CONNECTOR_FAILED,
    CONNECTOR_MODE_FAILED,
    SCREEN_DISCONNECTED,
    SCREEN_NOT_FOUND,
    PROTOCOL_FAILED,
}

} // verus!
