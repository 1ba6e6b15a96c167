use vstd::prelude::*;
use crate::error::ErrorKind;

verus! {

/// What the hardware reports of an encoder.
#[derive(Debug, Clone, Copy, PartialEq, Eq, Structural)]
pub struct EncoderInfo {
    pub encoder_type: u32,
    pub crtc_id: u32,
    pub possible_crtcs: u32,
    pub possible_clones: u32,
}

/// The signal path from a CRTC to a connector.
#[derive(Debug, Clone, Copy, PartialEq, Eq, Structural)]
pub struct Encoder {
    pub id: u32,
    pub encoder_type: u32,
    /// The CRTC driving this encoder; 0 when none does.
    pub crtc_id: u32,
    /// Bit mask of the CRTCs that can drive this encoder.
    pub possible_crtcs: u32,
    /// Bit mask of the encoders this one can clone with.
    pub possible_clones: u32,
}

impl Encoder {
    /// The encoder `id`, from what the hardware reported of it: `None` where
    /// the query failed. Id 0 names no encoder.
    pub fn new(id: u32, info: Option<EncoderInfo>) -> (r: Result<Encoder, ErrorKind>)
        ensures
            id == 0 || info is None ==> r == Err::<Encoder, ErrorKind>(ErrorKind::ENCODER_FAILED),
            id != 0 && info is Some ==> r == Ok::<Encoder, ErrorKind>(
                Encoder {
                    id,
                    encoder_type: info->0.encoder_type,
                    crtc_id: info->0.crtc_id,
                    possible_crtcs: info->0.possible_crtcs,
                    possible_clones: info->0.possible_clones,
                },
            ),
    {
        if id == 0 {
            return Err(ErrorKind::ENCODER_FAILED);
        }
        match info {
            None => Err(ErrorKind::ENCODER_FAILED),
            Some(e) => Ok(
                Encoder {
                    id,
                    encoder_type: e.encoder_type,
                    crtc_id: e.crtc_id,
                    possible_crtcs: e.possible_crtcs,
                    possible_clones: e.possible_clones,
                },
            ),
        }
    }

    pub fn id(&self) -> (r: u32)
        ensures
            r == self.id,
    {
        self.id
    }

    pub fn encoder_type(&self) -> (r: u32)
        ensures
            r == self.encoder_type,
    {
        self.encoder_type
    }

    pub fn possible_crtcs(&self) -> (r: u32)
        ensures
            r == self.possible_crtcs,
    {
        self.possible_crtcs
    }

    pub fn possible_clones(&self) -> (r: u32)
        ensures
            r == self.possible_clones,
    {
        self.possible_clones
    }

    pub fn crtc_id(&self) -> (r: u32)
        ensures
            r == self.crtc_id,
    {
        self.crtc_id
    }
}

} // verus!
