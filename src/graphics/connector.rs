use vstd::prelude::*;
use crate::error::ErrorKind;
use crate::graphics::encoder::{Encoder, EncoderInfo};
use crate::graphics::enums::{ConnectorType, connector_type_code};
use crate::graphics::mode::ModeInfo;

verus! {

/// What the hardware reports of a connector.
#[derive(Debug, Clone)]
pub struct ConnectorInfo {
    pub connector_id: u32,
    /// Whether a display is attached.
    pub connected: bool,
    /// The kernel number of the connector kind.
    pub connector_type: u32,
    pub mm_width: u32,
    pub mm_height: u32,
    pub subpixel: u32,
    pub modes: Vec<ModeInfo>,
    pub encoder_id: u32,
}

/// A connected output port with at least one mode.
#[derive(Debug)]
pub struct Connector {
    id: u32,
    connector_type: ConnectorType,
    mm_width: u32,
    mm_height: u32,
    subpixel: u32,
    modes: Vec<ModeInfo>,
    encoder: Encoder,
}

/// The model of a connector.
pub ghost struct ConnectorView {
    pub id: u32,
    pub connector_type: ConnectorType,
    pub mm_width: u32,
    pub mm_height: u32,
    pub subpixel: u32,
    pub modes: Seq<ModeInfo>,
    pub encoder: Encoder,
}

impl View for Connector {
    type V = ConnectorView;

    closed spec fn view(&self) -> ConnectorView {
        ConnectorView {
            id: self.id,
            connector_type: self.connector_type,
            mm_width: self.mm_width,
            mm_height: self.mm_height,
            subpixel: self.subpixel,
            modes: self.modes@,
            encoder: self.encoder,
        }
    }
}

impl Connector {
    /// The connector the hardware reported (`None` where the query failed),
    /// with the encoder reported under its encoder id. A port with nothing
    /// attached gives `Ok(None)`; an attached one without modes is a fault.
    pub fn new(info: Option<ConnectorInfo>, encoder: Option<EncoderInfo>) -> (r: Result<
        Option<Connector>,
        ErrorKind,
    >)
        ensures
            match info {
                None => r == Err::<Option<Connector>, ErrorKind>(ErrorKind::CONNECTOR_FAILED),
                Some(c) => if !c.connected {
                    r == Ok::<Option<Connector>, ErrorKind>(None)
                } else if c.modes@.len() == 0 {
                    r == Err::<Option<Connector>, ErrorKind>(ErrorKind::CONNECTOR_MODE_FAILED)
                } else if c.encoder_id == 0 || encoder is None {
                    r == Err::<Option<Connector>, ErrorKind>(ErrorKind::ENCODER_FAILED)
                } else {
                    r matches Ok(Some(k)) && k.wf() && k@ == (ConnectorView {
                        id: c.connector_id,
                        connector_type: k@.connector_type,
                        mm_width: c.mm_width,
                        mm_height: c.mm_height,
                        subpixel: c.subpixel,
                        modes: c.modes@,
                        encoder: Encoder {
                            id: c.encoder_id,
                            encoder_type: encoder->0.encoder_type,
                            crtc_id: encoder->0.crtc_id,
                            possible_crtcs: encoder->0.possible_crtcs,
                            possible_clones: encoder->0.possible_clones,
                        },
                    }) && (c.connector_type <= 20 ==> connector_type_code(k@.connector_type)
                        == c.connector_type) && (c.connector_type > 20 ==> k@.connector_type
                        == ConnectorType::Unknown)
                },
            },
    {
        match info {
            None => Err(ErrorKind::CONNECTOR_FAILED),
            Some(c) => {
                if !c.connected {
                    return Ok(None);
                }
                if c.modes.len() == 0 {
                    return Err(ErrorKind::CONNECTOR_MODE_FAILED);
                }
                match Encoder::new(c.encoder_id, encoder) {
                    Err(e) => Err(e),
                    Ok(enc) => Ok(
                        Some(
                            Connector {
                                id: c.connector_id,
                                connector_type: ConnectorType::from_u32(c.connector_type),
                                mm_width: c.mm_width,
                                mm_height: c.mm_height,
                                subpixel: c.subpixel,
                                modes: c.modes,
                                encoder: enc,
                            },
                        ),
                    ),
                }
            },
        }
    }

    /// A materialised connector has a mode.
    pub open spec fn wf(&self) -> bool {
        self@.modes.len() > 0
    }

    pub fn id(&self) -> (r: u32)
        ensures
            r == self@.id,
    {
        self.id
    }

    pub fn connector_type(&self) -> (r: ConnectorType)
        ensures
            r == self@.connector_type,
    {
        self.connector_type
    }

    #[allow(non_snake_case)]
    pub fn mmWidth(&self) -> (r: u32)
        ensures
            r == self@.mm_width,
    {
        self.mm_width
    }

    #[allow(non_snake_case)]
    pub fn mmHeight(&self) -> (r: u32)
        ensures
            r == self@.mm_height,
    {
        self.mm_height
    }

    pub fn subpixel(&self) -> (r: u32)
        ensures
            r == self@.subpixel,
    {
        self.subpixel
    }

    /// The mode at `id`, if there is one.
    pub fn get_mode(&self, id: usize) -> (r: Option<ModeInfo>)
        ensures
            id < self@.modes.len() ==> r == Some(self@.modes[id as int]),
            id >= self@.modes.len() ==> r is None,
    {
        if id < self.modes.len() {
            Some(self.modes[id])
        } else {
            None
        }
    }

    pub fn modes(&self) -> (r: &[ModeInfo])
        ensures
            r@ == self@.modes,
    {
        self.modes.as_slice()
    }

    pub fn encoder(&self) -> (r: Encoder)
        ensures
            r == self@.encoder,
    {
        self.encoder
    }
}

} // verus!
