use vstd::prelude::*;
use vstd::utf8::encode_utf8;
use crate::codec::le32;
use crate::network_message::{NetworkMessage, utf16_field, utf8_field};
use crate::protocol::{ProtocolCode, protocol_code_value};
use crate::text::utf16_of;

verus! {

/// The identity a client registers with.
#[derive(Debug)]
pub struct Metadata {
    pub class: String,
    pub title: String,
    pub version: u32,
    pub author: String,
    pub description: String,
}

impl Metadata {
    /// The entity-register request announcing this identity: class (UTF-8),
    /// title (UTF-16), version, author and description (UTF-8).
    pub fn registration_message(&self) -> (r: NetworkMessage)
        requires
            encode_utf8(self.class@).len() <= u32::MAX,
            utf16_of(self.title@).len() <= u32::MAX,
            encode_utf8(self.author@).len() <= u32::MAX,
            encode_utf8(self.description@).len() <= u32::MAX,
        ensures
            r.data() == le32(protocol_code_value(ProtocolCode::ProtocolEntityRegister) as u32)
                + utf8_field(encode_utf8(self.class@)) + utf16_field(
                utf16_of(self.title@),
            ) + le32(self.version) + utf8_field(encode_utf8(self.author@)) + utf8_field(
                encode_utf8(self.description@),
            ),
            r.cursor() == 0,
    {
        let mut msg = NetworkMessage::new(ProtocolCode::ProtocolEntityRegister);
        msg.write_string_utf8(self.class.as_str());
        msg.write_string_utf16(self.title.as_str());
        msg.write_u32(self.version);
        msg.write_string_utf8(self.author.as_str());
        msg.write_string_utf8(self.description.as_str());
        msg
    }
}

} // verus!
