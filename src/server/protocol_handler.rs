use vstd::prelude::*;
use vstd::utf8::encode_utf8;
use crate::codec::le32;
use crate::error::ErrorKind;
use crate::graphics::enums::{connector_type_code, lemma_vendor_name_len, vendor_id, vendor_name};
use crate::text::lemma_utf8_len_bound;
use crate::graphics::screen::Screen;
use crate::network_message::{
    NetworkMessage, i32_at, u32_at, utf16_at, utf8_at, utf8_field, words_le,
};
use crate::protocol::{ProtocolCode, protocol_code_value};
use crate::server::display::Display;
use crate::server::entity::{Entity, EntityView};
use crate::server::gpu::{
    GPU, first_gpu, first_screen, has_gpu, has_screen, lemma_first_gpu, lemma_first_screen,
};

verus! {

/// A handler for one protocol code: it reads the request and queues at most
/// one reply on the entity.
pub type Handler = fn(&mut Display, &mut Entity, NetworkMessage) -> Result<(), ErrorKind>;

/// What a code is handled by: the built-in handler, or one set in its place.
pub enum Slot<F> {
    Builtin,
    Custom(F),
}

/// The code at the head of a reply of kind `p`.
pub open spec fn code_le(p: ProtocolCode) -> Seq<u8> {
    le32(protocol_code_value(p) as u32)
}

/// A fault report carrying `text`.
pub open spec fn error_reply(text: Seq<char>) -> Seq<u8> {
    code_le(ProtocolCode::ProtocolError) + utf8_field(encode_utf8(text))
}

/// `view` with one more reply queued.
pub open spec fn replied(view: EntityView, reply: Seq<u8>) -> EntityView {
    EntityView { outbox: view.outbox.push(reply), ..view }
}

/// `view` with its oldest pending message taken.
pub open spec fn popped(view: EntityView) -> EntityView {
    EntityView { inbox: view.inbox.subrange(1, view.inbox.len() as int), ..view }
}

/// The fields of an entity registration at `pos`: class (UTF-8), title
/// (UTF-16), version, author and description (UTF-8).
pub open spec fn registration(data: Seq<u8>, pos: nat) -> Result<
    (Seq<char>, Seq<char>, u32, Seq<char>, Seq<char>),
    ErrorKind,
> {
    match utf8_at(data, pos) {
        Err(e) => Err(e),
        Ok((class, after_class)) => match utf16_at(data, after_class) {
            Err(e) => Err(e),
            Ok((title, after_title)) => match u32_at(data, after_title) {
                Err(e) => Err(e),
                Ok((version, after_version)) => match utf8_at(data, after_version) {
                    Err(e) => Err(e),
                    Ok((author, after_author)) => match utf8_at(data, after_author) {
                        Err(e) => Err(e),
                        Ok((description, _)) => Ok((class, title, version, author, description)),
                    },
                },
            },
        },
    }
}

/// The handles of `gpus`, as sent.
pub open spec fn gpu_ids(gpus: Seq<GPU>) -> Seq<u32> {
    Seq::new(gpus.len(), |k: int| gpus[k].spec_id() as u32)
}

/// The connector ids of `screens`, as sent.
pub open spec fn screen_ids(screens: Seq<Screen>) -> Seq<u32> {
    Seq::new(screens.len(), |k: int| screens[k].spec_connector().id)
}

/// The reply to a GPU listing.
pub open spec fn enumerate_gpus_reply(gpus: Seq<GPU>) -> Seq<u8> {
    code_le(ProtocolCode::ProtocolEnumerateGPUS) + le32(gpus.len() as u32) + words_le(gpu_ids(gpus))
}

/// The reply describing a GPU: handle, vendor id, vendor name, model.
pub open spec fn gpu_info_reply(g: GPU) -> Seq<u8> {
    code_le(ProtocolCode::ProtocolGPUInfo) + le32(g.spec_id() as u32) + le32(vendor_id(g.spec_vendor()))
        + utf8_field(encode_utf8(vendor_name(g.spec_vendor()))) + le32(g.spec_model())
}

/// The reply listing a GPU's screens.
pub open spec fn enumerate_screens_reply(g: GPU) -> Seq<u8> {
    code_le(ProtocolCode::ProtocolEnumerateScreens) + le32(g.spec_screens().len() as u32) + words_le(
        screen_ids(g.spec_screens()),
    )
}

/// The fields describing a screen: id, width, height, refresh, subpixel,
/// connector kind, physical width and height, ring depth.
pub open spec fn screen_info_words(s: Screen) -> Seq<u32> {
    seq![
        s.spec_connector().id,
        s.current_mode().hdisplay as u32,
        s.current_mode().vdisplay as u32,
        s.current_mode().vrefresh,
        s.spec_connector().subpixel,
        connector_type_code(s.spec_connector().connector_type),
        s.spec_connector().mm_width,
        s.spec_connector().mm_height,
        s.ring_len() as u32,
    ]
}

/// The reply describing a screen.
pub open spec fn screen_info_reply(s: Screen) -> Seq<u8> {
    code_le(ProtocolCode::ProtocolScreenInfo) + words_le(screen_info_words(s))
}

/// What registering from `msg` does: the five fields are stored as sent and
/// nothing is replied; a request that does not decode changes nothing.
pub open spec fn register_post(
    msg: NetworkMessage,
    before: EntityView,
    after: EntityView,
    r: Result<(), ErrorKind>,
) -> bool {
    match registration(msg.data(), msg.cursor()) {
        Err(e) => r == Err::<(), ErrorKind>(e) && after == before,
        Ok((class, title, version, author, description)) => r is Ok && after == (EntityView {
            class,
            title,
            version,
            author,
            description,
            ..before
        }),
    }
}

/// What a GPU listing does: one reply with the count and the handles.
pub open spec fn enumerate_gpus_post(
    display: Display,
    before: EntityView,
    after: EntityView,
    r: Result<(), ErrorKind>,
) -> bool {
    r is Ok && after == replied(before, enumerate_gpus_reply(display.spec_gpus()))
}

/// What a GPU query does: one reply, the description or a fault report; a
/// request that does not decode is an error and gets none.
pub open spec fn gpu_info_post(
    display: Display,
    msg: NetworkMessage,
    before: EntityView,
    after: EntityView,
    r: Result<(), ErrorKind>,
) -> bool {
    match i32_at(msg.data(), msg.cursor()) {
        Err(e) => r == Err::<(), ErrorKind>(e) && after == before,
        Ok((id, _)) => r is Ok && after == replied(
            before,
            if has_gpu(display.spec_gpus(), id) {
                gpu_info_reply(first_gpu(display.spec_gpus(), id))
            } else {
                error_reply("Failed to get GPU info."@)
            },
        ),
    }
}

/// What a screen listing does: one reply, the list or a fault report.
pub open spec fn enumerate_screens_post(
    display: Display,
    msg: NetworkMessage,
    before: EntityView,
    after: EntityView,
    r: Result<(), ErrorKind>,
) -> bool {
    match i32_at(msg.data(), msg.cursor()) {
        Err(e) => r == Err::<(), ErrorKind>(e) && after == before,
        Ok((id, _)) => r is Ok && after == replied(
            before,
            if has_gpu(display.spec_gpus(), id) {
                enumerate_screens_reply(first_gpu(display.spec_gpus(), id))
            } else {
                error_reply("GPU not found."@)
            },
        ),
    }
}

/// What a screen query does: one reply, the description or a fault report
/// for an unknown GPU or screen.
pub open spec fn screen_info_post(
    display: Display,
    msg: NetworkMessage,
    before: EntityView,
    after: EntityView,
    r: Result<(), ErrorKind>,
) -> bool {
    match i32_at(msg.data(), msg.cursor()) {
        Err(e) => r == Err::<(), ErrorKind>(e) && after == before,
        Ok((id, next)) => if !has_gpu(display.spec_gpus(), id) {
            r is Ok && after == replied(before, error_reply("GPU not found."@))
        } else {
            let g = first_gpu(display.spec_gpus(), id);
            match u32_at(msg.data(), next) {
                Err(e) => r == Err::<(), ErrorKind>(e) && after == before,
                Ok((sid, _)) => r is Ok && after == replied(
                    before,
                    if has_screen(g.spec_screens(), sid) {
                        screen_info_reply(first_screen(g.spec_screens(), sid))
                    } else {
                        error_reply("Screen not found."@)
                    },
                ),
            }
        },
    }
}

/// Queues a fault report carrying `text`.
fn send_error(entity: &mut Entity, text: &str)
    requires
        text@.len() <= 0x1000,
    ensures
        final(entity)@ == replied(old(entity)@, error_reply(text@)),
{
    let mut reply = NetworkMessage::new(ProtocolCode::ProtocolError);
    proof {
        lemma_utf8_len_bound(text@);
    }
    reply.write_string_utf8(text);
    entity.send(reply);
}

/// Stores the class, title, version, author and description an entity
/// registers with.
pub fn protocol_register_entity(display: &mut Display, entity: &mut Entity, message: NetworkMessage) -> (r:
    Result<(), ErrorKind>)
    ensures
        *final(display) == *old(display),
        register_post(message, old(entity)@, final(entity)@, r),
{
    let mut message = message;
    let class = match message.read_string_utf8() {
        Ok(v) => v,
        Err(e) => return Err(e),
    };
    let title = match message.read_string_utf16() {
        Ok(v) => v,
        Err(e) => return Err(e),
    };
    let version = match message.read_u32() {
        Ok(v) => v,
        Err(e) => return Err(e),
    };
    let author = match message.read_string_utf8() {
        Ok(v) => v,
        Err(e) => return Err(e),
    };
    let description = match message.read_string_utf8() {
        Ok(v) => v,
        Err(e) => return Err(e),
    };
    entity.set_class(class);
    entity.set_title(title);
    entity.set_version(version);
    entity.set_author(author);
    entity.set_description(description);
    Ok(())
}

/// Replies with the number of GPUs and their handles.
pub fn protocol_enumerate_gpus(display: &mut Display, entity: &mut Entity, message: NetworkMessage) -> (r:
    Result<(), ErrorKind>)
    requires
        old(display).wf(),
    ensures
        *final(display) == *old(display),
        enumerate_gpus_post(*old(display), old(entity)@, final(entity)@, r),
{
    let mut reply = NetworkMessage::new(ProtocolCode::ProtocolEnumerateGPUS);
    let gpus = display.gpus();
    let mut ids: Vec<u32> = Vec::new();
    let mut k: usize = 0;
    while k < gpus.len()
        invariant
            gpus@ == display.spec_gpus(),
            k <= gpus@.len(),
            ids@ == gpu_ids(gpus@).subrange(0, k as int),
        decreases gpus@.len() - k,
    {
        ids.push(gpus[k].id() as u32);
        k = k + 1;
        proof {
            assert(ids@ =~= gpu_ids(gpus@).subrange(0, k as int));
        }
    }
    proof {
        assert(ids@ =~= gpu_ids(gpus@));
    }
    reply.write_u32(gpus.len() as u32);
    reply.write_words(ids.as_slice());
    proof {
        assert(reply.data() =~= enumerate_gpus_reply(display.spec_gpus()));
    }
    entity.send(reply);
    Ok(())
}

/// Replies with the handle, vendor and model of the GPU asked for, or with
/// a fault report where there is no such GPU.
pub fn protocol_gpuinfo(display: &mut Display, entity: &mut Entity, message: NetworkMessage) -> (r:
    Result<(), ErrorKind>)
    requires
        old(display).wf(),
    ensures
        *final(display) == *old(display),
        gpu_info_post(*old(display), message, old(entity)@, final(entity)@, r),
{
    let mut message = message;
    let id = match message.read_i32() {
        Ok(v) => v,
        Err(e) => return Err(e),
    };
    match display.get_gpu(id) {
        Some(gpu) => {
            let mut reply = NetworkMessage::new(ProtocolCode::ProtocolGPUInfo);
            reply.write_i32(gpu.id());
            reply.write_u32(gpu.vendor().id());
            proof {
                lemma_vendor_name_len(gpu.spec_vendor());
                lemma_utf8_len_bound(vendor_name(gpu.spec_vendor()));
            }
            reply.write_string_utf8(gpu.vendor().name());
            reply.write_u32(gpu.model());
            proof {
                assert(reply.data() =~= gpu_info_reply(first_gpu(display.spec_gpus(), id)));
            }
            entity.send(reply);
        },
        None => {
            proof {
                reveal_strlit("Failed to get GPU info.");
            }
            send_error(entity, "Failed to get GPU info.")
        },
    }
    Ok(())
}

/// Replies with the screens of the GPU asked for, or with a fault report
/// where there is no such GPU.
pub fn protocol_enumerate_screen(display: &mut Display, entity: &mut Entity, message: NetworkMessage) -> (r:
    Result<(), ErrorKind>)
    requires
        old(display).wf(),
    ensures
        *final(display) == *old(display),
        enumerate_screens_post(*old(display), message, old(entity)@, final(entity)@, r),
{
    let mut message = message;
    let id = match message.read_i32() {
        Ok(v) => v,
        Err(e) => return Err(e),
    };
    match display.gpu_index(id) {
        None => {
            proof {
                reveal_strlit("GPU not found.");
            }
            send_error(entity, "GPU not found.");
        },
        Some(g) => {
            proof {
                lemma_first_gpu(display.spec_gpus(), id, g as int);
            }
            let gpu = &display.gpus()[g];
            let screens = gpu.screens();
            let mut ids: Vec<u32> = Vec::new();
            let mut k: usize = 0;
            while k < screens.len()
                invariant
                    screens@ == gpu.spec_screens(),
                    k <= screens@.len(),
                    ids@ == screen_ids(screens@).subrange(0, k as int),
                decreases screens@.len() - k,
            {
                ids.push(screens[k].id());
                k = k + 1;
                proof {
                    assert(ids@ =~= screen_ids(screens@).subrange(0, k as int));
                }
            }
            proof {
                assert(ids@ =~= screen_ids(screens@));
            }
            let mut reply = NetworkMessage::new(ProtocolCode::ProtocolEnumerateScreens);
            reply.write_u32(screens.len() as u32);
            reply.write_words(ids.as_slice());
            proof {
                assert(reply.data() =~= enumerate_screens_reply(first_gpu(display.spec_gpus(), id)));
            }
            entity.send(reply);
        },
    }
    Ok(())
}

/// Replies with the mode, kind, size and ring depth of the screen asked for,
/// or with a fault report where the GPU or the screen is unknown.
pub fn protocol_screeninfo(display: &mut Display, entity: &mut Entity, message: NetworkMessage) -> (r:
    Result<(), ErrorKind>)
    requires
        old(display).wf(),
    ensures
        *final(display) == *old(display),
        screen_info_post(*old(display), message, old(entity)@, final(entity)@, r),
{
    let ghost msg0 = message;
    let mut message = message;
    let id = match message.read_i32() {
        Ok(v) => v,
        Err(e) => return Err(e),
    };
    let g = match display.gpu_index(id) {
        None => {
            proof {
                reveal_strlit("GPU not found.");
            }
            send_error(entity, "GPU not found.");
            return Ok(());
        },
        Some(g) => g,
    };
    proof {
        lemma_first_gpu(display.spec_gpus(), id, g as int);
    }
    let gpu = &display.gpus()[g];
    assert(gpu.wf());
    let sid = match message.read_u32() {
        Ok(v) => v,
        Err(e) => return Err(e),
    };
    match gpu.screen_index(sid) {
        None => {
            proof {
                reveal_strlit("Screen not found.");
            }
            send_error(entity, "Screen not found.");
        },
        Some(k) => {
            proof {
                lemma_first_screen(gpu.spec_screens(), sid, k as int);
            }
            let screen = &gpu.screens()[k];
            assert(screen.wf());
            let words = vec![
                screen.id(),
                screen.width(),
                screen.height(),
                screen.refresh(),
                screen.subpixel(),
                screen.connector_type().code(),
                screen.mmWidth(),
                screen.mmHeight(),
                screen.buffer_count() as u32,
            ];
            let mut reply = NetworkMessage::new(ProtocolCode::ProtocolScreenInfo);
            reply.write_words(words.as_slice());
            proof {
                assert(words@ =~= screen_info_words(*screen));
                assert(reply.data() =~= screen_info_reply(*screen));
            }
            entity.send(reply);
        },
    }
    Ok(())
}

/// The handler of each protocol code a client may send, each one the
/// built-in handler unless another was set in its place.
pub struct ProtocolHandler<F> {
    proto_register_entity: Slot<F>,
    proto_enumerate_gpus: Slot<F>,
    proto_gpuinfo: Slot<F>,
    proto_enumerate_screen: Slot<F>,
    proto_screeninfo: Slot<F>,
}

/// Whether a handler can be set for `code`.
pub open spec fn has_slot(code: ProtocolCode) -> bool {
    !(code == ProtocolCode::ProtocolError || code == ProtocolCode::ProtocolNone)
}

impl<F: Fn(&mut Display, &mut Entity, NetworkMessage) -> Result<(), ErrorKind>> ProtocolHandler<F> {
    /// What handles `code`; `None` for codes a client does not send.
    pub closed spec fn slot(&self, code: ProtocolCode) -> Option<&Slot<F>> {
        match code {
            ProtocolCode::ProtocolEntityRegister => Some(&self.proto_register_entity),
            ProtocolCode::ProtocolEnumerateGPUS => Some(&self.proto_enumerate_gpus),
            ProtocolCode::ProtocolGPUInfo => Some(&self.proto_gpuinfo),
            ProtocolCode::ProtocolEnumerateScreens => Some(&self.proto_enumerate_screen),
            ProtocolCode::ProtocolScreenInfo => Some(&self.proto_screeninfo),
            _ => None,
        }
    }

    /// Every handler set in place of a built-in one accepts every request.
    pub open spec fn callable(&self) -> bool {
        forall|code: ProtocolCode|
            #![trigger self.slot(code)]
            match self.slot(code) {
                Some(Slot::Custom(f)) => forall|d: &mut Display, e: &mut Entity, m: NetworkMessage|
                    call_requires(*f, (d, e, m)),
                _ => true,
            }
    }

    /// All codes handled by the built-in handlers.
    pub fn new() -> (r: Self)
        ensures
            forall|code: ProtocolCode| has_slot(code) <==> r.slot(code) is Some,
            forall|code: ProtocolCode| has_slot(code) ==> #[trigger] r.slot(code) == Some(&Slot::<F>::Builtin),
    {
        ProtocolHandler {
            proto_register_entity: Slot::Builtin,
            proto_enumerate_gpus: Slot::Builtin,
            proto_gpuinfo: Slot::Builtin,
            proto_enumerate_screen: Slot::Builtin,
            proto_screeninfo: Slot::Builtin,
        }
    }

    /// Puts `callback` in place of the handler for `code`. Codes a client
    /// does not send have no handler, and are refused.
    pub fn set_protocol_handler(&mut self, code: ProtocolCode, callback: F) -> (r: Result<(), ErrorKind>)
        ensures
            !has_slot(code) ==> r == Err::<(), ErrorKind>(ErrorKind::PROTOCOL_FAILED) && forall|
                c: ProtocolCode,
            | #[trigger] final(self).slot(c) == old(self).slot(c),
            has_slot(code) ==> r is Ok && final(self).slot(code) == Some(&Slot::Custom(callback))
                && forall|c: ProtocolCode| c != code ==> #[trigger] final(self).slot(c) == old(self).slot(c),
    {
        match code {
            ProtocolCode::ProtocolEntityRegister => self.proto_register_entity = Slot::Custom(callback),
            ProtocolCode::ProtocolEnumerateGPUS => self.proto_enumerate_gpus = Slot::Custom(callback),
            ProtocolCode::ProtocolGPUInfo => self.proto_gpuinfo = Slot::Custom(callback),
            ProtocolCode::ProtocolEnumerateScreens => self.proto_enumerate_screen = Slot::Custom(callback),
            ProtocolCode::ProtocolScreenInfo => self.proto_screeninfo = Slot::Custom(callback),
            _ => return Err(ErrorKind::PROTOCOL_FAILED),
        }
        Ok(())
    }

    /// Handles the oldest pending message of `entity` as a request of kind
    /// `code`, with the handler in that code's slot: the built-in one, or
    /// the callback set in its place, whose result is returned. With no
    /// message pending this succeeds and does nothing; a code without a
    /// handler consumes the message and replies nothing.
    pub fn handle(&self, display: &mut Display, entity: &mut Entity, code: ProtocolCode) -> (r:
        Result<(), ErrorKind>)
        requires
            old(display).wf(),
            self.callable(),
        ensures
            old(entity)@.inbox.len() == 0 ==> r is Ok && final(entity)@ == old(entity)@
                && *final(display) == *old(display),
            old(entity)@.inbox.len() > 0 && !has_slot(code) ==> r is Ok && final(entity)@ == popped(
                old(entity)@,
            ) && *final(display) == *old(display),
            match self.slot(code) {
                Some(Slot::Custom(f)) => old(entity)@.inbox.len() > 0 ==> exists|
                    d: &mut Display,
                    e: &mut Entity,
                |
                    *d == *old(display) && *final(d) == *final(display) && (*e)@ == popped(
                        old(entity)@,
                    ) && *final(e) == *final(entity) && #[trigger] call_ensures(
                        *f,
                        (d, e, old(entity)@.inbox[0]),
                        r,
                    ),
                _ => true,
            },
            (old(entity)@.inbox.len() > 0 && self.slot(code) == Some(&Slot::<F>::Builtin)) ==> {
                let msg = old(entity)@.inbox[0];
                let before = popped(old(entity)@);
                &&& *final(display) == *old(display)
                &&& code == ProtocolCode::ProtocolEntityRegister ==> register_post(
                    msg,
                    before,
                    final(entity)@,
                    r,
                )
                &&& code == ProtocolCode::ProtocolEnumerateGPUS ==> enumerate_gpus_post(
                    *old(display),
                    before,
                    final(entity)@,
                    r,
                )
                &&& code == ProtocolCode::ProtocolGPUInfo ==> gpu_info_post(
                    *old(display),
                    msg,
                    before,
                    final(entity)@,
                    r,
                )
                &&& code == ProtocolCode::ProtocolEnumerateScreens ==> enumerate_screens_post(
                    *old(display),
                    msg,
                    before,
                    final(entity)@,
                    r,
                )
                &&& code == ProtocolCode::ProtocolScreenInfo ==> screen_info_post(
                    *old(display),
                    msg,
                    before,
                    final(entity)@,
                    r,
                )
            },
    {
        let message = match entity.recv_message() {
            None => return Ok(()),
            Some(m) => m,
        };
        let slot = match code {
            ProtocolCode::ProtocolEntityRegister => &self.proto_register_entity,
            ProtocolCode::ProtocolEnumerateGPUS => &self.proto_enumerate_gpus,
            ProtocolCode::ProtocolGPUInfo => &self.proto_gpuinfo,
            ProtocolCode::ProtocolEnumerateScreens => &self.proto_enumerate_screen,
            ProtocolCode::ProtocolScreenInfo => &self.proto_screeninfo,
            _ => return Ok(()),
        };
        assert(self.slot(code) == Some(slot));
        match slot {
            Slot::Custom(f) => f(display, entity, message),
            Slot::Builtin => match code {
                ProtocolCode::ProtocolEntityRegister => protocol_register_entity(display, entity, message),
                ProtocolCode::ProtocolEnumerateGPUS => protocol_enumerate_gpus(display, entity, message),
                ProtocolCode::ProtocolGPUInfo => protocol_gpuinfo(display, entity, message),
                ProtocolCode::ProtocolEnumerateScreens => protocol_enumerate_screen(display, entity, message),
                _ => protocol_screeninfo(display, entity, message),
            },
        }
    }
}

} // verus!
