use vstd::prelude::*;
use crate::network_message::NetworkMessage;

verus! {

/// A connected client: the identity it registered, the messages it sent
/// that wait to be handled, and the replies that wait to be sent to it.
#[derive(Debug)]
pub struct Entity {
    id: u32,
    class: String,
    title: String,
    version: u32,
    author: String,
    description: String,
    inbox: Vec<NetworkMessage>,
    outbox: Vec<NetworkMessage>,
    connected: bool,
}

/// The model of an entity; replies are seen by their bytes.
pub ghost struct EntityView {
    pub id: u32,
    pub class: Seq<char>,
    pub title: Seq<char>,
    pub version: u32,
    pub author: Seq<char>,
    pub description: Seq<char>,
    pub inbox: Seq<NetworkMessage>,
    pub outbox: Seq<Seq<u8>>,
    pub connected: bool,
}

impl View for Entity {
    type V = EntityView;

    closed spec fn view(&self) -> EntityView {
        EntityView {
            id: self.id,
            class: self.class@,
            title: self.title@,
            version: self.version,
            author: self.author@,
            description: self.description@,
            inbox: self.inbox@,
            outbox: Seq::new(self.outbox@.len(), |k: int| self.outbox@[k].data()),
            connected: self.connected,
        }
    }
}

impl Entity {
    /// A newly accepted client with connection number `id`: nothing
    /// registered, nothing queued.
    pub fn new(id: u32) -> (r: Entity)
        ensures
            r@ == (EntityView {
                id,
                class: Seq::empty(),
                title: Seq::empty(),
                version: 0,
                author: Seq::empty(),
                description: Seq::empty(),
                inbox: Seq::empty(),
                outbox: Seq::empty(),
                connected: true,
            }),
    {
        let r = Entity {
            id,
            class: String::new(),
            title: String::new(),
            version: 0,
            author: String::new(),
            description: String::new(),
            inbox: Vec::new(),
            outbox: Vec::new(),
            connected: true,
        };
        proof {
            assert(r@.outbox =~= Seq::<Seq<u8>>::empty());
        }
        r
    }

    pub fn id(&self) -> (r: u32)
        ensures
            r == self@.id,
    {
        self.id
    }

    pub fn set_class(&mut self, class: String)
        ensures
            final(self)@ == (EntityView { class: class@, ..old(self)@ }),
    {
        self.class = class;
    }

    pub fn set_title(&mut self, title: String)
        ensures
            final(self)@ == (EntityView { title: title@, ..old(self)@ }),
    {
        self.title = title;
    }

    pub fn set_version(&mut self, version: u32)
        ensures
            final(self)@ == (EntityView { version, ..old(self)@ }),
    {
        self.version = version;
    }

    pub fn set_author(&mut self, author: String)
        ensures
            final(self)@ == (EntityView { author: author@, ..old(self)@ }),
    {
        self.author = author;
    }

    pub fn set_description(&mut self, description: String)
        ensures
            final(self)@ == (EntityView { description: description@, ..old(self)@ }),
    {
        self.description = description;
    }

    pub fn class(&self) -> (r: &str)
        ensures
            r@ == self@.class,
    {
        self.class.as_str()
    }

    pub fn title(&self) -> (r: &str)
        ensures
            r@ == self@.title,
    {
        self.title.as_str()
    }

    pub fn version(&self) -> (r: u32)
        ensures
            r == self@.version,
    {
        self.version
    }

    pub fn author(&self) -> (r: &str)
        ensures
            r@ == self@.author,
    {
        self.author.as_str()
    }

    pub fn description(&self) -> (r: &str)
        ensures
            r@ == self@.description,
    {
        self.description.as_str()
    }

    pub fn is_connected(&self) -> (r: bool)
        ensures
            r == self@.connected,
    {
        self.connected
    }

    /// Queues a message that arrived from the client.
    pub fn receive(&mut self, message: NetworkMessage)
        ensures
            final(self)@ == (EntityView { inbox: old(self)@.inbox.push(message), ..old(self)@ }),
    {
        self.inbox.push(message);
    }

    /// The oldest message from the client not yet handled, if any.
    pub fn recv_message(&mut self) -> (r: Option<NetworkMessage>)
        ensures
            old(self)@.inbox.len() == 0 ==> r is None && final(self)@ == old(self)@,
            old(self)@.inbox.len() > 0 ==> r == Some(old(self)@.inbox[0]) && final(self)@ == (
            EntityView { inbox: old(self)@.inbox.subrange(1, old(self)@.inbox.len() as int), ..old(self)@ }),
    {
        if self.inbox.len() == 0 {
            return None;
        }
        let m = self.inbox.remove(0);
        proof {
            assert(self.inbox@ =~= old(self)@.inbox.subrange(1, old(self)@.inbox.len() as int));
            assert(self@.outbox =~= old(self)@.outbox);
        }
        Some(m)
    }

    /// Queues a reply to the client.
    pub fn send(&mut self, message: NetworkMessage)
        ensures
            final(self)@ == (EntityView { outbox: old(self)@.outbox.push(message.data()), ..old(self)@ }),
    {
        self.outbox.push(message);
        proof {
            assert(self@.outbox =~= old(self)@.outbox.push(message.data()));
        }
    }

    /// Hands over the replies queued so far, oldest first.
    pub fn take_outgoing(&mut self) -> (r: Vec<NetworkMessage>)
        ensures
            Seq::new(r@.len(), |k: int| r@[k].data()) == old(self)@.outbox,
            final(self)@ == (EntityView { outbox: Seq::empty(), ..old(self)@ }),
    {
        let mut out: Vec<NetworkMessage> = Vec::new();
        std::mem::swap(&mut out, &mut self.outbox);
        proof {
            assert(Seq::new(out@.len(), |k: int| out@[k].data()) =~= old(self)@.outbox);
            assert(self@.outbox =~= Seq::<Seq<u8>>::empty());
        }
        out
    }

    /// Marks the client as gone; its socket is shut down by its owner.
    pub fn disconnect(&mut self)
        ensures
            final(self)@ == (EntityView { connected: false, ..old(self)@ }),
    {
        self.connected = false;
    }
}

} // verus!
