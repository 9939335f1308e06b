//! Chat messages with a body.
use vstd::prelude::*;
use crate::element::{XmlElement, ElementView, qname, spec_empty_element};
use crate::jid::{Jid, JidView, ToJid};
use crate::events::kinds::{EventError, MessageType};
use crate::events::generic::{GenericMessage, GenericMessageView, spec_message_element, spec_message_from_element, spec_message_read,
    lemma_message_element_has_to};
use crate::events::interface::{Event, StanzaEvent, EventView, StanzaEventView};

verus! {

pub struct Message {
    /// the message without its body
    pub generic: GenericMessage,
    /// the type of the message, `chat`
    pub message_type: String,
    /// the text of the body
    pub body: String,
}

pub struct MessageView {
    pub generic: GenericMessageView,
    pub body: Seq<char>,
}

impl View for Message {
    type V = MessageView;

    open spec fn view(&self) -> MessageView {
        MessageView { generic: self.generic@, body: self.body@ }
    }
}

/// The element of a message: the generic message element with a `body` child holding the
/// body text.
pub open spec fn spec_body_message_element(v: MessageView) -> ElementView {
    let e = spec_message_element(v.generic);
    let body = ElementView { text: v.body, ..spec_empty_element(qname(Some(Seq::empty()), "body"@)) };
    ElementView { children: e.children.push(body), ..e }
}

impl Message {
    /// A chat message to `to` holding `msg`.
    pub fn new<T: ToJid>(to: &T, msg: &str) -> (r: Message)
        requires
            to.spec_to_jid() is Ok,
        ensures
            r@.generic == (GenericMessageView {
                id: None,
                to: to.spec_to_jid()->Ok_0,
                from: None,
                message_type: Some(MessageType::Chat),
                element: None,
                childs: None,
            }),
            r@.body == msg@,
    {
        Message { generic: GenericMessage::new(to), message_type: "chat".to_owned(), body: msg.to_owned() }
    }

    /// The element of this message.
    pub fn to_element(&self) -> (r: XmlElement)
        ensures
            r@ == spec_body_message_element(self@),
    {
        let mut element = self.generic.to_element();
        let mut body = XmlElement::new(Some(""), "body");
        body.set_text(self.body.as_str());
        proof {
            reveal_strlit("");
            assert(""@ =~= Seq::<char>::empty());
        }
        element.append_child(body);
        element
    }

    /// Reads a message out of an element; the body is left empty. An element without a `to`
    /// attribute is refused, as `GenericMessage::from_element` refuses it.
    pub fn from_element(e: XmlElement) -> (r: Result<Message, EventError>)
        ensures
            match (r, spec_message_read(e@)) {
                (Ok(m), Ok(g)) => m@.generic == g && m@.body == Seq::<char>::empty(),
                (Err(x), Err(y)) => x == y,
                _ => false,
            },
    {
        let generic = match GenericMessage::from_element(e) {
            Ok(g) => g,
            Err(x) => return Err(x),
        };
        Ok(Message { generic, message_type: "chat".to_owned(), body: String::new() })
    }

    pub fn get_to(&self) -> (r: &Jid)
        ensures
            r@ == self@.generic.to,
    {
        self.generic.get_to()
    }

    pub fn get_from(&self) -> (r: Option<&Jid>)
        ensures
            match r {
                Some(j) => self@.generic.from == Some(j@),
                None => self@.generic.from is None,
            },
    {
        self.generic.get_from()
    }

    pub fn copy(&self) -> (r: Message)
        ensures
            r@ == self@,
    {
        Message { generic: self.generic.copy(), message_type: self.message_type.clone(), body: self.body.clone() }
    }

    /// The generic message this message stands for: the message read back from its element.
    pub fn to_message(&self) -> (r: GenericMessage)
        ensures
            r@ == spec_message_from_element(spec_body_message_element(self@)),
    {
        proof {
            lemma_message_element_has_to(self@.generic);
        }
        match GenericMessage::from_element(self.to_element()) {
            Ok(m) => m,
            Err(_) => {
                assert(false);
                self.generic.copy()
            },
        }
    }

    /// The event of this message: a message event holding the generic message read back from
    /// its element.
    pub fn to_event(&self) -> (r: Event)
        ensures
            r@ == EventView::Stanza(
                StanzaEventView::Message(spec_message_from_element(spec_body_message_element(self@))),
                Seq::empty(),
            ),
    {
        Event::Stanza(Box::new(StanzaEvent::MessageEvent(Box::new(self.to_message()))), String::new())
    }
}

} // verus!
