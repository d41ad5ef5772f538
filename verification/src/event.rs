//! The event model shared by every endpoint.

use vstd::prelude::*;

verus! {

/// What happened: a participant joined, left, or said something.
#[derive(Debug, PartialEq, Eq, Structural)]
pub enum MessageType {
    JOIN,
    PART,
    MESSAGE,
}

impl Clone for MessageType {
    fn clone(&self) -> (r: Self)
        ensures
            r == *self,
    {
        match self {
            MessageType::JOIN => MessageType::JOIN,
            MessageType::PART => MessageType::PART,
            MessageType::MESSAGE => MessageType::MESSAGE,
        }
    }
}

/// One join, part or chat message, tagged with the endpoint it came from.
#[derive(Debug)]
pub struct ServerEventMessage {
    /// The endpoint that produced the event.
    pub source: String,
    pub message_type: MessageType,
    /// The participant the event is about.
    pub target: String,
    /// The text of a chat message; empty for joins and parts.
    pub content: String,
}

/// The mathematical value of an event.
pub struct EventView {
    pub source: Seq<char>,
    pub kind: MessageType,
    pub actor: Seq<char>,
    pub body: Seq<char>,
}

impl EventView {
    /// The source is named, and only chat messages carry a body.
    pub open spec fn wf(self) -> bool {
        &&& self.source.len() > 0
        &&& self.kind != MessageType::MESSAGE ==> self.body.len() == 0
    }
}

impl View for ServerEventMessage {
    type V = EventView;

    open spec fn view(&self) -> EventView {
        EventView {
            source: self.source@,
            kind: self.message_type,
            actor: self.target@,
            body: self.content@,
        }
    }
}

impl Clone for ServerEventMessage {
    fn clone(&self) -> (r: Self)
        ensures
            r@ == self@,
    {
        ServerEventMessage {
            source: self.source.clone(),
            message_type: self.message_type.clone(),
            target: self.target.clone(),
            content: self.content.clone(),
        }
    }
}

impl ServerEventMessage {
    /// The event model's invariant, on the event's value.
    pub open spec fn wf(&self) -> bool {
        self@.wf()
    }

    /// A participant joined `source`.
    pub fn join(source: String, actor: String) -> (e: Self)
        ensures
            e@ == (EventView { source: source@, kind: MessageType::JOIN, actor: actor@, body: Seq::empty() }),
            source@.len() > 0 ==> e.wf(),
    {
        ServerEventMessage {
            source,
            message_type: MessageType::JOIN,
            target: actor,
            content: String::new(),
        }
    }

    /// A participant left `source`.
    pub fn part(source: String, actor: String) -> (e: Self)
        ensures
            e@ == (EventView { source: source@, kind: MessageType::PART, actor: actor@, body: Seq::empty() }),
            source@.len() > 0 ==> e.wf(),
    {
        ServerEventMessage {
            source,
            message_type: MessageType::PART,
            target: actor,
            content: String::new(),
        }
    }

    /// A participant of `source` said `body`.
    pub fn message(source: String, actor: String, body: String) -> (e: Self)
        ensures
            e@ == (EventView { source: source@, kind: MessageType::MESSAGE, actor: actor@, body: body@ }),
            source@.len() > 0 ==> e.wf(),
    {
        ServerEventMessage {
            source,
            message_type: MessageType::MESSAGE,
            target: actor,
            content: body,
        }
    }
}

/// The value of an optional event.
pub open spec fn event_view(e: Option<ServerEventMessage>) -> Option<EventView> {
    match e {
        Some(e) => Some(e@),
        None => None,
    }
}

} // verus!
