//! The chat-channel side of the relay: turning chat messages into events,
//! and events of the game servers into lines for the channel.

use vstd::prelude::*;
use vstd::string::StringExecFns;
use crate::event::{event_view, EventView, MessageType, ServerEventMessage};
use crate::sanitize::{flatten, flattened, is_plain, lemma_flattened_is_plain, lemma_plain_concat};
use crate::text::{same_text, text_view};

verus! {

/// The identity under which the chat channel publishes its events.
pub const CHAT_SOURCE: &'static str = "Discord";

/// The line that the channel shows for an event. Names and message are put
/// on one line first: a space stands for every control character in them,
/// so that one event is one line of the channel.
pub open spec fn line_of(e: EventView) -> Seq<char> {
    match e.kind {
        MessageType::JOIN => "➡ "@ + flattened(e.actor) + " has joined "@ + flattened(e.source),
        MessageType::PART => "⬅ "@ + flattened(e.actor) + " has left "@ + flattened(e.source),
        MessageType::MESSAGE => "["@ + flattened(e.source) + "] <"@ + flattened(e.actor) + "> "@
            + flattened(e.body),
    }
}

/// What the channel posts for an event: nothing for an event of its own, the
/// line for any other.
pub open spec fn egress_of(e: EventView) -> Option<Seq<char>> {
    if e.source == CHAT_SOURCE@ {
        None
    } else {
        Some(line_of(e))
    }
}

/// The event that a chat message stands for: a message seen in the watched
/// channel and not written by the relay itself is a chat message of its
/// author; any other is no event.
pub open spec fn ingest_of(
    channel: u64,
    watched: u64,
    own: bool,
    author: Seq<char>,
    content: Seq<char>,
) -> Option<EventView> {
    if channel == watched && !own {
        Some(
            EventView {
                source: CHAT_SOURCE@,
                kind: MessageType::MESSAGE,
                actor: author,
                body: content,
            },
        )
    } else {
        None
    }
}

/// The line that the channel shows for `event`: one line, whatever the
/// event says.
pub fn line(event: &ServerEventMessage) -> (t: String)
    ensures
        t@ == line_of(event@),
        is_plain(t@),
{
    proof {
        lemma_line_is_one_line(event@);
    }
    let source = flatten(event.source.as_str());
    let actor = flatten(event.target.as_str());
    match event.message_type {
        MessageType::JOIN => {
            let mut t = "➡ ".to_owned();
            t.append(actor.as_str());
            t.append(" has joined ");
            t.append(source.as_str());
            t
        },
        MessageType::PART => {
            let mut t = "⬅ ".to_owned();
            t.append(actor.as_str());
            t.append(" has left ");
            t.append(source.as_str());
            t
        },
        MessageType::MESSAGE => {
            let mut t = "[".to_owned();
            t.append(source.as_str());
            t.append("] <");
            t.append(actor.as_str());
            t.append("> ");
            t.append(flatten(event.content.as_str()).as_str());
            t
        },
    }
}

/// One step of the channel's egress: what to post for an event taken from
/// the bus. An event that came from the channel is never posted back to it.
pub fn egress(event: &ServerEventMessage) -> (out: Option<String>)
    ensures
        text_view(out) == egress_of(event@),
        event@.source == CHAT_SOURCE@ ==> out is None,
{
    if same_text(event.source.as_str(), CHAT_SOURCE) {
        None
    } else {
        Some(line(event))
    }
}

/// One step of the channel's ingest: the event, if any, for a chat message
/// seen in `channel`, where `watched` is the relayed channel and `own` says
/// whether the relay wrote the message itself.
pub fn ingest(channel: u64, watched: u64, own: bool, author: String, content: String) -> (event: Option<
    ServerEventMessage,
>)
    ensures
        event_view(event) == ingest_of(channel, watched, own, author@, content@),
        event matches Some(e) ==> e.wf(),
{
    if channel == watched && !own {
        let event = ServerEventMessage::message(CHAT_SOURCE.to_owned(), author, content);
        proof {
            reveal_strlit("Discord");
        }
        Some(event)
    } else {
        None
    }
}

/// The line for an event is one line: it holds no control character, so no
/// line break, whatever the event says.
pub proof fn lemma_line_is_one_line(e: EventView)
    ensures
        is_plain(line_of(e)),
{
    reveal_strlit("➡ ");
    reveal_strlit("⬅ ");
    reveal_strlit(" has joined ");
    reveal_strlit(" has left ");
    reveal_strlit("[");
    reveal_strlit("] <");
    reveal_strlit("> ");
    lemma_flattened_is_plain(e.source);
    lemma_flattened_is_plain(e.actor);
    lemma_flattened_is_plain(e.body);
    let source = flattened(e.source);
    let actor = flattened(e.actor);
    let body = flattened(e.body);
    match e.kind {
        MessageType::JOIN => {
            lemma_plain_concat("➡ "@, actor);
            lemma_plain_concat("➡ "@ + actor, " has joined "@);
            lemma_plain_concat("➡ "@ + actor + " has joined "@, source);
        },
        MessageType::PART => {
            lemma_plain_concat("⬅ "@, actor);
            lemma_plain_concat("⬅ "@ + actor, " has left "@);
            lemma_plain_concat("⬅ "@ + actor + " has left "@, source);
        },
        MessageType::MESSAGE => {
            lemma_plain_concat("["@, source);
            lemma_plain_concat("["@ + source, "] <"@);
            lemma_plain_concat("["@ + source + "] <"@, actor);
            lemma_plain_concat("["@ + source + "] <"@ + actor, "> "@);
            lemma_plain_concat("["@ + source + "] <"@ + actor + "> "@, body);
        },
    }
}

} // verus!
