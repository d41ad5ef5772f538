//! The game-server side of the relay: turning console output into events,
//! and events of other endpoints into console commands.

use vstd::prelude::*;
use vstd::string::StringExecFns;
use crate::event::{event_view, EventView, MessageType, ServerEventMessage};
use crate::parsers::Parser;
use crate::sanitize::{
    escape, escaped, is_plain, lemma_escaped_is_plain, lemma_escaped_is_well_escaped,
    lemma_plain_concat, well_escaped,
};
use crate::text::{same_text, text_view, trim, trimmed};

verus! {

/// The label that names the endpoint an announcement comes from.
pub open spec fn label_of(e: EventView) -> Seq<char> {
    e.source + " announces: "@
}

/// What an announcement says about the event.
pub open spec fn text_of(e: EventView) -> Seq<char> {
    match e.kind {
        MessageType::JOIN => e.actor + " has joined the server"@,
        MessageType::PART => e.actor + " has left the server"@,
        MessageType::MESSAGE => e.actor + ": "@ + e.body,
    }
}

/// The announcement of an event as the players read it.
pub open spec fn announcement_of(e: EventView) -> Seq<char> {
    label_of(e) + text_of(e)
}

/// How the console command begins, up to the label.
pub open spec fn command_head() -> Seq<char> {
    "tellraw @a [{\"text\":\""@
}

/// What stands between the label and the text in the console command.
pub open spec fn command_mid() -> Seq<char> {
    "\",\"color\":\"red\"},{\"text\":\""@
}

/// How the console command ends, line feed included.
pub open spec fn command_tail() -> Seq<char> {
    "\",\"color\":\"white\"}]\n"@
}

/// The console command that broadcasts the announcement of an event to all
/// players, the label in red and the text in white. Label and text are
/// written as JSON strings hold them, so that nothing in a name or a message
/// can end the value it stands in or the command itself.
pub open spec fn command_of(e: EventView) -> Seq<char> {
    command_head() + escaped(label_of(e)) + command_mid() + escaped(text_of(e)) + command_tail()
}

/// What a server called `identity` writes to its console for an event:
/// nothing for an event of its own, the broadcast command for any other.
pub open spec fn egress_of(e: EventView, identity: Seq<char>) -> Option<Seq<char>> {
    if e.source == identity {
        None
    } else {
        Some(command_of(e))
    }
}

/// The label of the announcement of `event`.
pub fn label(event: &ServerEventMessage) -> (t: String)
    ensures
        t@ == label_of(event@),
{
    let mut t = event.source.clone();
    t.append(" announces: ");
    t
}

/// The text of the announcement of `event`.
pub fn text(event: &ServerEventMessage) -> (t: String)
    ensures
        t@ == text_of(event@),
{
    let mut t = event.target.clone();
    match event.message_type {
        MessageType::JOIN => {
            t.append(" has joined the server");
        },
        MessageType::PART => {
            t.append(" has left the server");
        },
        MessageType::MESSAGE => {
            t.append(": ");
            t.append(event.content.as_str());
        },
    }
    t
}

/// The announcement of `event` as the players read it.
pub fn announcement(event: &ServerEventMessage) -> (t: String)
    ensures
        t@ == announcement_of(event@),
{
    let mut t = label(event);
    t.append(text(event).as_str());
    t
}

/// The console command that broadcasts the announcement of `event`: one
/// line, whatever the event says.
pub fn command(event: &ServerEventMessage) -> (t: String)
    ensures
        t@ == command_of(event@),
        t@.len() > 0 && t@.last() == '\n',
        is_plain(t@.drop_last()),
{
    proof {
        lemma_command_is_one_line(event@);
    }
    let mut t = "tellraw @a [{\"text\":\"".to_owned();
    t.append(escape(label(event).as_str()).as_str());
    t.append("\",\"color\":\"red\"},{\"text\":\"");
    t.append(escape(text(event).as_str()).as_str());
    t.append("\",\"color\":\"white\"}]\n");
    t
}

/// One step of a server's egress: what to write to the console of the server
/// called `identity` for an event taken from the bus. An event that the
/// server itself produced is never written back to it.
pub fn egress(event: &ServerEventMessage, identity: &str) -> (out: Option<String>)
    ensures
        text_view(out) == egress_of(event@, identity@),
        event@.source == identity@ ==> out is None,
{
    if same_text(event.source.as_str(), identity) {
        None
    } else {
        Some(command(event))
    }
}

/// One step of a server's ingest: the event, if any, that one record of
/// console output stands for. White space around the record is not part of
/// the line.
pub fn ingest(parser: &Parser, record: &str, identity: &str) -> (event: Option<ServerEventMessage>)
    ensures
        event_view(event) == parser.classification(trimmed(record@), identity@),
        event matches Some(e) ==> e.source@ == identity@ && (identity@.len() > 0 ==> e.wf()),
{
    parser.parse_message(trim(record).to_owned(), identity.to_owned())
}

/// The console command is one line: it ends in a line feed and holds no
/// other control character, whatever the event says. Its two values can
/// stand inside a JSON string: no quotation mark in them ends the value.
pub proof fn lemma_command_is_one_line(e: EventView)
    ensures
        command_of(e).len() > 0,
        command_of(e).last() == '\n',
        is_plain(command_of(e).drop_last()),
        well_escaped(escaped(label_of(e))),
        well_escaped(escaped(text_of(e))),
{
    let head = command_head();
    let label = escaped(label_of(e));
    let mid = command_mid();
    let text = escaped(text_of(e));
    let tail = command_tail();
    reveal_strlit("tellraw @a [{\"text\":\"");
    reveal_strlit("\",\"color\":\"red\"},{\"text\":\"");
    reveal_strlit("\",\"color\":\"white\"}]\n");
    lemma_escaped_is_well_escaped(label_of(e));
    lemma_escaped_is_well_escaped(text_of(e));
    lemma_escaped_is_plain(label_of(e));
    lemma_escaped_is_plain(text_of(e));
    lemma_plain_concat(head, label);
    lemma_plain_concat(head + label, mid);
    lemma_plain_concat(head + label + mid, text);
    lemma_plain_concat(head + label + mid + text, tail.drop_last());
}

} // verus!
