//! The dialect parser: three patterns, tried in a fixed order, that turn one
//! console line into an event.

use vstd::prelude::*;
use crate::event::{event_view, EventView, MessageType, ServerEventMessage};
use crate::pattern::{captures, captures_view, compile, pattern_captures, pattern_compiles, regex_source};
use crate::text::same_text;
use vstd::string::StringExecFns;

verus! {

/// What a search with one pattern found: nothing, or the text of each group.
pub type Found = Option<Seq<Option<Seq<char>>>>;

/// Which of a parser's three patterns was refused.
#[derive(Debug, Clone, Copy, PartialEq, Eq, Structural)]
pub enum PatternError {
    Join,
    Part,
    Message,
}

/// A search result covers `line` when the match is the whole line.
pub open spec fn covers(found: Found, line: Seq<char>) -> bool {
    found matches Some(groups) && groups.len() > 0 && groups[0] == Some(line)
}

/// The text of group `i`; empty where the pattern has no such group or the
/// group took no part in the match.
pub open spec fn group_text(found: Found, i: int) -> Seq<char> {
    match found {
        Some(groups) => if 0 <= i < groups.len() {
            match groups[i] {
                Some(text) => text,
                None => Seq::empty(),
            }
        } else {
            Seq::empty()
        },
        None => Seq::empty(),
    }
}

/// The event that one pattern's search result stands for: none unless the
/// match covers the line; else group 1 names the actor and, for a chat
/// message, group 2 is the body.
pub open spec fn event_from(kind: MessageType, found: Found, line: Seq<char>, source: Seq<char>) -> Option<
    EventView,
> {
    if covers(found, line) {
        Some(
            EventView {
                source,
                kind,
                actor: group_text(found, 1),
                body: if kind == MessageType::MESSAGE {
                    group_text(found, 2)
                } else {
                    Seq::empty()
                },
            },
        )
    } else {
        None
    }
}

/// The classification of a line from the three search results: the join
/// pattern is asked first, then the part pattern, then the message pattern,
/// and the first whose match covers the line decides.
pub open spec fn classify(join: Found, part: Found, message: Found, line: Seq<char>, source: Seq<char>) -> Option<
    EventView,
> {
    if covers(join, line) {
        event_from(MessageType::JOIN, join, line, source)
    } else if covers(part, line) {
        event_from(MessageType::PART, part, line, source)
    } else {
        event_from(MessageType::MESSAGE, message, line, source)
    }
}

/// The text of group `i` of a match, empty where there is none.
fn group(groups: &Vec<Option<String>>, i: usize) -> (text: String)
    ensures
        text@ == group_text(captures_view(Some(*groups)), i as int),
{
    if i < groups.len() {
        match &groups[i] {
            Some(t) => t.clone(),
            None => String::new(),
        }
    } else {
        String::new()
    }
}

/// Turns the result of searching `line` with the pattern for `kind` into the
/// event it stands for, if the match covers the whole line.
pub fn event_of(kind: MessageType, found: &Option<Vec<Option<String>>>, line: &str, source: &str) -> (e: Option<
    ServerEventMessage,
>)
    ensures
        event_view(e) == event_from(kind, captures_view(*found), line@, source@),
{
    match found {
        Some(groups) => {
            if groups.len() == 0 {
                return None;
            }
            match &groups[0] {
                Some(whole) => {
                    if !same_text(whole.as_str(), line) {
                        return None;
                    }
                },
                None => {
                    return None;
                },
            }
            let actor = group(groups, 1);
            let event = match kind {
                MessageType::JOIN => ServerEventMessage::join(source.to_owned(), actor),
                MessageType::PART => ServerEventMessage::part(source.to_owned(), actor),
                MessageType::MESSAGE => ServerEventMessage::message(
                    source.to_owned(),
                    actor,
                    group(groups, 2),
                ),
            };
            Some(event)
        },
        None => None,
    }
}

/// Three compiled patterns for one server's console format.
#[derive(Debug)]
pub struct Parser {
    join_re: regex::Regex,
    part_re: regex::Regex,
    message_re: regex::Regex,
}

/// The pattern as the parser compiles it: between an anchor at the start of
/// the text and an anchor at its end, so that it matches a line only as a
/// whole.
pub open spec fn anchored(pattern: Seq<char>) -> Seq<char> {
    "\\A(?:"@ + pattern + ")\\z"@
}

/// Whether a parser takes the pattern: it compiles as it is given, and it
/// compiles in its anchored form.
pub open spec fn accepted(pattern: Seq<char>) -> bool {
    pattern_compiles(pattern) && pattern_compiles(anchored(pattern))
}

/// What `Parser::new` owes for the patterns `join`, `part` and `message`: a
/// parser that holds the three in their anchored form, or the first of them
/// that is not accepted.
pub open spec fn built_from(
    r: Result<Parser, PatternError>,
    join: Seq<char>,
    part: Seq<char>,
    message: Seq<char>,
) -> bool {
    match r {
        Ok(parser) => {
            &&& accepted(join) && accepted(part) && accepted(message)
            &&& parser.join_regex() == anchored(join)
            &&& parser.part_regex() == anchored(part)
            &&& parser.message_regex() == anchored(message)
        },
        Err(PatternError::Join) => !accepted(join),
        Err(PatternError::Part) => accepted(join) && !accepted(part),
        Err(PatternError::Message) => accepted(join) && accepted(part) && !accepted(message),
    }
}

/// Compiles `pattern` in its anchored form, if it compiles as it is given.
fn compile_whole(pattern: &str) -> (r: Option<regex::Regex>)
    ensures
        r is Some <==> accepted(pattern@),
        r matches Some(re) ==> regex_source(re) == anchored(pattern@),
{
    if compile(pattern).is_err() {
        return None;
    }
    let mut whole = "\\A(?:".to_owned();
    whole.append(pattern);
    whole.append(")\\z");
    match compile(whole.as_str()) {
        Ok(re) => Some(re),
        Err(_) => None,
    }
}

impl Parser {
    /// The text that the join regex was compiled from.
    pub closed spec fn join_regex(&self) -> Seq<char> {
        regex_source(self.join_re)
    }

    /// The text that the part regex was compiled from.
    pub closed spec fn part_regex(&self) -> Seq<char> {
        regex_source(self.part_re)
    }

    /// The text that the message regex was compiled from.
    pub closed spec fn message_regex(&self) -> Seq<char> {
        regex_source(self.message_re)
    }

    /// What this parser makes of `line` coming from `source`.
    pub open spec fn classification(&self, line: Seq<char>, source: Seq<char>) -> Option<EventView> {
        classify(
            pattern_captures(self.join_regex(), line),
            pattern_captures(self.part_regex(), line),
            pattern_captures(self.message_regex(), line),
            line,
            source,
        )
    }

    /// Compiles the three patterns, in the order join, part, message, and
    /// stops at the first that is refused.
    ///
    /// A pattern is compiled between `\A(?:` and `)\z`: the parser asks
    /// whether the pattern can match the whole line, not whether the match
    /// that a search would prefer happens to be the whole line. A pattern
    /// must also compile as it is given, so that a malformed pattern is
    /// refused here and not mended by what is put around it. A pattern that
    /// compiles only by itself, as one that ends inside a comment of the
    /// verbose mode, is refused too.
    pub fn new(join_re: &str, part_re: &str, message_re: &str) -> (r: Result<Parser, PatternError>)
        ensures
            built_from(r, join_re@, part_re@, message_re@),
    {
        let join_re = match compile_whole(join_re) {
            Some(re) => re,
            None => {
                return Err(PatternError::Join);
            },
        };
        let part_re = match compile_whole(part_re) {
            Some(re) => re,
            None => {
                return Err(PatternError::Part);
            },
        };
        let message_re = match compile_whole(message_re) {
            Some(re) => re,
            None => {
                return Err(PatternError::Message);
            },
        };
        Ok(Parser { join_re, part_re, message_re })
    }

    /// Classifies one console line. The join pattern is tried first, then the
    /// part pattern, then the message pattern; a pattern counts only where it
    /// matches the whole line, which the anchors ask of the search and which
    /// is checked again on what the search found. A line that no pattern
    /// covers is no event.
    pub fn parse_message(&self, message: String, server: String) -> (r: Option<ServerEventMessage>)
        ensures
            event_view(r) == self.classification(message@, server@),
            r matches Some(e) ==> e.source@ == server@ && (server@.len() > 0 ==> e.wf()),
    {
        let line = message.as_str();
        let source = server.as_str();
        let joined = event_of(MessageType::JOIN, &captures(&self.join_re, line), line, source);
        if joined.is_some() {
            return joined;
        }
        let parted = event_of(MessageType::PART, &captures(&self.part_re, line), line, source);
        if parted.is_some() {
            return parted;
        }
        event_of(MessageType::MESSAGE, &captures(&self.message_re, line), line, source)
    }
}

/// The order join, part, message decides: a line that an earlier pattern
/// covers is classified by that pattern, whatever the later ones find, and a
/// line that no pattern covers is no event.
pub proof fn lemma_earlier_pattern_wins(
    join: Found,
    part: Found,
    message: Found,
    line: Seq<char>,
    source: Seq<char>,
)
    ensures
        covers(join, line) ==> classify(join, part, message, line, source) == event_from(
            MessageType::JOIN,
            join,
            line,
            source,
        ),
        !covers(join, line) && covers(part, line) ==> classify(join, part, message, line, source)
            == event_from(MessageType::PART, part, line, source),
        !covers(join, line) && !covers(part, line) ==> classify(join, part, message, line, source)
            == event_from(MessageType::MESSAGE, message, line, source),
        classify(join, part, message, line, source) is None <==> !covers(join, line) && !covers(
            part,
            line,
        ) && !covers(message, line),
        classify(join, part, message, line, source) matches Some(e) ==> {
            &&& e.source == source
            &&& e.kind == MessageType::JOIN <==> covers(join, line)
            &&& e.kind == MessageType::PART <==> !covers(join, line) && covers(part, line)
            &&& e.kind != MessageType::MESSAGE ==> e.body.len() == 0
        },
{
}

} // verus!
