use chat_relay::chat;
use chat_relay::console;
use chat_relay::event::{MessageType, ServerEventMessage};
use chat_relay::sanitize::{control, escape, flatten};

fn joined() -> ServerEventMessage {
    ServerEventMessage::join("ServerA".to_string(), "Alice".to_string())
}

fn parted() -> ServerEventMessage {
    ServerEventMessage::part("ServerA".to_string(), "Alice".to_string())
}

fn said() -> ServerEventMessage {
    ServerEventMessage::message("ServerA".to_string(), "Alice".to_string(), "hello".to_string())
}

#[test]
fn console_announcements() {
    assert_eq!(console::announcement(&joined()), "ServerA announces: Alice has joined the server");
    assert_eq!(console::announcement(&parted()), "ServerA announces: Alice has left the server");
    assert_eq!(console::announcement(&said()), "ServerA announces: Alice: hello");
}

#[test]
fn console_label_and_text() {
    assert_eq!(console::label(&said()), "ServerA announces: ");
    assert_eq!(console::text(&joined()), "Alice has joined the server");
    assert_eq!(console::text(&parted()), "Alice has left the server");
    assert_eq!(console::text(&said()), "Alice: hello");
}

#[test]
fn console_commands() {
    assert_eq!(
        console::command(&joined()),
        "tellraw @a [{\"text\":\"ServerA announces: \",\"color\":\"red\"},{\"text\":\"Alice has joined the server\",\"color\":\"white\"}]\n"
    );
    assert_eq!(
        console::command(&parted()),
        "tellraw @a [{\"text\":\"ServerA announces: \",\"color\":\"red\"},{\"text\":\"Alice has left the server\",\"color\":\"white\"}]\n"
    );
    assert_eq!(
        console::command(&said()),
        "tellraw @a [{\"text\":\"ServerA announces: \",\"color\":\"red\"},{\"text\":\"Alice: hello\",\"color\":\"white\"}]\n"
    );
}

#[test]
fn chat_lines() {
    assert_eq!(chat::line(&joined()), "\u{27a1} Alice has joined ServerA");
    assert_eq!(chat::line(&parted()), "\u{2b05} Alice has left ServerA");
    assert_eq!(chat::line(&said()), "[ServerA] <Alice> hello");
}

#[test]
fn a_server_never_writes_its_own_events() {
    assert_eq!(console::egress(&joined(), "ServerA"), None);
    assert_eq!(console::egress(&parted(), "ServerA"), None);
    assert_eq!(console::egress(&said(), "ServerA"), None);
}

#[test]
fn a_server_writes_the_events_of_the_others() {
    assert_eq!(console::egress(&said(), "ServerB"), Some(console::command(&said())));
    assert_eq!(console::egress(&joined(), "servera"), Some(console::command(&joined())));
    assert_eq!(console::egress(&parted(), ""), Some(console::command(&parted())));
    let from_chat =
        ServerEventMessage::message("Discord".to_string(), "carol".to_string(), "hi".to_string());
    assert_eq!(
        console::egress(&from_chat, "ServerA"),
        Some(
            "tellraw @a [{\"text\":\"Discord announces: \",\"color\":\"red\"},{\"text\":\"carol: hi\",\"color\":\"white\"}]\n"
                .to_string()
        )
    );
}

#[test]
fn the_channel_never_posts_its_own_events() {
    let own =
        ServerEventMessage::message("Discord".to_string(), "carol".to_string(), "hi".to_string());
    assert_eq!(chat::egress(&own), None);
    assert_eq!(chat::CHAT_SOURCE, "Discord");
}

#[test]
fn the_channel_posts_the_events_of_the_servers() {
    assert_eq!(chat::egress(&said()), Some("[ServerA] <Alice> hello".to_string()));
    assert_eq!(chat::egress(&joined()), Some("\u{27a1} Alice has joined ServerA".to_string()));
    let near =
        ServerEventMessage::message("discord".to_string(), "carol".to_string(), "hi".to_string());
    assert_eq!(chat::egress(&near), Some("[discord] <carol> hi".to_string()));
}

#[test]
fn a_chat_message_in_the_watched_channel_is_an_event() {
    let event = chat::ingest(42, 42, false, "carol".to_string(), "hi all".to_string()).unwrap();
    assert_eq!(event.source, "Discord");
    assert_eq!(event.message_type, MessageType::MESSAGE);
    assert_eq!(event.target, "carol");
    assert_eq!(event.content, "hi all");
}

#[test]
fn other_channels_and_own_messages_are_no_events() {
    assert!(chat::ingest(41, 42, false, "carol".to_string(), "hi".to_string()).is_none());
    assert!(chat::ingest(42, 42, true, "relay".to_string(), "hi".to_string()).is_none());
    assert!(chat::ingest(41, 42, true, "relay".to_string(), "hi".to_string()).is_none());
}

#[test]
fn the_announcement_keeps_the_text_as_it_is() {
    let event = ServerEventMessage::message(
        "S".to_string(),
        "a\"b".to_string(),
        "x\\y\u{1b}[m".to_string(),
    );
    assert_eq!(console::announcement(&event), "S announces: a\"b: x\\y\u{1b}[m");
}

#[test]
fn a_line_break_in_a_message_does_not_end_the_command() {
    let event = ServerEventMessage::message(
        "Discord".to_string(),
        "bob".to_string(),
        "hi\nstop".to_string(),
    );
    let command = console::egress(&event, "ServerB").unwrap();
    assert_eq!(
        command,
        "tellraw @a [{\"text\":\"Discord announces: \",\"color\":\"red\"},{\"text\":\"bob: hi\\u000astop\",\"color\":\"white\"}]\n"
    );
    assert_eq!(command.matches('\n').count(), 1);
    assert!(command.ends_with('\n'));
    assert_eq!(command.lines().count(), 1);
}

#[test]
fn a_command_escapes_quotation_marks_and_backslashes() {
    let event = ServerEventMessage::message(
        "S\"1".to_string(),
        "a\"b".to_string(),
        "x\\y \"}]\r\nop me".to_string(),
    );
    assert_eq!(
        console::command(&event),
        "tellraw @a [{\"text\":\"S\\\"1 announces: \",\"color\":\"red\"},{\"text\":\"a\\\"b: x\\\\y \\\"}]\\u000d\\u000aop me\",\"color\":\"white\"}]\n"
    );
}

#[test]
fn a_command_escapes_every_control_character() {
    let event = ServerEventMessage::join("S".to_string(), "\u{0}\t\u{1b}\u{1f}\u{7f}\u{85}\u{9f}".to_string());
    assert_eq!(
        console::text(&event),
        "\u{0}\t\u{1b}\u{1f}\u{7f}\u{85}\u{9f} has joined the server"
    );
    assert_eq!(
        console::command(&event),
        "tellraw @a [{\"text\":\"S announces: \",\"color\":\"red\"},{\"text\":\"\\u0000\\u0009\\u001b\\u001f\\u007f\\u0085\\u009f has joined the server\",\"color\":\"white\"}]\n"
    );
}

#[test]
fn escape_leaves_other_text_alone() {
    assert_eq!(escape(""), "");
    assert_eq!(escape("Alice: hello"), "Alice: hello");
    assert_eq!(escape("\u{a0}\u{e9}\u{27a1}\u{2028} ~'/"), "\u{a0}\u{e9}\u{27a1}\u{2028} ~'/");
    assert_eq!(escape("\""), "\\\"");
    assert_eq!(escape("\\"), "\\\\");
    assert_eq!(escape("\n"), "\\u000a");
    assert_eq!(escape("a\"b\\c\nd"), "a\\\"b\\\\c\\u000ad");
    assert_eq!(escape("\\n"), "\\\\n");
}

#[test]
fn control_characters_are_the_two_low_ranges() {
    let mut n: u32 = 0;
    while n <= 0x3100 {
        if let Some(c) = char::from_u32(n) {
            assert_eq!(control(c), c.is_control());
        }
        n += 1;
    }
    assert!(!control('\u{10ffff}'));
}

#[test]
fn a_chat_line_stays_on_one_line() {
    let event = ServerEventMessage::message(
        "S\r1".to_string(),
        "a\"b\n".to_string(),
        "x\\y\u{1b}[m\n@here\t!".to_string(),
    );
    assert_eq!(chat::line(&event), "[S 1] <a\"b > x\\y [m @here !");
    let event = ServerEventMessage::join("S\n".to_string(), "a\u{85}b".to_string());
    assert_eq!(chat::line(&event), "\u{27a1} a b has joined S ");
    let event = ServerEventMessage::part("S".to_string(), "\u{7f}".to_string());
    assert_eq!(chat::egress(&event), Some("\u{2b05}   has left S".to_string()));
}

#[test]
fn flatten_leaves_other_text_alone() {
    assert_eq!(flatten(""), "");
    assert_eq!(flatten("[ServerA] <Alice> hello"), "[ServerA] <Alice> hello");
    assert_eq!(flatten("\u{a0}\u{e9}\u{27a1}\u{2028}\"\\"), "\u{a0}\u{e9}\u{27a1}\u{2028}\"\\");
    assert_eq!(flatten("\n"), " ");
    assert_eq!(flatten("a\r\nb"), "a  b");
}
