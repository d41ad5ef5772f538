use chat_relay::bus::{RelayBus, BACKLOG};
use chat_relay::chat;
use chat_relay::console;
use chat_relay::dialects::Dialect;
use chat_relay::event::MessageType;
use chat_relay::registry::Registry;

#[test]
fn a_message_reaches_every_endpoint_but_its_own() {
    let registry = Registry::standard();
    assert_eq!(registry.dialect("ServerA"), Dialect::Vanilla);
    assert_eq!(registry.dialect("Resonant Rise 3"), Dialect::Rr3);
    let parser_a = registry.resolve("ServerA").unwrap();
    let _parser_b = registry.resolve("Resonant Rise 3").unwrap();

    let mut bus = RelayBus::new(BACKLOG);
    let server_a = bus.subscribe();
    let server_b = bus.subscribe();
    let channel = bus.subscribe();

    let record = "[12:00:00] [Server thread/INFO]: <Alice> hello\r\n";
    let event = console::ingest(&parser_a, record, "ServerA").unwrap();
    assert_eq!(event.source, "ServerA");
    assert_eq!(event.message_type, MessageType::MESSAGE);
    assert_eq!(event.target, "Alice");
    assert_eq!(event.content, "hello");
    bus.publish(event);

    let at_b = bus.receive(server_b).unwrap();
    let command = console::egress(&at_b, "Resonant Rise 3").unwrap();
    assert!(command.starts_with("tellraw @a "));
    assert!(command.contains("Alice"));
    assert!(command.contains("hello"));
    assert_eq!(
        command,
        "tellraw @a [{\"text\":\"ServerA announces: \",\"color\":\"red\"},{\"text\":\"Alice: hello\",\"color\":\"white\"}]\n"
    );

    let at_channel = bus.receive(channel).unwrap();
    assert_eq!(chat::egress(&at_channel), Some("[ServerA] <Alice> hello".to_string()));

    let at_a = bus.receive(server_a).unwrap();
    assert_eq!(console::egress(&at_a, "ServerA"), None);

    assert!(bus.receive(server_a).is_none());
    assert!(bus.receive(server_b).is_none());
    assert!(bus.receive(channel).is_none());
}

#[test]
fn a_chat_message_reaches_the_servers_and_not_the_channel() {
    let mut bus = RelayBus::new(BACKLOG);
    let server = bus.subscribe();
    let channel = bus.subscribe();
    let event = chat::ingest(7, 7, false, "carol".to_string(), "hi".to_string()).unwrap();
    bus.publish(event);
    let at_server = bus.receive(server).unwrap();
    assert_eq!(
        console::egress(&at_server, "ServerA"),
        Some(
            "tellraw @a [{\"text\":\"Discord announces: \",\"color\":\"red\"},{\"text\":\"carol: hi\",\"color\":\"white\"}]\n"
                .to_string()
        )
    );
    let at_channel = bus.receive(channel).unwrap();
    assert_eq!(chat::egress(&at_channel), None);
}

#[test]
fn console_noise_is_dropped_at_ingest() {
    let parser = Registry::standard().resolve("ServerA").unwrap();
    assert!(console::ingest(&parser, "[12:00:00] [Server thread/INFO]: Saving chunks\n", "ServerA")
        .is_none());
    assert!(console::ingest(&parser, "\n", "ServerA").is_none());
    let event = console::ingest(
        &parser,
        "  [12:00:00] [Server thread/INFO]: Alice joined the game \n",
        "ServerA",
    )
    .unwrap();
    assert_eq!(event.message_type, MessageType::JOIN);
    assert_eq!(event.target, "Alice");
    assert_eq!(event.content, "");
}
