use chat_relay::servers::{authorization, endpoint, Resp, ServerInfo, ServerObject};

fn object(uuid: &str, name: &str) -> ServerObject {
    ServerObject { attributes: ServerInfo { uuid: uuid.to_string(), name: name.to_string() } }
}

#[test]
fn the_servers_come_out_in_the_order_of_the_answer() {
    let resp = Resp {
        data: vec![object("u-1", "ServerA"), object("u-2", "Cobblemon"), object("u-3", "ServerA")],
    };
    let servers = resp.into_servers();
    assert_eq!(servers.len(), 3);
    assert_eq!(servers[0].uuid, "u-1");
    assert_eq!(servers[0].name, "ServerA");
    assert_eq!(servers[1].uuid, "u-2");
    assert_eq!(servers[1].name, "Cobblemon");
    assert_eq!(servers[2].uuid, "u-3");
    assert_eq!(servers[2].name, "ServerA");
}

#[test]
fn an_empty_answer_holds_no_servers() {
    let resp = Resp { data: vec![] };
    assert!(resp.into_servers().is_empty());
}

#[test]
fn the_endpoint_is_below_the_panel_address() {
    assert_eq!(endpoint("https://panel.example"), "https://panel.example/api/application/servers");
    assert_eq!(endpoint(""), "/api/application/servers");
}

#[test]
fn the_credential_is_a_bearer_token() {
    assert_eq!(authorization("abc123"), "Bearer abc123");
    assert_eq!(authorization(""), "Bearer ");
}
