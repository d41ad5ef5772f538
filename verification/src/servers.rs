//! Server discovery: the shape of the panel's answer and the list of servers
//! it holds.

use vstd::prelude::*;
use vstd::string::StringExecFns;

verus! {

/// A game server as the panel describes it.
#[derive(Debug)]
pub struct ServerInfo {
    /// The identifier of the server's container.
    pub uuid: String,
    /// The server's display name, under which it takes part in the relay.
    pub name: String,
}

/// One entry of the panel's answer.
#[derive(Debug)]
pub struct ServerObject {
    pub attributes: ServerInfo,
}

/// The panel's answer to the request for all servers.
#[derive(Debug)]
pub struct Resp {
    pub data: Vec<ServerObject>,
}

/// The mathematical value of a server description.
pub struct ServerView {
    pub uuid: Seq<char>,
    pub name: Seq<char>,
}

impl View for ServerInfo {
    type V = ServerView;

    open spec fn view(&self) -> ServerView {
        ServerView { uuid: self.uuid@, name: self.name@ }
    }
}

impl View for ServerObject {
    type V = ServerView;

    open spec fn view(&self) -> ServerView {
        self.attributes@
    }
}

impl View for Resp {
    type V = Seq<ServerView>;

    open spec fn view(&self) -> Seq<ServerView> {
        self.data@.map_values(|o: ServerObject| o@)
    }
}

/// The value of a list of servers.
pub open spec fn servers_view(servers: Seq<ServerInfo>) -> Seq<ServerView> {
    servers.map_values(|s: ServerInfo| s@)
}

impl Resp {
    /// The servers of the answer, in the order in which the panel lists them.
    pub fn into_servers(self) -> (servers: Vec<ServerInfo>)
        ensures
            servers_view(servers@) == self@,
    {
        let ghost all = self.data@;
        let mut servers: Vec<ServerInfo> = Vec::new();
        for object in it: self.data.into_iter()
            invariant
                it.seq() == all,
                servers@.len() == it.index(),
                forall|i: int| 0 <= i < servers@.len() ==> (#[trigger] servers@[i])@ == all[i]@,
        {
            servers.push(object.attributes);
        }
        servers
    }
}

/// The address of the panel's server list, for the panel at `api`.
pub open spec fn endpoint_of(api: Seq<char>) -> Seq<char> {
    api + "/api/application/servers"@
}

/// The credential header that the panel asks for, for the key `key`.
pub open spec fn authorization_of(key: Seq<char>) -> Seq<char> {
    "Bearer "@ + key
}

/// The address of the panel's server list.
pub fn endpoint(api: &str) -> (url: String)
    ensures
        url@ == endpoint_of(api@),
{
    let mut url = api.to_owned();
    url.append("/api/application/servers");
    url
}

/// The value of the credential header.
pub fn authorization(key: &str) -> (header: String)
    ensures
        header@ == authorization_of(key@),
{
    let mut header = "Bearer ".to_owned();
    header.append(key);
    header
}

} // verus!
