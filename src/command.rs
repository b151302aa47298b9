use vstd::prelude::*;

verus! {

/// The kind of a node in the network.
#[derive(Clone, Copy, Debug, PartialEq, Eq, Structural)]
pub enum NodeKind {
    Client,
    Drone,
    Server,
}

/// The application-level request that a chat message carries.
#[derive(Clone, Debug, PartialEq, Eq)]
pub enum ChatRequest {
    /// Ask a server for the clients registered with it.
    ClientList,
    /// Register this node with a server.
    Register,
    /// Ask a server to forward a text to a client.
    SendMessage { from: u8, to: u8, message: String },
}

/// A message addressed from one node to another.
#[derive(Clone, Debug, PartialEq, Eq)]
pub struct Message {
    pub source: u8,
    pub destination: u8,
    pub session_id: u64,
    pub content: ChatRequest,
}

/// An operation that the worker accepts on the command queue.
#[derive(Clone, Debug, PartialEq, Eq)]
pub enum Command {
    /// Start a discovery sweep of the network.
    InitializeFlood,
    /// Publish the nodes found so far on the discovery result queue.
    GetEdgeNodesFromFlood,
    /// Deliver a message into the network.
    SendMessage(Message),
    /// Publish the messages received since the last fetch.
    GetUnreadMessagesFromServer,
}

/// What the worker publishes for one `GetEdgeNodesFromFlood`: each node it
/// knows of, with its kind, in the worker's order.
#[derive(Clone, Debug, PartialEq, Eq)]
pub struct DiscoveredNodes {
    pub nodes: Vec<(u8, NodeKind)>,
}

/// What the worker publishes for one `GetUnreadMessagesFromServer`: the
/// messages gathered since the previous fetch, oldest first; possibly none.
#[derive(Clone, Debug, PartialEq, Eq)]
pub struct UnreadMessages {
    pub messages: Vec<String>,
}

/// Does `m` go from `source` to `destination`, outside any session, carrying `content`?
pub open spec fn addressed(m: Message, source: u8, destination: u8) -> bool {
    &&& m.source == source
    &&& m.destination == destination
    &&& m.session_id == 0
}

/// A request to register the node `node_id` with the node `target`.
pub fn register_message(node_id: u8, target: u8) -> (m: Message)
    ensures
        addressed(m, node_id, target),
        m.content is Register,
{
    Message { source: node_id, destination: target, session_id: 0, content: ChatRequest::Register }
}

/// A request to the server `server_id` to forward `text` from `node_id` to
/// the client `client_id`.
pub fn chat_message(node_id: u8, server_id: u8, client_id: u8, text: String) -> (m: Message)
    ensures
        addressed(m, node_id, server_id),
        m.content matches ChatRequest::SendMessage { from, to, message }
            && from == node_id && to == client_id && message@ == text@,
{
    Message {
        source: node_id,
        destination: server_id,
        session_id: 0,
        content: ChatRequest::SendMessage { from: node_id, to: client_id, message: text },
    }
}

/// A request to the server `server_id` for the clients registered with it.
pub fn client_list_message(node_id: u8, server_id: u8) -> (m: Message)
    ensures
        addressed(m, node_id, server_id),
        m.content is ClientList,
{
    Message {
        source: node_id,
        destination: server_id,
        session_id: 0,
        content: ChatRequest::ClientList,
    }
}

} // verus!
