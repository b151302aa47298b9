use vstd::prelude::*;

use crate::command::{DiscoveredNodes, NodeKind, UnreadMessages};
use crate::queue::Fetched;

verus! {

/// The HTTP status of a reply.
#[derive(Clone, Copy, Debug, PartialEq, Eq, Structural)]
pub enum Status {
    Success,
    NoContent,
    ServerError,
}

impl Status {
    pub open spec fn spec_code(self) -> u16 {
        match self {
            Status::Success => 200,
            Status::NoContent => 204,
            Status::ServerError => 500,
        }
    }

    /// The numeric HTTP status code.
    pub fn code(&self) -> (c: u16)
        ensures
            c == self.spec_code(),
    {
        match self {
            Status::Success => 200,
            Status::NoContent => 204,
            Status::ServerError => 500,
        }
    }
}

/// A fixed explanation sent as the body of some replies.
#[derive(Clone, Copy, Debug, PartialEq, Eq, Structural)]
pub enum Notice {
    /// The discovery sweep could not be asked for.
    FloodNotSent,
    /// The discovered nodes could not be asked for.
    NodesNotRequested,
    /// The result queue closed before an answer came.
    NoAnswer,
    /// The unread messages could not be asked for.
    BackendUnreachable,
    /// Nothing new has arrived.
    NoNewMessages,
}

/// The body of a reply.
#[derive(Clone, Debug, PartialEq, Eq)]
pub enum Body {
    Empty,
    Notice(Notice),
    /// A JSON array of node identifiers.
    NodeIds(Vec<u8>),
    /// A JSON array of messages.
    Messages(Vec<String>),
}

/// What a handler answers.
#[derive(Clone, Debug, PartialEq, Eq)]
pub struct Reply {
    pub status: Status,
    pub body: Body,
}

/// The identifiers of the server nodes in `nodes`, in the order they appear.
pub open spec fn servers_of(nodes: Seq<(u8, NodeKind)>) -> Seq<u8> {
    nodes.filter_map(|p: (u8, NodeKind)| if p.1 == NodeKind::Server { Some(p.0) } else { None })
}

/// Keeps the identifiers of the nodes of kind `Server`, in order.
pub fn server_ids(nodes: &Vec<(u8, NodeKind)>) -> (ids: Vec<u8>)
    ensures
        ids@ == servers_of(nodes@),
{
    let mut ids: Vec<u8> = Vec::new();
    let mut i: usize = 0;
    while i < nodes.len()
        invariant
            i <= nodes@.len(),
            ids@ == servers_of(nodes@.subrange(0, i as int)),
        decreases nodes@.len() - i,
    {
        let node = nodes[i];
        proof {
            assert(nodes@.subrange(0, i + 1).drop_last() =~= nodes@.subrange(0, i as int));
        }
        if node.1 == NodeKind::Server {
            ids.push(node.0);
        }
        i = i + 1;
    }
    assert(nodes@.subrange(0, nodes@.len() as int) =~= nodes@);
    ids
}

/// `r` has status `s` and an empty body.
pub open spec fn plain(r: Reply, s: Status) -> bool {
    r.status == s && r.body is Empty
}

/// `r` has status `s` and the notice `n` as its body.
pub open spec fn noticed(r: Reply, s: Status, n: Notice) -> bool {
    r.status == s && r.body == Body::Notice(n)
}

/// The reply to a forwarded command: success when it was enqueued, a server
/// error when the worker's end of the command queue is gone.
pub open spec fn dispatch_answer(r: Reply, sent: bool) -> bool {
    if sent {
        plain(r, Status::Success)
    } else {
        plain(r, Status::ServerError)
    }
}

/// The reply of the discovery flow to what its final wait brought: the
/// server identifiers, or a server error when the result queue closed.
pub open spec fn flood_answer(r: Reply, answer: Option<DiscoveredNodes>) -> bool {
    match answer {
        Some(d) => r.status == Status::Success && (r.body matches Body::NodeIds(ids) && ids@
            == servers_of(d.nodes@)),
        None => noticed(r, Status::ServerError, Notice::NoAnswer),
    }
}

/// The reply of the unread-message fetch to how its bounded wait ended: the
/// messages when some arrived; "no content" when none did, when the time ran
/// out, or when the queue closed.
pub open spec fn messages_answer(r: Reply, fetched: Fetched<UnreadMessages>) -> bool {
    match fetched {
        Fetched::Arrived(u) if u.messages@.len() > 0 => r.status == Status::Success
            && (r.body matches Body::Messages(m) && m@ == u.messages@),
        _ => noticed(r, Status::NoContent, Notice::NoNewMessages),
    }
}

/// The reply to a forwarded command, given whether it was enqueued.
pub fn dispatch_reply(sent: bool) -> (r: Reply)
    ensures
        dispatch_answer(r, sent),
{
    if sent {
        Reply { status: Status::Success, body: Body::Empty }
    } else {
        Reply { status: Status::ServerError, body: Body::Empty }
    }
}

/// The reply of the discovery flow, given what its final wait brought.
pub fn flood_reply(answer: Option<DiscoveredNodes>) -> (r: Reply)
    ensures
        flood_answer(r, answer),
{
    match answer {
        Some(d) => Reply { status: Status::Success, body: Body::NodeIds(server_ids(&d.nodes)) },
        None => Reply { status: Status::ServerError, body: Body::Notice(Notice::NoAnswer) },
    }
}

/// The reply of the unread-message fetch, given how its bounded wait ended.
pub fn messages_reply(fetched: Fetched<UnreadMessages>) -> (r: Reply)
    ensures
        messages_answer(r, fetched),
{
    match fetched {
        Fetched::Arrived(u) => {
            if u.messages.len() == 0 {
                Reply { status: Status::NoContent, body: Body::Notice(Notice::NoNewMessages) }
            } else {
                Reply { status: Status::Success, body: Body::Messages(u.messages) }
            }
        },
        _ => Reply { status: Status::NoContent, body: Body::Notice(Notice::NoNewMessages) },
    }
}

} // verus!
