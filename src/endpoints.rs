//! The handlers' side of the gateway: each one enqueues commands for the
//! worker and, for discovery and unread messages, waits on a result queue.
use vstd::prelude::*;

use crossbeam_channel::{Receiver, Sender};

use crate::command::{
    chat_message, client_list_message, register_message, Command, DiscoveredNodes, Message,
    UnreadMessages,
};
use crate::queue::{enqueue, wait_answer, wait_answer_for, Fetched};
use crate::reply::{
    dispatch_answer, dispatch_reply, flood_answer, flood_reply, messages_answer, messages_reply,
    noticed, Body, Notice, Reply, Status,
};

verus! {

/// Seconds to wait between starting a discovery sweep and asking for its result.
pub const FLOOD_GRACE_SECS: u64 = 2;

/// Seconds to wait for the worker's unread messages.
pub const MESSAGES_WAIT_SECS: u64 = 3;

/// Enqueues `c` for the worker, without waiting for it to be handled.
/// Success when it was enqueued; a server error when the worker's end of the
/// queue is gone.
pub fn dispatch(tx: &Sender<Command>, c: Command) -> (r: Reply)
    ensures
        exists|sent: bool| #[trigger] dispatch_answer(r, sent),
{
    let sent = enqueue(tx, c).is_ok();
    let r = dispatch_reply(sent);
    assert(dispatch_answer(r, sent));
    r
}

/// Forwards `m` to the worker for delivery into the network.
pub fn forward(tx: &Sender<Command>, m: Message) -> (r: Reply)
    ensures
        exists|sent: bool| #[trigger] dispatch_answer(r, sent),
{
    dispatch(tx, Command::SendMessage(m))
}

/// Asks the worker to register the node `node_id` with the node `target`.
pub fn register(tx: &Sender<Command>, node_id: u8, target: u8) -> (r: Reply)
    ensures
        exists|sent: bool| #[trigger] dispatch_answer(r, sent),
{
    forward(tx, register_message(node_id, target))
}

/// Asks the worker to have the server `server_id` forward `text` from
/// `node_id` to the client `client_id`.
pub fn send_message(tx: &Sender<Command>, node_id: u8, server_id: u8, client_id: u8, text: String) -> (r: Reply)
    ensures
        exists|sent: bool| #[trigger] dispatch_answer(r, sent),
{
    forward(tx, chat_message(node_id, server_id, client_id, text))
}

/// Asks the worker to request from the server `server_id` the clients
/// registered with it.
pub fn clients(tx: &Sender<Command>, node_id: u8, server_id: u8) -> (r: Reply)
    ensures
        exists|sent: bool| #[trigger] dispatch_answer(r, sent),
{
    forward(tx, client_list_message(node_id, server_id))
}

/// The first step of discovery: asks the worker to start a sweep. `None`
/// when that was enqueued and the flow goes on after the grace period; else
/// the server error to answer with.
pub fn flood_trigger(tx: &Sender<Command>) -> (r: Option<Reply>)
    ensures
        r matches Some(rep) ==> noticed(rep, Status::ServerError, Notice::FloodNotSent),
{
    match enqueue(tx, Command::InitializeFlood) {
        Ok(()) => None,
        Err(_) => Some(Reply { status: Status::ServerError, body: Body::Notice(Notice::FloodNotSent) }),
    }
}

/// The last step of discovery, after the grace period: asks the worker for
/// the nodes it found, waits for the next discovery result, and answers with
/// the server identifiers in it.
pub fn flood_collect(tx: &Sender<Command>, rx: &Receiver<DiscoveredNodes>) -> (r: Reply)
    ensures
        noticed(r, Status::ServerError, Notice::NodesNotRequested)
            || exists|answer: Option<DiscoveredNodes>| #[trigger] flood_answer(r, answer),
{
    match enqueue(tx, Command::GetEdgeNodesFromFlood) {
        Ok(()) => {
            let answer = wait_answer(rx);
            let ghost a = answer;
            let r = flood_reply(answer);
            assert(flood_answer(r, a));
            r
        },
        Err(_) => Reply { status: Status::ServerError, body: Body::Notice(Notice::NodesNotRequested) },
    }
}

/// Asks the worker for its unread messages and waits for them a bounded
/// time. An empty result, a closed queue and no answer in time all read as
/// "no content".
pub fn get_messages(tx: &Sender<Command>, rx: &Receiver<UnreadMessages>) -> (r: Reply)
    ensures
        noticed(r, Status::ServerError, Notice::BackendUnreachable)
            || exists|fetched: Fetched<UnreadMessages>| #[trigger] messages_answer(r, fetched),
{
    match enqueue(tx, Command::GetUnreadMessagesFromServer) {
        Ok(()) => {
            let fetched = wait_answer_for(rx, MESSAGES_WAIT_SECS);
            let ghost f = fetched;
            let r = messages_reply(fetched);
            assert(messages_answer(r, f));
            r
        },
        Err(_) => Reply { status: Status::ServerError, body: Body::Notice(Notice::BackendUnreachable) },
    }
}

} // verus!
