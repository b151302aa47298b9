use crossbeam_channel::unbounded;
use web_client::client::Client;
use web_client::command::{
    chat_message, client_list_message, register_message, ChatRequest, Command, DiscoveredNodes,
    Message, NodeKind, UnreadMessages,
};
use web_client::endpoints::{
    clients, dispatch, flood_collect, flood_trigger, forward, get_messages, register, send_message,
    FLOOD_GRACE_SECS, MESSAGES_WAIT_SECS,
};
use web_client::queue::Fetched;
use web_client::reply::{
    dispatch_reply, flood_reply, messages_reply, server_ids, Body, Notice, Reply, Status,
};

fn mixed_nodes() -> DiscoveredNodes {
    DiscoveredNodes {
        nodes: vec![(1, NodeKind::Server), (2, NodeKind::Client), (3, NodeKind::Server)],
    }
}

fn ok_empty() -> Reply {
    Reply { status: Status::Success, body: Body::Empty }
}

fn error_empty() -> Reply {
    Reply { status: Status::ServerError, body: Body::Empty }
}

fn no_new_messages() -> Reply {
    Reply { status: Status::NoContent, body: Body::Notice(Notice::NoNewMessages) }
}

#[test]
fn status_codes() {
    assert_eq!(Status::Success.code(), 200);
    assert_eq!(Status::NoContent.code(), 204);
    assert_eq!(Status::ServerError.code(), 500);
}

#[test]
fn protocol_delays() {
    assert_eq!(FLOOD_GRACE_SECS, 2);
    assert_eq!(MESSAGES_WAIT_SECS, 3);
}

#[test]
fn register_message_is_addressed() {
    let m = register_message(7, 11);
    assert_eq!(
        m,
        Message { source: 7, destination: 11, session_id: 0, content: ChatRequest::Register }
    );
}

#[test]
fn chat_message_is_addressed() {
    let m = chat_message(7, 11, 13, "hello".to_string());
    assert_eq!(
        m,
        Message {
            source: 7,
            destination: 11,
            session_id: 0,
            content: ChatRequest::SendMessage { from: 7, to: 13, message: "hello".to_string() },
        }
    );
}

#[test]
fn client_list_message_is_addressed() {
    let m = client_list_message(4, 9);
    assert_eq!(
        m,
        Message { source: 4, destination: 9, session_id: 0, content: ChatRequest::ClientList }
    );
}

#[test]
fn server_ids_keep_servers_in_order() {
    assert_eq!(server_ids(&mixed_nodes().nodes), vec![1, 3]);
}

#[test]
fn server_ids_of_no_nodes() {
    assert_eq!(server_ids(&vec![]), Vec::<u8>::new());
}

#[test]
fn server_ids_without_servers() {
    let nodes = vec![(5, NodeKind::Drone), (6, NodeKind::Client)];
    assert_eq!(server_ids(&nodes), Vec::<u8>::new());
}

#[test]
fn server_ids_of_many_kinds() {
    let nodes = vec![
        (9, NodeKind::Server),
        (1, NodeKind::Drone),
        (255, NodeKind::Server),
        (0, NodeKind::Client),
        (9, NodeKind::Server),
        (4, NodeKind::Server),
    ];
    assert_eq!(server_ids(&nodes), vec![9, 255, 9, 4]);
}

#[test]
fn dispatch_reply_outcomes() {
    assert_eq!(dispatch_reply(true), ok_empty());
    assert_eq!(dispatch_reply(false), error_empty());
}

#[test]
fn flood_reply_with_result() {
    assert_eq!(
        flood_reply(Some(mixed_nodes())),
        Reply { status: Status::Success, body: Body::NodeIds(vec![1, 3]) }
    );
}

#[test]
fn flood_reply_without_result() {
    assert_eq!(
        flood_reply(None),
        Reply { status: Status::ServerError, body: Body::Notice(Notice::NoAnswer) }
    );
}

#[test]
fn messages_reply_with_messages() {
    let u = UnreadMessages { messages: vec!["a".to_string(), "b".to_string()] };
    assert_eq!(
        messages_reply(Fetched::Arrived(u)),
        Reply {
            status: Status::Success,
            body: Body::Messages(vec!["a".to_string(), "b".to_string()]),
        }
    );
}

#[test]
fn messages_reply_empty_equals_timeout() {
    let empty = messages_reply(Fetched::Arrived(UnreadMessages { messages: vec![] }));
    let timed_out = messages_reply(Fetched::TimedOut);
    assert_eq!(empty, no_new_messages());
    assert_eq!(timed_out, no_new_messages());
    assert_eq!(empty, timed_out);
    assert_eq!(empty.status.code(), 204);
}

#[test]
fn messages_reply_closed_is_no_content() {
    assert_eq!(messages_reply(Fetched::Closed), no_new_messages());
}

#[test]
fn dispatch_enqueues_the_command() {
    let (tx, rx) = unbounded();
    assert_eq!(dispatch(&tx, Command::InitializeFlood), ok_empty());
    assert_eq!(rx.try_recv(), Ok(Command::InitializeFlood));
}

#[test]
fn forward_wraps_the_message() {
    let (tx, rx) = unbounded();
    let m = register_message(1, 2);
    assert_eq!(forward(&tx, m.clone()), ok_empty());
    assert_eq!(rx.try_recv(), Ok(Command::SendMessage(m)));
}

#[test]
fn register_enqueues_register_request() {
    let (tx, rx) = unbounded();
    assert_eq!(register(&tx, 3, 8), ok_empty());
    assert_eq!(rx.try_recv(), Ok(Command::SendMessage(register_message(3, 8))));
}

#[test]
fn clients_enqueues_client_list_request() {
    let (tx, rx) = unbounded();
    assert_eq!(clients(&tx, 3, 8), ok_empty());
    assert_eq!(rx.try_recv(), Ok(Command::SendMessage(client_list_message(3, 8))));
}

#[test]
fn send_message_enqueues_chat_request() {
    let (tx, rx) = unbounded();
    assert_eq!(send_message(&tx, 3, 8, 12, "hi".to_string()), ok_empty());
    assert_eq!(
        rx.try_recv(),
        Ok(Command::SendMessage(chat_message(3, 8, 12, "hi".to_string())))
    );
}

#[test]
fn three_sends_all_succeed() {
    let (tx, rx) = unbounded();
    assert_eq!(send_message(&tx, 1, 2, 3, "one".to_string()), ok_empty());
    assert_eq!(send_message(&tx, 1, 2, 4, "two".to_string()), ok_empty());
    assert_eq!(send_message(&tx, 1, 5, 3, "three".to_string()), ok_empty());
    assert_eq!(rx.len(), 3);
}

#[test]
fn closed_queue_fails_every_dispatch() {
    let (tx, rx) = unbounded::<Command>();
    drop(rx);
    let (_ftx, frx) = unbounded::<DiscoveredNodes>();
    let (_utx, urx) = unbounded::<UnreadMessages>();
    assert_eq!(dispatch(&tx, Command::InitializeFlood), error_empty());
    assert_eq!(register(&tx, 1, 2), error_empty());
    assert_eq!(send_message(&tx, 1, 2, 3, "x".to_string()), error_empty());
    assert_eq!(clients(&tx, 1, 2), error_empty());
    assert_eq!(
        flood_trigger(&tx),
        Some(Reply { status: Status::ServerError, body: Body::Notice(Notice::FloodNotSent) })
    );
    assert_eq!(
        flood_collect(&tx, &frx),
        Reply { status: Status::ServerError, body: Body::Notice(Notice::NodesNotRequested) }
    );
    assert_eq!(
        get_messages(&tx, &urx),
        Reply { status: Status::ServerError, body: Body::Notice(Notice::BackendUnreachable) }
    );
}

#[test]
fn flood_trigger_starts_a_sweep() {
    let (tx, rx) = unbounded();
    assert_eq!(flood_trigger(&tx), None);
    assert_eq!(rx.try_recv(), Ok(Command::InitializeFlood));
}

#[test]
fn flood_reports_servers_only() {
    let (tx, rx) = unbounded();
    let (ftx, frx) = unbounded();
    ftx.send(mixed_nodes()).unwrap();
    assert_eq!(
        flood_collect(&tx, &frx),
        Reply { status: Status::Success, body: Body::NodeIds(vec![1, 3]) }
    );
    assert_eq!(rx.try_recv(), Ok(Command::GetEdgeNodesFromFlood));
}

#[test]
fn flood_closed_result_queue_is_server_error() {
    let (tx, _rx) = unbounded();
    let (ftx, frx) = unbounded::<DiscoveredNodes>();
    drop(ftx);
    assert_eq!(
        flood_collect(&tx, &frx),
        Reply { status: Status::ServerError, body: Body::Notice(Notice::NoAnswer) }
    );
}

#[test]
fn concurrent_floods_share_results() {
    // Two discovery results wait on one shared queue. Each collector takes
    // whichever comes next, not the one meant for it.
    let (tx, rx) = unbounded();
    let (ftx, frx) = unbounded();
    let other = frx.clone();
    ftx.send(DiscoveredNodes { nodes: vec![(7, NodeKind::Server)] }).unwrap();
    ftx.send(mixed_nodes()).unwrap();
    assert_eq!(
        flood_collect(&tx, &other),
        Reply { status: Status::Success, body: Body::NodeIds(vec![7]) }
    );
    assert_eq!(
        flood_collect(&tx, &frx),
        Reply { status: Status::Success, body: Body::NodeIds(vec![1, 3]) }
    );
    assert_eq!(rx.len(), 2);
}

#[test]
fn messages_arrive_in_time() {
    let (tx, rx) = unbounded();
    let (utx, urx) = unbounded();
    utx.send(UnreadMessages { messages: vec!["hey".to_string()] }).unwrap();
    assert_eq!(
        get_messages(&tx, &urx),
        Reply { status: Status::Success, body: Body::Messages(vec!["hey".to_string()]) }
    );
    assert_eq!(rx.try_recv(), Ok(Command::GetUnreadMessagesFromServer));
}

#[test]
fn messages_empty_is_no_content() {
    let (tx, _rx) = unbounded();
    let (utx, urx) = unbounded();
    utx.send(UnreadMessages { messages: vec![] }).unwrap();
    assert_eq!(get_messages(&tx, &urx), no_new_messages());
}

#[test]
fn messages_timeout_is_no_content() {
    let (tx, _rx) = unbounded();
    let (_utx, urx) = unbounded::<UnreadMessages>();
    assert_eq!(get_messages(&tx, &urx), no_new_messages());
}

#[test]
fn messages_closed_queue_is_no_content() {
    let (tx, _rx) = unbounded();
    let (utx, urx) = unbounded::<UnreadMessages>();
    drop(utx);
    assert_eq!(get_messages(&tx, &urx), no_new_messages());
}

#[test]
fn client_queues_are_connected() {
    let c = Client::new();
    c.command_sender().send(Command::InitializeFlood).unwrap();
    assert_eq!(c.command_receiver().try_recv(), Ok(Command::InitializeFlood));
    c.flood_sender().send(mixed_nodes()).unwrap();
    assert_eq!(c.flood_receiver().try_recv(), Ok(mixed_nodes()));
    let u = UnreadMessages { messages: vec!["m".to_string()] };
    c.unread_sender().send(u.clone()).unwrap();
    assert_eq!(c.unread_receiver().try_recv(), Ok(u));
}

#[test]
fn port_follows_node_id() {
    assert_eq!(web_client::client::server_port(0), 8000);
    assert_eq!(web_client::client::server_port(42), 8042);
    assert_eq!(web_client::client::server_port(255), 8255);
}
