//! The gateway's queues, made once and handed to the worker and the handlers.
use vstd::prelude::*;

use crossbeam_channel::{Receiver, Sender};

use crate::command::{Command, DiscoveredNodes, UnreadMessages};
use crate::queue::open_queue;

verus! {

/// Added to the node identifier to give the HTTP port.
pub const PORT_BASE: u16 = 8000;

/// The loopback port on which the node `node_id` serves HTTP.
pub fn server_port(node_id: u8) -> (port: u16)
    ensures
        port == node_id + PORT_BASE,
{
    node_id as u16 + PORT_BASE
}

/// Owns both ends of the command queue and of the two result queues.
pub struct Client {
    command_send: Sender<Command>,
    command_receive: Receiver<Command>,
    flood_send: Sender<DiscoveredNodes>,
    flood_recv: Receiver<DiscoveredNodes>,
    unread_msg_send: Sender<UnreadMessages>,
    unread_msg_recv: Receiver<UnreadMessages>,
}

impl Client {
    /// Makes the command queue and the two result queues, all unbounded.
    pub fn new() -> (c: Client) {
        let (command_send, command_receive) = open_queue::<Command>();
        let (flood_send, flood_recv) = open_queue::<DiscoveredNodes>();
        let (unread_msg_send, unread_msg_recv) = open_queue::<UnreadMessages>();
        Client {
            command_send,
            command_receive,
            flood_send,
            flood_recv,
            unread_msg_send,
            unread_msg_recv,
        }
    }

    /// Where the handlers put commands.
    pub fn command_sender(&self) -> &Sender<Command> {
        &self.command_send
    }

    /// Where the worker takes commands from.
    pub fn command_receiver(&self) -> &Receiver<Command> {
        &self.command_receive
    }

    /// Where the worker publishes discovery results.
    pub fn flood_sender(&self) -> &Sender<DiscoveredNodes> {
        &self.flood_send
    }

    /// Where the handlers wait for discovery results.
    pub fn flood_receiver(&self) -> &Receiver<DiscoveredNodes> {
        &self.flood_recv
    }

    /// Where the worker publishes unread messages.
    pub fn unread_sender(&self) -> &Sender<UnreadMessages> {
        &self.unread_msg_send
    }

    /// Where the handlers wait for unread messages.
    pub fn unread_receiver(&self) -> &Receiver<UnreadMessages> {
        &self.unread_msg_recv
    }
}

} // verus!
