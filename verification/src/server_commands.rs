//! What the session asks of the transport.

use crate::bus::another_observer;
use crate::bus::another_sender;
use crate::bus::sender_channel;
use crate::bus::signal_of_receiver;
use crate::message::Message;
use tokio::sync::broadcast;
use tokio::sync::watch;
use vstd::prelude::*;

verus! {

/// The role that a room command asks the transport to take.
#[derive(Debug)]
pub enum RoomRequest {
    /// Accept peers on the configured address.
    Host,
    /// Dial the host at this address.
    Join(String),
}

/// A `RoomRequest`, as plain values.
pub enum RoomRequestView {
    Host,
    Join(Seq<char>),
}

impl View for RoomRequest {
    type V = RoomRequestView;

    open spec fn view(&self) -> RoomRequestView {
        match self {
            RoomRequest::Host => RoomRequestView::Host,
            RoomRequest::Join(address) => RoomRequestView::Join(address@),
        }
    }
}

/// A request to host or to join a room, with the transport's ends of the
/// room's channels. The channels are named by the direction of the lines
/// they carry: `inbound_tx` takes what arrives from the network to the
/// session, and the relays subscribe to `outbound_tx` for what the session
/// sends to the network.
#[derive(Debug)]
pub enum ServerCommand {
    HostRoom {
        shutdown_rx: watch::Receiver<bool>,
        inbound_tx: broadcast::Sender<Message>,
        outbound_tx: broadcast::Sender<Message>,
    },
    JoinRoom {
        address: String,
        shutdown_rx: watch::Receiver<bool>,
        inbound_tx: broadcast::Sender<Message>,
        outbound_tx: broadcast::Sender<Message>,
    },
}

impl Clone for ServerCommand {
    /// The same request, with further handles to the same channels.
    fn clone(&self) -> (copy: ServerCommand)
        ensures
            copy.request() == self.request(),
            copy.inbound_channel() == self.inbound_channel(),
            copy.outbound_channel() == self.outbound_channel(),
            copy.shutdown_signal() == self.shutdown_signal(),
    {
        match self {
            ServerCommand::HostRoom { shutdown_rx, inbound_tx, outbound_tx } => {
                ServerCommand::HostRoom {
                    shutdown_rx: another_observer(shutdown_rx),
                    inbound_tx: another_sender(inbound_tx),
                    outbound_tx: another_sender(outbound_tx),
                }
            },
            ServerCommand::JoinRoom { address, shutdown_rx, inbound_tx, outbound_tx } => {
                ServerCommand::JoinRoom {
                    address: address.clone(),
                    shutdown_rx: another_observer(shutdown_rx),
                    inbound_tx: another_sender(inbound_tx),
                    outbound_tx: another_sender(outbound_tx),
                }
            },
        }
    }
}

impl ServerCommand {
    /// The role that this command asks for.
    pub open spec fn request(&self) -> RoomRequestView {
        match self {
            ServerCommand::HostRoom { .. } => RoomRequestView::Host,
            ServerCommand::JoinRoom { address, .. } => RoomRequestView::Join(address@),
        }
    }

    /// The channel on which the transport publishes what it reads.
    pub open spec fn inbound_channel(&self) -> int {
        match self {
            ServerCommand::HostRoom { inbound_tx, .. } => sender_channel(*inbound_tx),
            ServerCommand::JoinRoom { inbound_tx, .. } => sender_channel(*inbound_tx),
        }
    }

    /// The channel whose lines the transport writes to its peers.
    pub open spec fn outbound_channel(&self) -> int {
        match self {
            ServerCommand::HostRoom { outbound_tx, .. } => sender_channel(*outbound_tx),
            ServerCommand::JoinRoom { outbound_tx, .. } => sender_channel(*outbound_tx),
        }
    }

    /// The shutdown signal that ends the room.
    pub open spec fn shutdown_signal(&self) -> int {
        match self {
            ServerCommand::HostRoom { shutdown_rx, .. } => signal_of_receiver(*shutdown_rx),
            ServerCommand::JoinRoom { shutdown_rx, .. } => signal_of_receiver(*shutdown_rx),
        }
    }

    /// The role that this command asks for.
    pub fn to_request(&self) -> (request: RoomRequest)
        ensures
            request@ == self.request(),
    {
        match self {
            ServerCommand::HostRoom { .. } => RoomRequest::Host,
            ServerCommand::JoinRoom { address, .. } => RoomRequest::Join(address.clone()),
        }
    }
}

} // verus!
