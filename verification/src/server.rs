//! The network-facing role engine: it hosts a room or joins one when the
//! session asks, and falls back to idle when the room ends.
//!
//! Sockets and waiting are not here. The loop that owns them tells the
//! engine what happened, and the engine answers with what to do next.

use crate::bus::publish_line;
use crate::bus::sender_channel;
use crate::bus::Effect;
use crate::message::authored;
use crate::message::Message;
use crate::message::MessageView;
use crate::relay::relay_action;
use crate::relay::relay_step;
use crate::relay::RelayAction;
use crate::relay::RelayActionView;
use crate::relay::RelayEvent;
use crate::server_commands::RoomRequestView;
use crate::server_commands::ServerCommand;
use crate::user::NETWORK_USER_ID;
use tokio::sync::broadcast;
use vstd::prelude::*;
use vstd::string::StringExecFns;

verus! {

/// What the transport is doing.
#[derive(Clone, Copy, Debug, PartialEq, Eq, Structural)]
pub enum Role {
    /// Waiting for a room command.
    Idle,
    /// Accepting peers, with one relay for each.
    Hosting,
    /// Dialing a host, or relaying to it.
    Joining,
}

/// Why a room could not be entered.
#[derive(Clone, Copy, Debug, PartialEq, Eq, Structural)]
pub enum RoomError {
    /// The listening socket could not be bound.
    Bind,
    /// The host could not be reached.
    Connect,
}

/// What happened to the transport.
#[derive(Clone, Copy, Debug, PartialEq, Eq, Structural)]
pub enum TransportEvent {
    /// The listening socket is bound.
    Bound,
    /// The listening socket could not be bound.
    BindFailed,
    /// A peer connected to the listening socket.
    Accepted,
    /// The relay for the peer that connected is running.
    Served,
    /// The listening socket failed.
    AcceptFailed,
    /// The dialed host answered.
    Connected,
    /// The dialed host could not be reached.
    ConnectFailed,
    /// The relay to the dialed host ended.
    RelayEnded,
    /// The shutdown signal of the room changed, or nobody can raise it any
    /// more.
    Shutdown,
    /// Room commands were lost because they came faster than they were
    /// taken.
    CommandsLagged,
    /// Nobody can send a room command any more.
    CommandsClosed,
}

/// What the transport does next.
#[derive(Debug)]
pub enum TransportAction {
    /// Bind a listening socket on this address; report `Bound` or
    /// `BindFailed`.
    Listen(String),
    /// Wait for the next peer; report `Accepted` or `AcceptFailed`.
    Accept,
    /// Start a relay of its own for the peer that connected; report
    /// `Served`.
    Serve,
    /// Dial this address once; report `Connected` or `ConnectFailed`.
    Dial(String),
    /// Run the relay on the dialed connection; report `RelayEnded`.
    Relay,
    /// Drop what belongs to the room and wait for the next room command.
    AwaitCommand,
    /// Tell the session of this failure, then do as for `AwaitCommand`.
    Report(RoomError),
    /// Go on with what is under way.
    Continue,
    /// End the transport.
    Exit,
}

/// A `TransportAction`, as plain values.
pub enum TransportActionView {
    Listen(Seq<char>),
    Accept,
    Serve,
    Dial(Seq<char>),
    Relay,
    AwaitCommand,
    Report(RoomError),
    Continue,
    Exit,
}

impl View for TransportAction {
    type V = TransportActionView;

    open spec fn view(&self) -> TransportActionView {
        match self {
            TransportAction::Listen(address) => TransportActionView::Listen(address@),
            TransportAction::Accept => TransportActionView::Accept,
            TransportAction::Serve => TransportActionView::Serve,
            TransportAction::Dial(address) => TransportActionView::Dial(address@),
            TransportAction::Relay => TransportActionView::Relay,
            TransportAction::AwaitCommand => TransportActionView::AwaitCommand,
            TransportAction::Report(error) => TransportActionView::Report(*error),
            TransportAction::Continue => TransportActionView::Continue,
            TransportAction::Exit => TransportActionView::Exit,
        }
    }
}

/// The transport of one session.
#[derive(Debug)]
pub struct Server {
    session_link: String,
    role: Role,
}

/// A `Server`, as plain values.
pub struct ServerView {
    /// The address on which this transport hosts.
    pub address: Seq<char>,
    pub role: Role,
}

/// The role that a room command puts the transport in, whatever it was doing,
/// and how that role begins. A host listens on `address`; a guest dials the
/// address of the command.
pub open spec fn transport_start(address: Seq<char>, request: RoomRequestView) -> (
    Role,
    TransportActionView,
) {
    match request {
        RoomRequestView::Host => (Role::Hosting, TransportActionView::Listen(address)),
        RoomRequestView::Join(link) => (Role::Joining, TransportActionView::Dial(link)),
    }
}

/// The role of the transport after `event` happened in `role`, and what it
/// does next.
///
/// A room ends on the shutdown signal, whatever is under way, and on a failure
/// of its own socket. A failure to enter the room is reported. What cannot
/// happen in a role changes nothing.
pub open spec fn transport_step(role: Role, event: TransportEvent) -> (Role, TransportActionView) {
    match (role, event) {
        (Role::Idle, TransportEvent::CommandsLagged) => (
            Role::Idle,
            TransportActionView::AwaitCommand,
        ),
        (Role::Idle, TransportEvent::CommandsClosed) => (Role::Idle, TransportActionView::Exit),
        (Role::Idle, _) => (Role::Idle, TransportActionView::Continue),
        (_, TransportEvent::Shutdown) => (Role::Idle, TransportActionView::AwaitCommand),
        (Role::Hosting, TransportEvent::Bound) => (Role::Hosting, TransportActionView::Accept),
        (Role::Hosting, TransportEvent::BindFailed) => (
            Role::Idle,
            TransportActionView::Report(RoomError::Bind),
        ),
        (Role::Hosting, TransportEvent::Accepted) => (Role::Hosting, TransportActionView::Serve),
        (Role::Hosting, TransportEvent::Served) => (Role::Hosting, TransportActionView::Accept),
        (Role::Hosting, TransportEvent::AcceptFailed) => (
            Role::Idle,
            TransportActionView::AwaitCommand,
        ),
        (Role::Hosting, _) => (Role::Hosting, TransportActionView::Continue),
        (Role::Joining, TransportEvent::Connected) => (Role::Joining, TransportActionView::Relay),
        (Role::Joining, TransportEvent::ConnectFailed) => (
            Role::Idle,
            TransportActionView::Report(RoomError::Connect),
        ),
        (Role::Joining, TransportEvent::RelayEnded) => (
            Role::Idle,
            TransportActionView::AwaitCommand,
        ),
        (Role::Joining, _) => (Role::Joining, TransportActionView::Continue),
    }
}

/// The role of the transport after `events` happened one after the other,
/// starting in `role`.
pub open spec fn transport_run(role: Role, events: Seq<TransportEvent>) -> Role
    decreases events.len(),
{
    if events.len() == 0 {
        role
    } else {
        transport_step(transport_run(role, events.drop_last()), events.last()).0
    }
}

/// The events of a host that bound its socket and then accepted `peers`
/// connections and started a relay for each.
pub open spec fn hosting_events(peers: nat) -> Seq<TransportEvent>
    decreases peers,
{
    if peers == 0 {
        seq![TransportEvent::Bound]
    } else {
        hosting_events((peers - 1) as nat).push(TransportEvent::Accepted).push(
            TransportEvent::Served,
        )
    }
}

/// The notice that tells the session of `error`.
pub open spec fn failure_notice(error: RoomError) -> MessageView {
    match error {
        RoomError::Bind => authored(NETWORK_USER_ID, "Failed to host session\n"@),
        RoomError::Connect => authored(NETWORK_USER_ID, "Failed to join session\n"@),
    }
}

/// What is left of `action` for the loop once the message of a `Publish` is
/// on the bus.
pub open spec fn after_publish(action: RelayActionView) -> RelayActionView {
    match action {
        RelayActionView::Publish(_) => RelayActionView::Continue,
        other => other,
    }
}

/// Whether `done` is what carrying out `action` does to the channel
/// `inbound`: the message of a `Publish` is handed to that channel, and no
/// other action touches the bus.
pub open spec fn relay_effect(action: RelayActionView, inbound: int, done: Option<Effect>) -> bool {
    match action {
        RelayActionView::Publish(line) => {
            &&& done matches Some(Effect::Published { channel, message, .. })
            &&& channel == inbound
            &&& message == line
        },
        _ => done is None,
    }
}

/// A host goes on hosting however many peers connect, and the shutdown
/// signal ends it at once: it is idle after the signal whether any peer ever
/// connected or not.
pub proof fn lemma_shutdown_ends_hosting(peers: nat)
    ensures
        transport_run(Role::Hosting, hosting_events(peers)) == Role::Hosting,
        transport_run(Role::Hosting, hosting_events(peers).push(TransportEvent::Shutdown))
            == Role::Idle,
    decreases peers,
{
    let events = hosting_events(peers);
    if peers == 0 {
        assert(transport_run(Role::Hosting, events.drop_last()) == Role::Hosting);
    } else {
        let earlier = hosting_events((peers - 1) as nat);
        lemma_shutdown_ends_hosting((peers - 1) as nat);
        assert(earlier.push(TransportEvent::Accepted).drop_last() =~= earlier);
        assert(events.drop_last() =~= earlier.push(TransportEvent::Accepted));
    }
}

/// Whatever the transport is doing in a room, the shutdown signal takes it
/// back to idle in one step, and a room command takes it from any role into
/// the role that the command asks for.
pub proof fn lemma_rooms_end_and_begin(role: Role, address: Seq<char>, request: RoomRequestView)
    ensures
        transport_step(role, TransportEvent::Shutdown).0 == Role::Idle,
        transport_start(address, request).0 != Role::Idle,
        request is Host <==> transport_start(address, request).0 == Role::Hosting,
{
}

impl View for Server {
    type V = ServerView;

    closed spec fn view(&self) -> ServerView {
        ServerView { address: self.session_link@, role: self.role }
    }
}

impl Server {
    /// An idle transport that hosts on `127.0.0.1:8080`.
    pub fn new() -> (server: Server)
        ensures
            server@ == (ServerView { address: "127.0.0.1:8080"@, role: Role::Idle }),
    {
        Server { session_link: String::from_str("127.0.0.1:8080"), role: Role::Idle }
    }

    /// What the transport is doing.
    pub fn role(&self) -> (role: Role)
        ensures
            role == self@.role,
    {
        self.role
    }

    /// Enters the room that `command` asks for, leaving any room that was in
    /// use, and says how the new role begins.
    pub fn start(&mut self, command: &ServerCommand) -> (action: TransportAction)
        ensures
            final(self)@.address == old(self)@.address,
            (final(self)@.role, action@) == transport_start(old(self)@.address, command.request()),
    {
        match command {
            ServerCommand::HostRoom { .. } => self.run(),
            ServerCommand::JoinRoom { address, .. } => self.join(address.clone()),
        }
    }

    /// Becomes the host of a room on the configured address.
    pub fn run(&mut self) -> (action: TransportAction)
        ensures
            final(self)@ == (ServerView { role: Role::Hosting, ..old(self)@ }),
            action@ == TransportActionView::Listen(old(self)@.address),
    {
        self.role = Role::Hosting;
        TransportAction::Listen(self.session_link.clone())
    }

    /// Becomes a guest of the room at `link`.
    pub fn join(&mut self, link: String) -> (action: TransportAction)
        ensures
            final(self)@ == (ServerView { role: Role::Joining, ..old(self)@ }),
            action@ == TransportActionView::Dial(link@),
    {
        self.role = Role::Joining;
        TransportAction::Dial(link)
    }

    /// Takes note of `event` and says what to do next.
    pub fn advance(&mut self, event: TransportEvent) -> (action: TransportAction)
        ensures
            final(self)@.address == old(self)@.address,
            (final(self)@.role, action@) == transport_step(old(self)@.role, event),
    {
        let (role, action) = match (self.role, event) {
            (Role::Idle, TransportEvent::CommandsLagged) => (
                Role::Idle,
                TransportAction::AwaitCommand,
            ),
            (Role::Idle, TransportEvent::CommandsClosed) => (Role::Idle, TransportAction::Exit),
            (Role::Idle, _) => (Role::Idle, TransportAction::Continue),
            (_, TransportEvent::Shutdown) => (Role::Idle, TransportAction::AwaitCommand),
            (Role::Hosting, TransportEvent::Bound) => (Role::Hosting, TransportAction::Accept),
            (Role::Hosting, TransportEvent::BindFailed) => (
                Role::Idle,
                TransportAction::Report(RoomError::Bind),
            ),
            (Role::Hosting, TransportEvent::Accepted) => (Role::Hosting, TransportAction::Serve),
            (Role::Hosting, TransportEvent::Served) => (Role::Hosting, TransportAction::Accept),
            (Role::Hosting, TransportEvent::AcceptFailed) => (
                Role::Idle,
                TransportAction::AwaitCommand,
            ),
            (Role::Hosting, _) => (Role::Hosting, TransportAction::Continue),
            (Role::Joining, TransportEvent::Connected) => (Role::Joining, TransportAction::Relay),
            (Role::Joining, TransportEvent::ConnectFailed) => (
                Role::Idle,
                TransportAction::Report(RoomError::Connect),
            ),
            (Role::Joining, TransportEvent::RelayEnded) => (
                Role::Idle,
                TransportAction::AwaitCommand,
            ),
            (Role::Joining, _) => (Role::Joining, TransportAction::Continue),
        };
        self.role = role;
        action
    }

    /// The notice that tells the session of `error`.
    pub fn notice(error: RoomError) -> (message: Message)
        ensures
            message@ == failure_notice(error),
    {
        match error {
            RoomError::Bind => Message::new(
                NETWORK_USER_ID,
                String::from_str("Failed to host session\n"),
            ),
            RoomError::Connect => Message::new(
                NETWORK_USER_ID,
                String::from_str("Failed to join session\n"),
            ),
        }
    }

    /// Tells the session of `error`: hands the notice of `error` to the
    /// inbound channel of the room that failed. Says whether the session
    /// was there to hear it, which depends on who is subscribed at that
    /// moment, and what was done.
    pub fn report(error: RoomError, inbound_tx: &broadcast::Sender<Message>) -> (sent: (
        bool,
        Ghost<Effect>,
    ))
        ensures
            sent.1@ == (Effect::Published {
                channel: sender_channel(*inbound_tx),
                message: failure_notice(error),
                delivered: sent.0,
            }),
    {
        publish_line(inbound_tx, Server::notice(error))
    }

    /// One turn of the relay of a connection: decides what `event` asks for
    /// and, where that is a message to publish, hands it to `inbound_tx`. A
    /// message that finds no subscriber is dropped, and the relay goes on.
    /// Says what is left for the loop to do, and what was done to the bus.
    pub fn handle_client(event: RelayEvent, inbound_tx: &broadcast::Sender<Message>) -> (turn: (
        RelayAction,
        Ghost<Option<Effect>>,
    ))
        ensures
            turn.0@ == after_publish(relay_action(event@)),
            relay_effect(relay_action(event@), sender_channel(*inbound_tx), turn.1@),
    {
        match relay_step(event) {
            RelayAction::Publish(message) => {
                let (_, sent) = publish_line(inbound_tx, message);
                (RelayAction::Continue, Ghost(Some(sent@)))
            },
            other => (other, Ghost(None)),
        }
    }
}

} // verus!
