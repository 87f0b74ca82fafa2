//! The user-facing role engine: it owns the room that is in use, sends the
//! user's lines, records what arrives, and switches rooms on command.

use crate::buffer::empty_input;
use crate::buffer::input_text;
use crate::buffer::input_value;
use crate::buffer::reset_input;
use crate::bus::another_sender;
use crate::bus::channel_capacity;
use crate::bus::message_channel;
use crate::bus::forward_command;
use crate::bus::publish_line;
use crate::bus::raise_signal;
use crate::bus::receiver_channel;
use crate::bus::sender_channel;
use crate::bus::shutdown_signal;
use crate::bus::signal_of_sender;
use crate::bus::signal_start;
use crate::bus::Effect;
use crate::bus::Incoming;
use crate::bus::IncomingView;
use crate::bus::BUS_CAPACITY;
use crate::commands::parse;
use crate::commands::parse_cmd;
use crate::commands::Command;
use crate::commands::CommandView;
use crate::keys::key_action;
use crate::keys::on_key;
use crate::keys::Key;
use crate::keys::KeyAction;
use crate::keys::KeyActionView;
use crate::message::authored;
use crate::message::Message;
use crate::message::MessageView;
use crate::modes::InputMode;
use crate::modes::InputModeView;
use crate::server_commands::RoomRequest;
use crate::server_commands::RoomRequestView;
use crate::server_commands::ServerCommand;
use crate::user::root_user_view;
use crate::user::User;
use crate::user::UserView;
use tokio::sync::broadcast;
use tokio::sync::watch;
use tui_input::Input;
use vstd::prelude::*;
use vstd::string::StringExecFns;

verus! {

/// The session's ends of the channels of one room.
pub struct RoomHandle {
    outbound_tx: broadcast::Sender<Message>,
    inbound_rx: broadcast::Receiver<Message>,
    shutdown_tx: watch::Sender<bool>,
}

impl RoomHandle {
    /// The channel that carries the session's lines to the network.
    pub closed spec fn outbound_channel(&self) -> int {
        sender_channel(self.outbound_tx)
    }

    /// The channel that carries lines from the network to the session.
    pub closed spec fn inbound_channel(&self) -> int {
        receiver_channel(self.inbound_rx)
    }

    /// The shutdown signal that ends the room.
    pub closed spec fn shutdown_signal(&self) -> int {
        signal_of_sender(self.shutdown_tx)
    }
}

/// The local endpoint of the chat.
pub struct Session {
    pub input_mode: InputMode,
    users: Vec<User>,
    pub messages: Vec<Message>,
    pub text_buffer: Input,
    room: RoomHandle,
    listening: bool,
    server_commands_tx: broadcast::Sender<ServerCommand>,
    journal: Ghost<Seq<Effect>>,
}

/// A `Session`, as plain values.
pub struct SessionView {
    pub mode: InputModeView,
    pub users: Seq<UserView>,
    /// The lines on display, oldest first.
    pub log: Seq<MessageView>,
    /// The text that is being typed.
    pub pending: Seq<char>,
    /// The channel that the session listens to.
    pub inbound: int,
    /// The channel that the session publishes on.
    pub outbound: int,
    /// The signal that the session raises to end the room.
    pub shutdown: int,
    /// Whether the inbound channel can still bring a line.
    pub listening: bool,
    /// The handle through which room commands go to the transport.
    pub commands: broadcast::Sender<ServerCommand>,
    /// What the session did to the bus so far, oldest first.
    pub journal: Seq<Effect>,
}

/// The outbound channel of the room that was opened last in `journal`, if
/// one was.
pub open spec fn active_room(journal: Seq<Effect>) -> Option<int>
    decreases journal.len(),
{
    if journal.len() == 0 {
        None
    } else if journal.last() is Forwarded {
        Some(journal.last()->outbound)
    } else {
        active_room(journal.drop_last())
    }
}

/// Whether every message in `journal` that was published after a room was
/// opened went to the room that was active at that moment.
pub open spec fn publishes_to_active_room(journal: Seq<Effect>) -> bool {
    forall|k: int|
        0 <= k < journal.len() && (#[trigger] journal[k]) is Published && active_room(
            journal.take(k),
        ) is Some ==> journal[k]->channel == active_room(journal.take(k))->0
}

/// The name to show beside a line of `user_id`: that of the user at this
/// position, and `Program` for everyone the session does not know.
pub open spec fn name_of(users: Seq<UserView>, user_id: usize) -> Seq<char> {
    if user_id < users.len() {
        users[user_id as int].name
    } else {
        "Program"@
    }
}

/// The line that the session sends for the text `pending`.
pub open spec fn outgoing(author: usize, pending: Seq<char>) -> MessageView {
    authored(author, pending + "\n"@)
}

/// The session after it tried to send its pending text. A line that was
/// delivered joins the log and empties the buffer; one that was not leaves
/// both as they were.
pub open spec fn after_send(before: SessionView, delivered: bool) -> SessionView {
    recorded(before, outgoing(before.users[0].id, before.pending), delivered)
}

/// The session after `message` went to the outbound channel.
pub open spec fn recorded(
    before: SessionView,
    message: MessageView,
    delivered: bool,
) -> SessionView {
    let effect = Effect::Published { channel: before.outbound, message, delivered };
    if delivered {
        SessionView {
            log: before.log.push(message),
            pending: Seq::empty(),
            journal: before.journal.push(effect),
            ..before
        }
    } else {
        SessionView { journal: before.journal.push(effect), ..before }
    }
}

/// The session after `incoming` came from the inbound channel. A line joins
/// the log. Lines that were lost to lag are gone and change nothing. Once
/// the channel is closed there is nothing left to listen to.
pub open spec fn after_incoming(before: SessionView, incoming: IncomingView) -> SessionView {
    match incoming {
        IncomingView::Line(message) => SessionView { log: before.log.push(message), ..before },
        IncomingView::Lagged(_) => before,
        IncomingView::Closed => SessionView { listening: false, ..before },
    }
}

/// The notice that answers `command`.
pub open spec fn notice_of(command: CommandView) -> Seq<char> {
    match command {
        CommandView::Invite => "Not yet implemented!"@,
        CommandView::Join(address) => "joined room "@ + address,
        CommandView::Run => "Server running on 127.0.0.1:8080"@,
        CommandView::Unknown => "Unknown Command!"@,
        CommandView::Quit => Seq::empty(),
    }
}

/// The room that `command` opens, if it opens one.
pub open spec fn room_request_of(command: CommandView) -> Option<RoomRequestView> {
    match command {
        CommandView::Run => Some(RoomRequestView::Host),
        CommandView::Join(address) => Some(RoomRequestView::Join(address)),
        _ => None,
    }
}

/// Whether `after` is `before` moved to a new room for `request`: the
/// command went to the transport with the far ends of the channels that the
/// session now holds, both channels were made with the capacity of the bus,
/// the shutdown signal of the room starts unraised, and neither the mode,
/// the users nor the log changed.
pub open spec fn switched_room(
    before: SessionView,
    after: SessionView,
    request: RoomRequestView,
) -> bool {
    &&& after.journal.len() == before.journal.len() + 1
    &&& after.journal.drop_last() == before.journal
    &&& after.journal.last() matches Effect::Forwarded {
        commands,
        request: asked,
        inbound,
        outbound,
        shutdown,
        ..
    }
    &&& commands == before.commands
    &&& after.commands == before.commands
    &&& asked == request
    &&& inbound == after.inbound
    &&& outbound == after.outbound
    &&& shutdown == after.shutdown
    &&& channel_capacity(after.inbound) == BUS_CAPACITY
    &&& channel_capacity(after.outbound) == BUS_CAPACITY
    &&& !signal_start(after.shutdown)
    &&& after.listening
    &&& after.mode == before.mode
    &&& after.users == before.users
    &&& after.log == before.log
}

/// Whether `after` is `before` once `command`, which is not `quit`, was
/// carried out: the buffer is empty, a room command opened its room, and any
/// other command left the rest alone.
pub open spec fn executed(before: SessionView, after: SessionView, command: CommandView) -> bool {
    &&& after.pending == Seq::<char>::empty()
    &&& match room_request_of(command) {
        Some(request) => switched_room(before, after, request),
        None => after == SessionView { pending: Seq::empty(), ..before },
    }
}

/// What the loop does after a key press.
#[derive(Clone, Copy, Debug, PartialEq, Eq, Structural)]
pub enum Flow {
    /// Draw again and wait for the next key.
    Stay,
    /// Hand the key to the text buffer, then do as for `Stay`.
    Edit,
    /// End the loop.
    Leave,
}

/// Whether `after` and `flow` are what the key `key` makes of `before`.
///
/// A key that changes the mode changes nothing else. The enter key sends
/// the buffer from the text line, and carries it out from the command line:
/// `quit` ends the loop, and any other command leaves its notice on display.
pub open spec fn pressed(before: SessionView, after: SessionView, key: Key, flow: Flow) -> bool {
    match key_action(before.mode, key) {
        KeyActionView::Switch(mode) => flow == Flow::Stay && after == (SessionView {
            mode,
            ..before
        }),
        KeyActionView::Quit => flow == Flow::Leave && after == before,
        KeyActionView::Ignore => flow == Flow::Stay && after == before,
        KeyActionView::Edit => flow == Flow::Edit && after == before,
        KeyActionView::Send => {
            &&& flow == Flow::Stay
            &&& after.journal.len() > 0
            &&& after.journal.last() is Published
            &&& after == after_send(before, after.journal.last()->delivered)
        },
        KeyActionView::Execute => match parse(before.pending) {
            CommandView::Quit => flow == Flow::Leave && after == before,
            command => {
                &&& flow == Flow::Stay
                &&& after.mode == InputModeView::Info(notice_of(command))
                &&& executed(before, SessionView { mode: before.mode, ..after }, command)
            },
        },
    }
}

/// Adding `effect` to a journal that publishes to the active room keeps it
/// so, where a published line goes to the active room, if there is one.
proof fn lemma_journal_grows(journal: Seq<Effect>, effect: Effect)
    requires
        publishes_to_active_room(journal),
        effect is Published && active_room(journal) is Some ==> effect->channel == active_room(
            journal,
        )->0,
    ensures
        publishes_to_active_room(journal.push(effect)),
        active_room(journal.push(effect)) == if effect is Forwarded {
            Some(effect->outbound)
        } else {
            active_room(journal)
        },
{
    let longer = journal.push(effect);
    assert(longer.drop_last() =~= journal);
    assert forall|k: int|
        0 <= k < longer.len() && (#[trigger] longer[k]) is Published && active_room(
            longer.take(k),
        ) is Some implies longer[k]->channel == active_room(longer.take(k))->0 by {
        if k < journal.len() {
            assert(longer.take(k) =~= journal.take(k));
        }
    }
}

/// The outbound channel of the command at `opened` is still the active room
/// after `until` effects, where no other command was forwarded in between.
proof fn lemma_room_stays_active(journal: Seq<Effect>, opened: int, until: int)
    requires
        0 <= opened < until <= journal.len(),
        journal[opened] is Forwarded,
        forall|i: int| opened < i < until ==> !(#[trigger] journal[i] is Forwarded),
    ensures
        active_room(journal.take(until)) == Some(journal[opened]->outbound),
    decreases until - opened,
{
    let read = journal.take(until);
    assert(read.drop_last() =~= journal.take(until - 1));
    if until - 1 > opened {
        lemma_room_stays_active(journal, opened, until - 1);
    }
}

/// A new room supersedes the old one: once a session has forwarded a room
/// command, every line that it publishes until its next room command goes to
/// the outbound channel of that command, and while no other command follows,
/// that channel is the one the session holds.
pub proof fn lemma_room_supersession(session: Session, opened: int, published: int)
    requires
        session.wf(),
        0 <= opened < published < session@.journal.len(),
        session@.journal[opened] is Forwarded,
        session@.journal[published] is Published,
        forall|i: int| opened < i < published ==> !(#[trigger] session@.journal[i] is Forwarded),
    ensures
        session@.journal[published]->channel == session@.journal[opened]->outbound,
        (forall|i: int|
            opened < i < session@.journal.len() ==> !(#[trigger] session@.journal[i] is Forwarded))
            ==> session@.outbound == session@.journal[opened]->outbound,
{
    let journal = session@.journal;
    lemma_room_stays_active(journal, opened, published);
    if forall|i: int| opened < i < journal.len() ==> !(#[trigger] journal[i] is Forwarded) {
        lemma_room_stays_active(journal, opened, journal.len() as int);
        assert(journal.take(journal.len() as int) =~= journal);
    }
}

/// What a command does is a function of its line: two sessions that carry out
/// the same line answer with the same notice, and where the line opens a
/// room, both forward a command for the same role and address, each through
/// its own command handle and with the ends of the channels that its own
/// session holds afterwards. Both rooms have channels of the capacity of the
/// bus and a shutdown signal that starts unraised.
pub proof fn lemma_same_line_same_room(
    first: SessionView,
    first_after: SessionView,
    second: SessionView,
    second_after: SessionView,
)
    requires
        first.pending == second.pending,
        !(parse(first.pending) is Quit),
        executed(first, first_after, parse(first.pending)),
        executed(second, second_after, parse(second.pending)),
    ensures
        notice_of(parse(first.pending)) == notice_of(parse(second.pending)),
        first_after.pending == second_after.pending,
        room_request_of(parse(first.pending)) is Some ==> {
            &&& first_after.journal.last() is Forwarded
            &&& second_after.journal.last() is Forwarded
            &&& first_after.journal.last()->request == second_after.journal.last()->request
            &&& first_after.journal.last()->outbound == first_after.outbound
            &&& second_after.journal.last()->outbound == second_after.outbound
            &&& first_after.journal.last()->inbound == first_after.inbound
            &&& second_after.journal.last()->inbound == second_after.inbound
            &&& first_after.journal.last()->shutdown == first_after.shutdown
            &&& second_after.journal.last()->shutdown == second_after.shutdown
            &&& first_after.journal.last()->commands == first.commands
            &&& second_after.journal.last()->commands == second.commands
            &&& channel_capacity(first_after.inbound) == BUS_CAPACITY
            &&& channel_capacity(first_after.outbound) == BUS_CAPACITY
            &&& channel_capacity(second_after.inbound) == BUS_CAPACITY
            &&& channel_capacity(second_after.outbound) == BUS_CAPACITY
            &&& !signal_start(first_after.shutdown)
            &&& !signal_start(second_after.shutdown)
        },
        room_request_of(parse(first.pending)) is None ==> {
            &&& first_after.journal == first.journal
            &&& second_after.journal == second.journal
        },
{
}

/// Opens the channels of a new room for `request`: the session's ends, and
/// the command that carries the transport's ends. Both name every channel by
/// the direction of its lines, both channels are made with the capacity of
/// the bus, and the shutdown signal of the room starts unraised.
pub fn open_room(request: RoomRequest) -> (room: (RoomHandle, ServerCommand))
    ensures
        room.1.request() == request@,
        channel_capacity(room.1.inbound_channel()) == BUS_CAPACITY,
        channel_capacity(room.1.outbound_channel()) == BUS_CAPACITY,
        !signal_start(room.1.shutdown_signal()),
        room.0.inbound_channel() == room.1.inbound_channel(),
        room.0.outbound_channel() == room.1.outbound_channel(),
        room.0.shutdown_signal() == room.1.shutdown_signal(),
{
    let (shutdown_tx, shutdown_rx) = shutdown_signal(false);
    let (inbound_tx, inbound_rx) = message_channel(BUS_CAPACITY);
    let (outbound_tx, _) = message_channel(BUS_CAPACITY);
    let handle = RoomHandle { outbound_tx: another_sender(&outbound_tx), inbound_rx, shutdown_tx };
    let command = match request {
        RoomRequest::Host => ServerCommand::HostRoom { shutdown_rx, inbound_tx, outbound_tx },
        RoomRequest::Join(address) => ServerCommand::JoinRoom {
            address,
            shutdown_rx,
            inbound_tx,
            outbound_tx,
        },
    };
    (handle, command)
}

impl View for Session {
    type V = SessionView;

    closed spec fn view(&self) -> SessionView {
        SessionView {
            mode: self.input_mode@,
            users: Seq::new(self.users@.len(), |i: int| self.users@[i]@),
            log: Seq::new(self.messages@.len(), |i: int| self.messages@[i]@),
            pending: input_text(self.text_buffer),
            inbound: self.room.inbound_channel(),
            outbound: self.room.outbound_channel(),
            shutdown: self.room.shutdown_signal(),
            listening: self.listening,
            commands: self.server_commands_tx,
            journal: self.journal@,
        }
    }
}

impl Session {
    /// Whether the session has its local user and has published every line
    /// to the room that was active.
    pub closed spec fn wf(&self) -> bool {
        &&& self.users@.len() > 0
        &&& publishes_to_active_room(self.journal@)
        &&& active_room(self.journal@) matches Some(channel) ==> channel
            == self.room.outbound_channel()
    }

    /// A session outside any room: what it sends comes back to it.
    pub fn new(server_commands_tx: broadcast::Sender<ServerCommand>) -> (session: Session)
        ensures
            session.wf(),
            session@.mode == InputModeView::Help,
            session@.users == seq![root_user_view()],
            session@.log == Seq::<MessageView>::empty(),
            session@.pending == Seq::<char>::empty(),
            session@.inbound == session@.outbound,
            channel_capacity(session@.outbound) == BUS_CAPACITY,
            !signal_start(session@.shutdown),
            session@.listening,
            session@.commands == server_commands_tx,
            session@.journal == Seq::<Effect>::empty(),
    {
        let (outbound_tx, inbound_rx) = message_channel(BUS_CAPACITY);
        let (shutdown_tx, _) = shutdown_signal(false);
        let mut users: Vec<User> = Vec::new();
        users.push(User::default());
        let session = Session {
            input_mode: InputMode::default(),
            users,
            messages: Vec::new(),
            text_buffer: empty_input(),
            room: RoomHandle { outbound_tx, inbound_rx, shutdown_tx },
            listening: true,
            server_commands_tx,
            journal: Ghost(Seq::empty()),
        };
        session
    }

    /// The local user.
    pub fn root_user(&self) -> (user: &User)
        requires
            self.wf(),
        ensures
            user@ == self@.users[0],
    {
        self.nth_user(0)
    }

    /// The user at position `id`.
    pub fn nth_user(&self, id: usize) -> (user: &User)
        requires
            id < self@.users.len(),
        ensures
            user@ == self@.users[id as int],
    {
        &self.users[id]
    }

    /// The name to show beside a line of `user_id`.
    pub fn display_name(&self, user_id: usize) -> (name: String)
        ensures
            name@ == name_of(self@.users, user_id),
    {
        if user_id < self.users.len() {
            self.users[user_id].name.clone()
        } else {
            String::from_str("Program")
        }
    }

    /// Puts the loop into `mode`.
    pub fn switch_mode(&mut self, mode: InputMode)
        requires
            old(self).wf(),
        ensures
            final(self).wf(),
            final(self)@ == (SessionView { mode: mode@, ..old(self)@ }),
    {
        self.input_mode = mode;
    }

    /// Sends the pending text as one line of the local user, and says
    /// whether a subscriber took it. Never waits.
    pub fn send_user_msg(&mut self) -> (delivered: bool)
        requires
            old(self).wf(),
        ensures
            final(self).wf(),
            final(self)@ == after_send(old(self)@, delivered),
    {
        let mut content = input_value(&self.text_buffer);
        content.append("\n");
        let message = Message::new(self.root_user().id, content);
        let (delivered, sent) = publish_line(&self.room.outbound_tx, message.clone());
        self.record_sent(message, delivered);
        assert(self@.journal.last() == sent@);
        delivered
    }

    /// Records that `message` went to the outbound channel and whether it
    /// was delivered. A delivered line joins the log and empties the buffer.
    pub fn record_sent(&mut self, message: Message, delivered: bool)
        requires
            old(self).wf(),
        ensures
            final(self).wf(),
            final(self)@ == recorded(old(self)@, message@, delivered),
    {
        proof {
            lemma_journal_grows(
                self.journal@,
                Effect::Published {
                    channel: self.room.outbound_channel(),
                    message: message@,
                    delivered,
                },
            );
        }
        self.journal = Ghost(
            self.journal@.push(
                Effect::Published {
                    channel: self.room.outbound_channel(),
                    message: message@,
                    delivered,
                },
            ),
        );
        if delivered {
            let ghost log = self@.log;
            self.messages.push(message);
            reset_input(&mut self.text_buffer);
            assert(self@.log =~= log.push(message@));
        }
    }

    /// The session's subscription to the inbound channel, for the loop that
    /// waits on it.
    pub fn incoming(&mut self) -> (rx: &mut broadcast::Receiver<Message>)
        ensures
            receiver_channel(*rx) == old(self)@.inbound,
            final(self)@ == (SessionView { inbound: receiver_channel(*final(rx)), ..old(self)@ }),
            final(self).wf() == old(self).wf(),
    {
        &mut self.room.inbound_rx
    }

    /// Whether the inbound channel can still bring a line: it cannot once
    /// it was found closed, until the session moves to a new room.
    pub fn is_listening(&self) -> (listening: bool)
        ensures
            listening == self@.listening,
    {
        self.listening
    }

    /// Records what came from the inbound channel: a line joins the log, and
    /// a closed channel ends the listening.
    pub fn listen_for_msgs(&mut self, incoming: Incoming)
        requires
            old(self).wf(),
        ensures
            final(self).wf(),
            final(self)@ == after_incoming(old(self)@, incoming@),
    {
        match incoming {
            Incoming::Line(message) => {
                let ghost log = self@.log;
                self.messages.push(message);
                assert(self@.log =~= log.push(message@));
            },
            Incoming::Lagged(_) => {},
            Incoming::Closed => {
                self.listening = false;
            },
        }
    }

    /// Leaves the room in use for a new one: opens its channels, takes the
    /// session's ends in place of the old ones, and hands the command with
    /// the other ends to the transport. Says whether the transport was there
    /// to take it.
    pub fn switch_room(&mut self, request: RoomRequest) -> (accepted: bool)
        requires
            old(self).wf(),
        ensures
            final(self).wf(),
            switched_room(old(self)@, final(self)@, request@),
            final(self)@.pending == old(self)@.pending,
            final(self)@.journal.last()->accepted == accepted,
    {
        let (handle, command) = open_room(request);
        self.room = handle;
        self.listening = true;
        let (accepted, sent) = forward_command(&self.server_commands_tx, command);
        proof {
            lemma_journal_grows(self.journal@, sent@);
        }
        let ghost before = self.journal@;
        self.journal = Ghost(self.journal@.push(sent@));
        assert(self.journal@.drop_last() =~= before);
        accepted
    }

    /// Carries out the command in the buffer. `quit` asks the caller to end
    /// the loop and changes nothing; every other line empties the buffer
    /// and answers with a notice to show.
    pub fn execute_cmd(&mut self) -> (outcome: Result<InputMode, ()>)
        requires
            old(self).wf(),
        ensures
            final(self).wf(),
            match parse(old(self)@.pending) {
                CommandView::Quit => outcome is Err && final(self)@ == old(self)@,
                command => {
                    &&& outcome matches Ok(mode)
                    &&& mode@ == InputModeView::Info(notice_of(command))
                    &&& executed(old(self)@, final(self)@, command)
                },
            },
    {
        let text = input_value(&self.text_buffer);
        let info = match parse_cmd(text.as_str()) {
            Command::Quit => {
                return Err(());
            },
            Command::Invite => String::from_str("Not yet implemented!"),
            Command::Join(link) => {
                let info = String::from_str("joined room ").concat(link.as_str());
                self.switch_room(RoomRequest::Join(link));
                info
            },
            Command::Run => {
                self.switch_room(RoomRequest::Host);
                String::from_str("Server running on 127.0.0.1:8080")
            },
            Command::Unknown => String::from_str("Unknown Command!"),
        };
        reset_input(&mut self.text_buffer);
        Ok(InputMode::Info(info))
    }

    /// Does what `key` asks for in the mode of the session, and says how the
    /// loop goes on. A key that edits the buffer is left to the caller.
    pub fn press(&mut self, key: Key) -> (flow: Flow)
        requires
            old(self).wf(),
        ensures
            final(self).wf(),
            pressed(old(self)@, final(self)@, key, flow),
    {
        match on_key(&self.input_mode, key) {
            KeyAction::Switch(mode) => {
                self.switch_mode(mode);
                Flow::Stay
            },
            KeyAction::Quit => Flow::Leave,
            KeyAction::Ignore => Flow::Stay,
            KeyAction::Edit => Flow::Edit,
            KeyAction::Send => {
                self.send_user_msg();
                Flow::Stay
            },
            KeyAction::Execute => match self.execute_cmd() {
                Ok(mode) => {
                    self.switch_mode(mode);
                    Flow::Stay
                },
                Err(_) => Flow::Leave,
            },
        }
    }

    /// Raises the shutdown signal of the room in use: writes `true` to it,
    /// and says whether anyone was watching it.
    pub fn request_shutdown(&mut self) -> (observed: bool)
        requires
            old(self).wf(),
        ensures
            final(self).wf(),
            final(self)@ == (SessionView {
                journal: old(self)@.journal.push(
                    Effect::Signalled { signal: old(self)@.shutdown, value: true, observed },
                ),
                ..old(self)@
            }),
    {
        let (observed, sent) = raise_signal(&self.room.shutdown_tx, true);
        proof {
            lemma_journal_grows(self.journal@, sent@);
        }
        self.journal = Ghost(self.journal@.push(sent@));
        observed
    }
}

} // verus!
