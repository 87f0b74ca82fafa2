//! The message bus: tokio's broadcast channel for chat lines and room
//! commands, and its watch channel for the shutdown signal.
//!
//! Whatever the library sends goes through `publish_line`, `forward_command`
//! or `raise_signal`, and each of them hands back a record of what it sent.
//!
//! A channel is shared by every handle to it, so nothing here says what a
//! channel holds. What the library needs to know of a handle is which
//! channel it belongs to, with which capacity that channel was made, and at
//! which value a signal started, and that is all the functions below state.

use crate::message::Message;
use crate::message::MessageView;
use crate::server_commands::RoomRequestView;
use crate::server_commands::ServerCommand;
use tokio::sync::broadcast;
use tokio::sync::watch;
use vstd::prelude::*;

verus! {

/// `broadcast::Sender`, the handle that publishes on a channel.
#[verifier::external_type_specification]
#[verifier::external_body]
#[verifier::reject_recursive_types(T)]
pub struct ExBroadcastSender<T>(broadcast::Sender<T>);

/// `broadcast::Receiver`, one subscription to a channel.
#[verifier::external_type_specification]
#[verifier::external_body]
#[verifier::reject_recursive_types(T)]
pub struct ExBroadcastReceiver<T>(broadcast::Receiver<T>);

/// `watch::Sender`, the handle that writes a watched value.
#[verifier::external_type_specification]
#[verifier::external_body]
#[verifier::reject_recursive_types(T)]
pub struct ExWatchSender<T>(watch::Sender<T>);

/// `watch::Receiver`, a handle that observes a watched value.
#[verifier::external_type_specification]
#[verifier::external_body]
#[verifier::reject_recursive_types(T)]
pub struct ExWatchReceiver<T>(watch::Receiver<T>);

/// What a subscriber got when it asked its channel for the next message.
#[derive(Debug)]
pub enum Incoming {
    /// A line arrived.
    Line(Message),
    /// The subscriber fell behind, and this many lines were dropped for it.
    Lagged(u64),
    /// Every sender of the channel is gone.
    Closed,
}

/// An `Incoming`, as plain values.
pub enum IncomingView {
    Line(MessageView),
    Lagged(u64),
    Closed,
}

impl View for Incoming {
    type V = IncomingView;

    open spec fn view(&self) -> IncomingView {
        match self {
            Incoming::Line(message) => IncomingView::Line(message@),
            Incoming::Lagged(skipped) => IncomingView::Lagged(*skipped),
            Incoming::Closed => IncomingView::Closed,
        }
    }
}

/// The capacity that every channel of the bus is made with. A subscriber
/// that falls further behind than the channel retains loses the oldest
/// lines; the publisher never waits for it.
pub const BUS_CAPACITY: usize = 10;

/// The channel that `tx` publishes on. The number stands for the state that
/// the handles of one channel share; it is only ever compared with that of
/// another handle.
pub uninterp spec fn sender_channel(tx: broadcast::Sender<Message>) -> int;

/// The channel that `rx` is subscribed to, in the numbers of
/// `sender_channel`.
pub uninterp spec fn receiver_channel(rx: broadcast::Receiver<Message>) -> int;

/// The capacity that the channel `channel` was made with: how many lines it
/// was asked to retain, not how many it has room for.
pub uninterp spec fn channel_capacity(channel: int) -> usize;

/// The shutdown signal that `tx` raises. The number stands for the state
/// that the handles of one signal share.
pub uninterp spec fn signal_of_sender(tx: watch::Sender<bool>) -> int;

/// The shutdown signal that `rx` observes, in the numbers of
/// `signal_of_sender`.
pub uninterp spec fn signal_of_receiver(rx: watch::Receiver<bool>) -> int;

/// The value that the signal `signal` was made with: what its observers
/// read until somebody writes to it.
pub uninterp spec fn signal_start(signal: int) -> bool;

/// `broadcast::channel`: a new channel for chat lines that retains at least
/// `capacity` of them, as its sender and its first subscriber. tokio panics
/// on a capacity of zero or above half of `usize::MAX`. The contract claims
/// that the two handles belong to one channel, and records the capacity that
/// was asked for.
#[verifier::external_body]
pub(crate) fn message_channel(capacity: usize) -> (ends: (
    broadcast::Sender<Message>,
    broadcast::Receiver<Message>,
))
    requires
        0 < capacity <= usize::MAX / 2,
    ensures
        sender_channel(ends.0) == receiver_channel(ends.1),
        channel_capacity(sender_channel(ends.0)) == capacity,
{
    broadcast::channel::<Message>(capacity)
}

/// `Sender::clone`: one more handle to the channel of `tx`. The contract
/// claims that it publishes on the same channel.
#[verifier::external_body]
pub(crate) fn another_sender(tx: &broadcast::Sender<Message>) -> (copy: broadcast::Sender<Message>)
    ensures
        sender_channel(copy) == sender_channel(*tx),
{
    tx.clone()
}

/// `Sender::send`: hands `value` to every subscriber of the channel, and
/// never waits. The answer is whether there was any subscriber at that
/// moment; with none the value is dropped. The contract claims nothing of the
/// answer, which depends on who else holds the channel.
#[verifier::external_body]
fn publish<T>(tx: &broadcast::Sender<T>, value: T) -> (delivered: bool) {
    tx.send(value).is_ok()
}

/// `watch::channel`: a new shutdown signal that starts at `initial`, as the
/// handle that raises it and the handle that observes it. The contract
/// claims that the two handles belong to one signal, and records the value
/// that it starts at.
#[verifier::external_body]
pub(crate) fn shutdown_signal(initial: bool) -> (ends: (watch::Sender<bool>, watch::Receiver<bool>))
    ensures
        signal_of_sender(ends.0) == signal_of_receiver(ends.1),
        signal_start(signal_of_sender(ends.0)) == initial,
{
    watch::channel(initial)
}

/// `watch::Receiver::clone`: one more handle that observes the signal of
/// `rx`. The contract claims that it is the same signal.
#[verifier::external_body]
pub(crate) fn another_observer(rx: &watch::Receiver<bool>) -> (copy: watch::Receiver<bool>)
    ensures
        signal_of_receiver(copy) == signal_of_receiver(*rx),
{
    rx.clone()
}

/// `watch::Sender::send`: writes `value` to the signal and wakes its
/// observers. The answer is whether any observer was left; with none the
/// value is not written. The contract claims nothing of the answer.
#[verifier::external_body]
fn raise(tx: &watch::Sender<bool>, value: bool) -> (observed: bool) {
    tx.send(value).is_ok()
}

/// Something that was done to the bus.
pub enum Effect {
    /// `message` was handed to the channel `channel`; `delivered` says
    /// whether a subscriber was there to take it.
    Published { channel: int, message: MessageView, delivered: bool },
    /// A room command was handed to the transport through `commands`. It
    /// asks for `request` and carries the transport's ends of the channels
    /// `inbound` and `outbound` and of the signal `shutdown`; `accepted` says
    /// whether the transport was there to take it.
    Forwarded {
        commands: broadcast::Sender<ServerCommand>,
        request: RoomRequestView,
        inbound: int,
        outbound: int,
        shutdown: int,
        accepted: bool,
    },
    /// `value` was written to the shutdown signal `signal`; `observed` says
    /// whether anyone was watching.
    Signalled { signal: int, value: bool, observed: bool },
}

/// Hands `message` to the subscribers of `tx`. Says whether there was any,
/// and what was done.
pub fn publish_line(tx: &broadcast::Sender<Message>, message: Message) -> (sent: (
    bool,
    Ghost<Effect>,
))
    ensures
        sent.1@ == (Effect::Published {
            channel: sender_channel(*tx),
            message: message@,
            delivered: sent.0,
        }),
{
    let ghost line = message@;
    let delivered = publish(tx, message);
    (delivered, Ghost(Effect::Published { channel: sender_channel(*tx), message: line, delivered }))
}

/// Hands `command` to the transport through `tx`. Says whether the
/// transport was there to take it, and what was done.
pub fn forward_command(tx: &broadcast::Sender<ServerCommand>, command: ServerCommand) -> (sent: (
    bool,
    Ghost<Effect>,
))
    ensures
        sent.1@ == (Effect::Forwarded {
            commands: *tx,
            request: command.request(),
            inbound: command.inbound_channel(),
            outbound: command.outbound_channel(),
            shutdown: command.shutdown_signal(),
            accepted: sent.0,
        }),
{
    let ghost asked = command;
    let accepted = publish(tx, command);
    (
        accepted,
        Ghost(
            Effect::Forwarded {
                commands: *tx,
                request: asked.request(),
                inbound: asked.inbound_channel(),
                outbound: asked.outbound_channel(),
                shutdown: asked.shutdown_signal(),
                accepted,
            },
        ),
    )
}

/// Writes `value` to the shutdown signal of `tx`. Says whether anyone was
/// watching, and what was done.
pub fn raise_signal(tx: &watch::Sender<bool>, value: bool) -> (sent: (bool, Ghost<Effect>))
    ensures
        sent.1@ == (Effect::Signalled {
            signal: signal_of_sender(*tx),
            value,
            observed: sent.0,
        }),
{
    let observed = raise(tx, value);
    (observed, Ghost(Effect::Signalled { signal: signal_of_sender(*tx), value, observed }))
}

} // verus!
