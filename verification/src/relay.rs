//! The relay of one connection: it publishes every line that the peer sends
//! on the inbound channel, and writes every line of the outbound channel to
//! the peer.
//!
//! The loop that waits on the socket and on the bus is not here. It hands
//! each thing that happened to `relay_step` and does what the answer says.

use crate::bus::Incoming;
use crate::bus::IncomingView;
use crate::message::received;
use crate::message::wire_bytes;
use crate::message::Message;
use crate::message::MessageView;
use vstd::prelude::*;

verus! {

/// What happened on the connection or on the bus.
#[derive(Debug)]
pub enum RelayEvent {
    /// A read of one line returned: it took `bytes_read` bytes from the
    /// socket, and they spell `line`. No bytes mean that the peer closed.
    Read { bytes_read: usize, line: String },
    /// A read failed.
    ReadFailed,
    /// The subscription to the outbound channel answered.
    Bus(Incoming),
    /// The bytes of the last `Write` are on the socket.
    Written,
    /// The last `Write` failed.
    WriteFailed,
}

/// A `RelayEvent`, as plain values.
pub enum RelayEventView {
    Read { bytes_read: usize, line: Seq<char> },
    ReadFailed,
    Bus(IncomingView),
    Written,
    WriteFailed,
}

impl View for RelayEvent {
    type V = RelayEventView;

    open spec fn view(&self) -> RelayEventView {
        match self {
            RelayEvent::Read { bytes_read, line } => RelayEventView::Read {
                bytes_read: *bytes_read,
                line: line@,
            },
            RelayEvent::ReadFailed => RelayEventView::ReadFailed,
            RelayEvent::Bus(incoming) => RelayEventView::Bus(incoming@),
            RelayEvent::Written => RelayEventView::Written,
            RelayEvent::WriteFailed => RelayEventView::WriteFailed,
        }
    }
}

/// What the relay does next.
#[derive(Debug)]
pub enum RelayAction {
    /// Publish this message on the inbound channel, then go on.
    Publish(Message),
    /// Write these bytes to the socket, then report `Written` or
    /// `WriteFailed`.
    Write(Vec<u8>),
    /// Go on waiting.
    Continue,
    /// End the relay. Its siblings and the session are not touched.
    Stop,
}

/// A `RelayAction`, as plain values.
pub enum RelayActionView {
    Publish(MessageView),
    Write(Seq<u8>),
    Continue,
    Stop,
}

impl View for RelayAction {
    type V = RelayActionView;

    open spec fn view(&self) -> RelayActionView {
        match self {
            RelayAction::Publish(message) => RelayActionView::Publish(message@),
            RelayAction::Write(bytes) => RelayActionView::Write(bytes@),
            RelayAction::Continue => RelayActionView::Continue,
            RelayAction::Stop => RelayActionView::Stop,
        }
    }
}

/// What the relay does about `event`.
///
/// A line from the peer is published as a message of the network identity. A
/// message from the bus is written to the peer. A lagging subscription has
/// lost lines for good and goes on with those that are left. The relay ends
/// when the peer closes, when the socket fails, or when the outbound channel
/// has no sender left.
pub open spec fn relay_action(event: RelayEventView) -> RelayActionView {
    match event {
        RelayEventView::Read { bytes_read, line } => if bytes_read == 0 {
            RelayActionView::Stop
        } else {
            RelayActionView::Publish(received(line))
        },
        RelayEventView::ReadFailed => RelayActionView::Stop,
        RelayEventView::Bus(IncomingView::Line(message)) => RelayActionView::Write(
            wire_bytes(message),
        ),
        RelayEventView::Bus(IncomingView::Lagged(_)) => RelayActionView::Continue,
        RelayEventView::Bus(IncomingView::Closed) => RelayActionView::Stop,
        RelayEventView::Written => RelayActionView::Continue,
        RelayEventView::WriteFailed => RelayActionView::Stop,
    }
}

/// Decides what the relay does about `event`.
pub fn relay_step(event: RelayEvent) -> (action: RelayAction)
    ensures
        action@ == relay_action(event@),
{
    match event {
        RelayEvent::Read { bytes_read, line } => {
            if bytes_read == 0 {
                RelayAction::Stop
            } else {
                RelayAction::Publish(Message::from_line(line))
            }
        },
        RelayEvent::ReadFailed => RelayAction::Stop,
        RelayEvent::Bus(Incoming::Line(message)) => RelayAction::Write(message.as_bytes()),
        RelayEvent::Bus(Incoming::Lagged(_)) => RelayAction::Continue,
        RelayEvent::Bus(Incoming::Closed) => RelayAction::Stop,
        RelayEvent::Written => RelayAction::Continue,
        RelayEvent::WriteFailed => RelayAction::Stop,
    }
}

/// What a relay has done: the messages it published, the bytes it handed to
/// the socket, and whether it has ended.
pub struct RelayTrace {
    pub published: Seq<MessageView>,
    pub written: Seq<u8>,
    pub stopped: bool,
}

/// What a relay has done after `events`, in the order in which they
/// happened. Nothing that happens after the relay ended has any effect.
pub open spec fn relay_run(events: Seq<RelayEventView>) -> RelayTrace
    decreases events.len(),
{
    if events.len() == 0 {
        RelayTrace { published: Seq::empty(), written: Seq::empty(), stopped: false }
    } else {
        let before = relay_run(events.drop_last());
        if before.stopped {
            before
        } else {
            match relay_action(events.last()) {
                RelayActionView::Publish(message) => RelayTrace {
                    published: before.published.push(message),
                    ..before
                },
                RelayActionView::Write(bytes) => RelayTrace {
                    written: before.written + bytes,
                    ..before
                },
                RelayActionView::Continue => before,
                RelayActionView::Stop => RelayTrace { stopped: true, ..before },
            }
        }
    }
}

/// The events that follow from the bus delivering `messages` in this order
/// to a relay whose socket takes every write.
pub open spec fn deliveries(messages: Seq<MessageView>) -> Seq<RelayEventView>
    decreases messages.len(),
{
    if messages.len() == 0 {
        Seq::empty()
    } else {
        deliveries(messages.drop_last()).push(
            RelayEventView::Bus(IncomingView::Line(messages.last())),
        ).push(RelayEventView::Written)
    }
}

/// The events that follow from the peer sending `lines` in this order,
/// where reading the line at each position took the number of bytes that
/// `counts` has at that position.
pub open spec fn arrivals(lines: Seq<Seq<char>>, counts: Seq<usize>) -> Seq<RelayEventView> {
    Seq::new(
        lines.len(),
        |i: int| RelayEventView::Read { bytes_read: counts[i], line: lines[i] },
    )
}

/// The bytes of `messages` on the wire, one after the other.
pub open spec fn wire_stream(messages: Seq<MessageView>) -> Seq<u8>
    decreases messages.len(),
{
    if messages.len() == 0 {
        Seq::empty()
    } else {
        wire_stream(messages.drop_last()) + wire_bytes(messages.last())
    }
}

/// The messages that `lines` become when they are read from the network.
pub open spec fn received_all(lines: Seq<Seq<char>>) -> Seq<MessageView> {
    Seq::new(lines.len(), |i: int| received(lines[i]))
}

/// A relay writes the messages that the bus delivers to it in the order of
/// their delivery and with nothing between them: what reaches the socket is
/// the wire form of the first, then that of the second, and so on. The relay
/// is still running after them and has published nothing.
pub proof fn lemma_relay_writes_in_order(messages: Seq<MessageView>)
    ensures
        relay_run(deliveries(messages)).written == wire_stream(messages),
        relay_run(deliveries(messages)).published == Seq::<MessageView>::empty(),
        !relay_run(deliveries(messages)).stopped,
    decreases messages.len(),
{
    if messages.len() > 0 {
        let earlier = deliveries(messages.drop_last());
        let delivered = earlier.push(RelayEventView::Bus(IncomingView::Line(messages.last())));
        lemma_relay_writes_in_order(messages.drop_last());
        assert(delivered.drop_last() =~= earlier);
        assert(deliveries(messages).drop_last() =~= delivered);
        assert(relay_run(deliveries(messages)) == relay_run(delivered));
    }
}

/// A relay publishes the lines that its peer sends in the order in which it
/// read them, each as a message of the network identity, and writes nothing
/// for them. This holds whatever number of bytes each read took, as long as
/// none took zero, which is how the peer closes.
pub proof fn lemma_relay_publishes_in_order(lines: Seq<Seq<char>>, counts: Seq<usize>)
    requires
        counts.len() == lines.len(),
        forall|i: int| 0 <= i < counts.len() ==> counts[i] > 0,
    ensures
        relay_run(arrivals(lines, counts)).published == received_all(lines),
        relay_run(arrivals(lines, counts)).written == Seq::<u8>::empty(),
        !relay_run(arrivals(lines, counts)).stopped,
    decreases lines.len(),
{
    if lines.len() > 0 {
        lemma_relay_publishes_in_order(lines.drop_last(), counts.drop_last());
        assert(arrivals(lines, counts).drop_last() =~= arrivals(
            lines.drop_last(),
            counts.drop_last(),
        ));
    }
}

/// Every relay that is running when a message is delivered to it writes that
/// message, whatever it has done before: under one host each peer gets each
/// line. A relay that lagged by `skipped` lines writes nothing for the lines
/// it lost, and goes on.
pub proof fn lemma_fan_out(
    histories: Seq<Seq<RelayEventView>>,
    message: MessageView,
    skipped: u64,
)
    ensures
        forall|i: int|
            #![trigger histories[i]]
            0 <= i < histories.len() && !relay_run(histories[i]).stopped ==> {
                let after = relay_run(
                    histories[i].push(RelayEventView::Bus(IncomingView::Line(message))),
                );
                &&& after.written == relay_run(histories[i]).written + wire_bytes(message)
                &&& after.published == relay_run(histories[i]).published
                &&& !after.stopped
            },
        forall|i: int|
            #![trigger histories[i]]
            0 <= i < histories.len() ==> relay_run(
                histories[i].push(RelayEventView::Bus(IncomingView::Lagged(skipped))),
            ) == relay_run(histories[i]),
{
    assert forall|i: int|
        #![trigger histories[i]]
        0 <= i < histories.len() && !relay_run(histories[i]).stopped implies {
        let after = relay_run(histories[i].push(RelayEventView::Bus(IncomingView::Line(message))));
        &&& after.written == relay_run(histories[i]).written + wire_bytes(message)
        &&& after.published == relay_run(histories[i]).published
        &&& !after.stopped
    } by {
        let longer = histories[i].push(RelayEventView::Bus(IncomingView::Line(message)));
        assert(longer.drop_last() =~= histories[i]);
    }
    assert forall|i: int|
        #![trigger histories[i]]
        0 <= i < histories.len() implies relay_run(
        histories[i].push(RelayEventView::Bus(IncomingView::Lagged(skipped))),
    ) == relay_run(histories[i]) by {
        let longer = histories[i].push(RelayEventView::Bus(IncomingView::Lagged(skipped)));
        assert(longer.drop_last() =~= histories[i]);
    }
}

} // verus!
