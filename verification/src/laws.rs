//! What holds between the session and the relay of a connection.

use crate::message::wire_bytes;
use crate::message::MessageView;
use crate::relay::deliveries;
use crate::relay::lemma_relay_writes_in_order;
use crate::relay::relay_run;
use crate::relay::wire_stream;
use crate::session::outgoing;
use vstd::prelude::*;
use vstd::utf8::encode_utf8;

verus! {

/// The byte that ends a line on the wire.
pub const NEWLINE: u8 = 0x0A;

/// `texts` as lines on the wire: each text in UTF-8 with a newline after it,
/// one line after the other.
pub open spec fn line_stream(texts: Seq<Seq<char>>) -> Seq<u8>
    decreases texts.len(),
{
    if texts.len() == 0 {
        Seq::empty()
    } else {
        line_stream(texts.drop_last()) + encode_utf8(texts.last()) + seq![NEWLINE]
    }
}

/// The lines that a session sends for `texts` in the name of `author`.
pub open spec fn outgoing_all(author: usize, texts: Seq<Seq<char>>) -> Seq<MessageView> {
    Seq::new(texts.len(), |i: int| outgoing(author, texts[i]))
}

/// The UTF-8 form of two texts in a row is the form of the first followed by
/// the form of the second.
pub proof fn lemma_encoding_of_concatenation(a: Seq<char>, b: Seq<char>)
    ensures
        encode_utf8(a + b) == encode_utf8(a) + encode_utf8(b),
    decreases a.len(),
{
    if a.len() > 0 {
        lemma_encoding_of_concatenation(a.drop_first(), b);
        assert((a + b).drop_first() =~= a.drop_first() + b);
    }
}

/// A newline is one byte on the wire.
proof fn lemma_newline_is_one_byte()
    ensures
        encode_utf8("\n"@) == seq![NEWLINE],
{
    reveal_strlit("\n");
    let line = "\n"@;
    assert((0x0Au32 & 0x7F) as u8 == 0x0Au8) by (bit_vector);
    assert(encode_utf8(line.drop_first()) =~= Seq::<u8>::empty());
}

/// The line that a session sends for `text` is `text` in UTF-8 and one
/// newline on the wire.
pub proof fn lemma_outgoing_line_ends_with_newline(author: usize, text: Seq<char>)
    ensures
        wire_bytes(outgoing(author, text)) == encode_utf8(text) + seq![NEWLINE],
{
    lemma_encoding_of_concatenation(text, "\n"@);
    lemma_newline_is_one_byte();
}

/// Whether `content` is one line: it ends with a newline and holds no other.
pub open spec fn is_single_line(content: Seq<char>) -> bool {
    &&& content.len() > 0
    &&& content.last() == '\n'
    &&& forall|i: int| 0 <= i < content.len() - 1 ==> content[i] != '\n'
}

/// The line that a session sends for `text` is one line exactly where `text`
/// holds no newline. Nothing escapes a newline in `text`: on the wire it
/// cannot be told from the end of the line.
pub proof fn lemma_outgoing_is_single_line(author: usize, text: Seq<char>)
    ensures
        is_single_line(outgoing(author, text).content) <==> forall|i: int|
            0 <= i < text.len() ==> text[i] != '\n',
{
    reveal_strlit("\n");
    let content = outgoing(author, text).content;
    assert(forall|i: int| 0 <= i < text.len() ==> content[i] == text[i]);
}

/// What a session sends reaches the socket as it was sent: when the bus
/// delivers the lines that a session sent for `texts` to a relay, in the
/// order in which they were sent, what the relay hands to its socket is
/// exactly those texts in that order, each followed by a newline.
pub proof fn lemma_channel_direction(author: usize, texts: Seq<Seq<char>>)
    ensures
        relay_run(deliveries(outgoing_all(author, texts))).written == line_stream(texts),
        !relay_run(deliveries(outgoing_all(author, texts))).stopped,
    decreases texts.len(),
{
    let sent = outgoing_all(author, texts);
    lemma_relay_writes_in_order(sent);
    lemma_stream_of_outgoing(author, texts);
}

/// The wire form of the lines sent for `texts` is `texts` as lines.
proof fn lemma_stream_of_outgoing(author: usize, texts: Seq<Seq<char>>)
    ensures
        wire_stream(outgoing_all(author, texts)) == line_stream(texts),
    decreases texts.len(),
{
    let sent = outgoing_all(author, texts);
    if texts.len() > 0 {
        lemma_stream_of_outgoing(author, texts.drop_last());
        lemma_outgoing_line_ends_with_newline(author, texts.last());
        assert(sent.drop_last() =~= outgoing_all(author, texts.drop_last()));
    }
}

} // verus!
