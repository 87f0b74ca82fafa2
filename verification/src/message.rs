//! One chat line, its encoding on the wire, and the framed encoding.

use crate::user::Color;
use crate::user::NETWORK_USER_ID;
use vstd::prelude::*;
use vstd::slice::slice_subrange;
use vstd::slice::slice_to_vec;
use vstd::string::StrSliceExecFns;
use vstd::utf8::decode_utf8;
use vstd::utf8::encode_utf8;
use vstd::utf8::valid_utf8;

verus! {

/// One chat line with its attribution.
#[derive(Debug)]
pub struct Message {
    pub user_id: usize,
    pub content: String,
    pub color: Color,
}

/// What a `Message` holds, as plain values.
pub struct MessageView {
    pub user_id: usize,
    pub content: Seq<char>,
    pub color: Color,
}

impl View for Message {
    type V = MessageView;

    open spec fn view(&self) -> MessageView {
        MessageView { user_id: self.user_id, content: self.content@, color: self.color }
    }
}

impl Clone for Message {
    fn clone(&self) -> (copy: Message)
        ensures
            copy == *self,
    {
        Message { user_id: self.user_id, content: self.content.clone(), color: self.color }
    }
}

/// Why a frame could not be decoded.
#[derive(Clone, Copy, Debug, PartialEq, Eq, Structural)]
pub enum DecodeError {
    /// The bytes end before the frame does.
    Insufficient,
    /// The frame is complete, but its content is not UTF-8 or its user
    /// identity does not fit this machine.
    Malformed,
}

/// The message that `user_id` wrote.
pub open spec fn authored(user_id: usize, content: Seq<char>) -> MessageView {
    MessageView { user_id, content, color: Color::LightYellow }
}

/// The message that a line read from the network becomes.
pub open spec fn received(line: Seq<char>) -> MessageView {
    authored(NETWORK_USER_ID, line)
}

/// The bytes that carry a message over a connection: its content in UTF-8,
/// with nothing before or after it.
pub open spec fn wire_bytes(message: MessageView) -> Seq<u8> {
    encode_utf8(message.content)
}

/// The number that `bytes` spell in base 256, most significant byte first.
pub open spec fn big_endian(bytes: Seq<u8>) -> nat
    decreases bytes.len(),
{
    if bytes.len() == 0 {
        0
    } else {
        big_endian(bytes.drop_last()) * 256 + bytes.last() as nat
    }
}

/// The length of a frame's header: eight bytes of user identity and two of
/// content length.
pub const FRAME_HEADER_LEN: usize = 10;

/// The user identity that the header of `data` gives.
pub open spec fn frame_user_id(data: Seq<u8>) -> nat {
    big_endian(data.subrange(0, 8))
}

/// The content length that the header of `data` gives.
pub open spec fn frame_content_len(data: Seq<u8>) -> nat {
    big_endian(data.subrange(8, 10))
}

/// Whether `data` holds a header and all the content that it announces.
pub open spec fn frame_is_complete(data: Seq<u8>) -> bool {
    data.len() >= 10 && data.len() >= 10 + frame_content_len(data)
}

/// The content bytes of the frame at the start of `data`.
pub open spec fn frame_content(data: Seq<u8>) -> Seq<u8> {
    data.subrange(10, 10 + frame_content_len(data) as int)
}

/// The message that the frame at the start of `data` holds. A frame is a user
/// identity in eight bytes, a content length in two, both most significant
/// byte first, and then that many bytes of UTF-8; what follows the frame is
/// not read.
pub open spec fn decode_frame(data: Seq<u8>) -> Result<MessageView, DecodeError> {
    if !frame_is_complete(data) {
        Err(DecodeError::Insufficient)
    } else if frame_user_id(data) > usize::MAX || !valid_utf8(frame_content(data)) {
        Err(DecodeError::Malformed)
    } else {
        Ok(authored(frame_user_id(data) as usize, decode_utf8(frame_content(data))))
    }
}

/// At most eight bytes spell a number that fits 64 bits.
proof fn lemma_big_endian_bound(bytes: Seq<u8>)
    requires
        bytes.len() <= 8,
    ensures
        bytes.len() == 0 ==> big_endian(bytes) == 0,
        bytes.len() == 1 ==> big_endian(bytes) < 0x100,
        bytes.len() == 2 ==> big_endian(bytes) < 0x1_0000,
        bytes.len() == 3 ==> big_endian(bytes) < 0x100_0000,
        bytes.len() == 4 ==> big_endian(bytes) < 0x1_0000_0000,
        bytes.len() == 5 ==> big_endian(bytes) < 0x100_0000_0000,
        bytes.len() == 6 ==> big_endian(bytes) < 0x1_0000_0000_0000,
        bytes.len() == 7 ==> big_endian(bytes) < 0x100_0000_0000_0000,
        bytes.len() == 8 ==> big_endian(bytes) < 0x1_0000_0000_0000_0000,
    decreases bytes.len(),
{
    if bytes.len() > 0 {
        lemma_big_endian_bound(bytes.drop_last());
    }
}

/// Reads up to eight bytes as one number, most significant byte first.
fn read_big_endian(bytes: &[u8]) -> (value: u64)
    requires
        bytes@.len() <= 8,
    ensures
        value == big_endian(bytes@),
{
    let mut value: u64 = 0;
    let mut i: usize = 0;
    while i < bytes.len()
        invariant
            i <= bytes@.len() <= 8,
            value == big_endian(bytes@.take(i as int)),
        decreases bytes@.len() - i,
    {
        proof {
            lemma_big_endian_bound(bytes@.take(i as int));
            assert(bytes@.take(i + 1).drop_last() =~= bytes@.take(i as int));
        }
        value = value * 256 + bytes[i] as u64;
        i += 1;
    }
    assert(bytes@.take(i as int) =~= bytes@);
    value
}

/// `String::from_utf8`: the text that `bytes` encode where they are
/// well-formed UTF-8, and nothing where they are not.
#[verifier::external_body]
fn text_from_utf8(bytes: Vec<u8>) -> (text: Option<String>)
    ensures
        text is Some <==> valid_utf8(bytes@),
        text matches Some(t) ==> t@ == decode_utf8(bytes@),
{
    String::from_utf8(bytes).ok()
}

impl Message {
    /// A message that `user_id` wrote.
    pub fn new(user_id: usize, content: String) -> (message: Message)
        ensures
            message@ == authored(user_id, content@),
    {
        Message { user_id, content, color: Color::LightYellow }
    }

    /// The message that a line read from the network becomes.
    pub fn from_line(line: String) -> (message: Message)
        ensures
            message@ == received(line@),
    {
        Message::new(NETWORK_USER_ID, line)
    }

    /// The bytes that carry this message over a connection.
    pub fn as_bytes(&self) -> (bytes: Vec<u8>)
        ensures
            bytes@ == wire_bytes(self@),
    {
        self.content.as_str().as_bytes_vec()
    }

    /// Decodes the frame at the start of `data`.
    pub fn from_bytes(data: &[u8]) -> (decoded: Result<Message, DecodeError>)
        ensures
            match decoded {
                Ok(message) => decode_frame(data@) == Ok::<MessageView, DecodeError>(message@),
                Err(e) => decode_frame(data@) == Err::<MessageView, DecodeError>(e),
            },
    {
        if data.len() < FRAME_HEADER_LEN {
            return Err(DecodeError::Insufficient);
        }
        let user_id = read_big_endian(slice_subrange(data, 0, 8));
        let content_len = read_big_endian(slice_subrange(data, 8, 10));
        proof {
            lemma_big_endian_bound(data@.subrange(8, 10));
        }
        if data.len() - FRAME_HEADER_LEN < content_len as usize {
            return Err(DecodeError::Insufficient);
        }
        if user_id > usize::MAX as u64 {
            return Err(DecodeError::Malformed);
        }
        let content = slice_to_vec(slice_subrange(data, 10, 10 + content_len as usize));
        match text_from_utf8(content) {
            Some(text) => Ok(Message::new(user_id as usize, text)),
            None => Err(DecodeError::Malformed),
        }
    }
}

} // verus!
