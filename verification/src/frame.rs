//! WebSocket frames as the chat client sees them: an opcode and a payload.

use vstd::prelude::*;
use vstd::utf8::*;

verus! {

/// The kind of a WebSocket frame.
#[derive(Clone, Copy, Debug, PartialEq, Eq, Structural)]
pub enum Opcode {
    Text,
    Binary,
    Close,
    Ping,
    Pong,
}

/// The mathematical model of a [`Frame`].
pub struct FrameView {
    pub opcode: Opcode,
    pub payload: Seq<u8>,
}

/// A frame received from, or to be sent to, the server.
#[derive(Debug)]
pub struct Frame {
    pub opcode: Opcode,
    pub payload: Vec<u8>,
}

impl View for Frame {
    type V = FrameView;

    open spec fn view(&self) -> FrameView {
        FrameView { opcode: self.opcode, payload: self.payload@ }
    }
}

/// A text frame carries the UTF-8 encoding of its text.
pub open spec fn text_frame(text: Seq<char>) -> FrameView {
    FrameView { opcode: Opcode::Text, payload: encode_utf8(text) }
}

/// A close frame carries no payload.
pub open spec fn close_frame() -> FrameView {
    FrameView { opcode: Opcode::Close, payload: Seq::empty() }
}

/// A pong frame carries the payload it is given.
pub open spec fn pong_frame(payload: Seq<u8>) -> FrameView {
    FrameView { opcode: Opcode::Pong, payload }
}

impl Frame {
    /// A text frame holding `text`.
    pub fn text(text: &str) -> (frame: Frame)
        ensures
            frame@ == text_frame(text@),
            frame.opcode == Opcode::Text,
            frame.payload@ == encode_utf8(text@),
    {
        Frame { opcode: Opcode::Text, payload: vstd::slice::slice_to_vec(text.as_bytes()) }
    }

    /// A close frame.
    pub fn close() -> (frame: Frame)
        ensures
            frame@ == close_frame(),
            frame.opcode == Opcode::Close,
            frame.payload@.len() == 0,
    {
        Frame { opcode: Opcode::Close, payload: Vec::new() }
    }

    /// A pong frame echoing `payload`.
    pub fn pong(payload: Vec<u8>) -> (frame: Frame)
        ensures
            frame@ == pong_frame(payload@),
            frame.opcode == Opcode::Pong,
            frame.payload@ == payload@,
    {
        Frame { opcode: Opcode::Pong, payload }
    }
}

/// A frame built from a text is a text frame, whatever the text, and its
/// payload reads back as exactly that text.
pub proof fn lemma_text_frame_is_text(text: Seq<char>)
    ensures
        text_frame(text).opcode == Opcode::Text,
        valid_utf8(text_frame(text).payload),
        decode_utf8(text_frame(text).payload) == text,
{
    vstd::utf8::encode_utf8_valid_utf8(text);
    vstd::utf8::encode_utf8_decode_utf8(text);
}

/// A pong frame carries exactly the payload it is given, whatever its length.
pub proof fn lemma_pong_frame_echoes(payload: Seq<u8>)
    ensures
        pong_frame(payload).opcode == Opcode::Pong,
        pong_frame(payload).payload == payload,
        pong_frame(payload).payload.len() == payload.len(),
{
}

/// A close frame is a close frame with an empty payload.
pub proof fn lemma_close_frame_is_empty()
    ensures
        close_frame().opcode == Opcode::Close,
        close_frame().payload.len() == 0,
{
}

} // verus!
