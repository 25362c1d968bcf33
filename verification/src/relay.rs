//! The decisions of the two loops that sit between the server and the chat
//! window: the receiving loop, which reads frames from the server, and the
//! sending loop, which writes the frames queued for the server.

use vstd::prelude::*;
use vstd::utf8::*;
use crate::frame::{Frame, FrameView, Opcode, close_frame, pong_frame, text_frame};
use crate::text::str_from_utf8;
use crate::chat::{ChatView, end_frame_messages};

verus! {

broadcast use vstd::utf8::encode_utf8_decode_utf8, vstd::utf8::encode_utf8_valid_utf8;

/// What the receiving loop does with one result of reading from the server.
#[derive(Debug)]
pub enum ReceiveAction {
    /// Hand the decoded text to the chat window and keep receiving.
    Deliver(String),
    /// Queue the frame for the sending loop; keep receiving if that succeeds
    /// and stop if the sending loop is gone.
    Answer(Frame),
    /// Queue a close frame for the sending loop, whatever becomes of it, and
    /// stop receiving.
    CloseAndStop,
    /// Stop receiving without queueing anything: the payload was not UTF-8.
    Stop,
}

/// The model of a [`ReceiveAction`].
pub enum ReceiveActionView {
    Deliver(Seq<char>),
    Answer(FrameView),
    CloseAndStop,
    Stop,
}

impl View for ReceiveAction {
    type V = ReceiveActionView;

    open spec fn view(&self) -> ReceiveActionView {
        match self {
            ReceiveAction::Deliver(text) => ReceiveActionView::Deliver(text@),
            ReceiveAction::Answer(frame) => ReceiveActionView::Answer(frame@),
            ReceiveAction::CloseAndStop => ReceiveActionView::CloseAndStop,
            ReceiveAction::Stop => ReceiveActionView::Stop,
        }
    }
}

/// The receiving loop's rule. `None` stands for a failed read.
/// A failed read or a close frame ends the loop after a close frame has been
/// queued; a ping is answered by a pong with the same payload; any other frame
/// is read as UTF-8 text for the window.
pub open spec fn receive_decision(incoming: Option<FrameView>) -> ReceiveActionView {
    match incoming {
        None => ReceiveActionView::CloseAndStop,
        Some(frame) => if frame.opcode == Opcode::Close {
            ReceiveActionView::CloseAndStop
        } else if frame.opcode == Opcode::Ping {
            ReceiveActionView::Answer(pong_frame(frame.payload))
        } else if valid_utf8(frame.payload) {
            ReceiveActionView::Deliver(decode_utf8(frame.payload))
        } else {
            ReceiveActionView::Stop
        },
    }
}

/// Decides what the receiving loop does with what it read; `None` is a failed
/// read.
pub fn on_incoming(incoming: Option<Frame>) -> (action: ReceiveAction)
    ensures
        action@ == receive_decision(
            match incoming {
                Some(f) => Some(f@),
                None => None,
            },
        ),
{
    match incoming {
        None => ReceiveAction::CloseAndStop,
        Some(frame) => match frame.opcode {
            Opcode::Close => ReceiveAction::CloseAndStop,
            Opcode::Ping => ReceiveAction::Answer(Frame::pong(frame.payload)),
            _ => match str_from_utf8(frame.payload.as_slice()) {
                Some(text) => ReceiveAction::Deliver(text.to_owned()),
                None => ReceiveAction::Stop,
            },
        },
    }
}

/// What the sending loop does with the next frame taken from its queue.
#[derive(Debug)]
pub enum SendAction {
    /// Send the frame to the server and go on.
    Send(Frame),
    /// Send the frame to the server, whatever the outcome, and stop.
    SendAndStop(Frame),
    /// Stop: the queue is closed.
    Stop,
}

/// The model of a [`SendAction`].
pub enum SendActionView {
    Send(FrameView),
    SendAndStop(FrameView),
    Stop,
}

impl View for SendAction {
    type V = SendActionView;

    open spec fn view(&self) -> SendActionView {
        match self {
            SendAction::Send(frame) => SendActionView::Send(frame@),
            SendAction::SendAndStop(frame) => SendActionView::SendAndStop(frame@),
            SendAction::Stop => SendActionView::Stop,
        }
    }
}

/// The sending loop's rule. `None` stands for a closed queue.
/// A close frame is the last frame sent; any other frame is sent and the loop
/// goes on.
pub open spec fn send_decision(queued: Option<FrameView>) -> SendActionView {
    match queued {
        None => SendActionView::Stop,
        Some(frame) => if frame.opcode == Opcode::Close {
            SendActionView::SendAndStop(frame)
        } else {
            SendActionView::Send(frame)
        },
    }
}

/// Decides what the sending loop does with the next frame of its queue;
/// `None` is a closed queue.
pub fn on_queued(queued: Option<Frame>) -> (action: SendAction)
    ensures
        action@ == send_decision(
            match queued {
                Some(f) => Some(f@),
                None => None,
            },
        ),
{
    match queued {
        None => SendAction::Stop,
        Some(frame) => match frame.opcode {
            Opcode::Close => SendAction::SendAndStop(frame),
            _ => SendAction::Send(frame),
        },
    }
}

/// What the sending loop does once a [`SendAction::Send`] has been tried:
/// `None` to go on after a success, and after a failure the close frame to
/// send, whatever its outcome, before stopping.
pub fn after_send(sent: bool) -> (last: Option<Frame>)
    ensures
        sent ==> last is None,
        !sent ==> (last matches Some(f) && f@ == close_frame()),
        !sent ==> (last matches Some(f) && f.opcode == Opcode::Close && f.payload@.len() == 0),
{
    if sent {
        None
    } else {
        Some(Frame::close())
    }
}

/// A text frame built by this library is delivered as the same text: the
/// receiving loop decodes exactly what [`Frame::text`] encoded.
pub proof fn lemma_text_frame_delivered(text: Seq<char>)
    ensures
        receive_decision(Some(text_frame(text))) == ReceiveActionView::Deliver(text),
{
}

/// What the window queues at the end of a frame goes out as it is: the
/// sending loop sends each of those frames unchanged and goes on, and a
/// receiving loop reading one of them delivers the text it was made from.
pub proof fn lemma_window_frames_go_out(window: ChatView, i: int)
    requires
        0 <= i < end_frame_messages(window).len(),
    ensures
        send_decision(Some(end_frame_messages(window)[i])) == SendActionView::Send(
            end_frame_messages(window)[i],
        ),
        receive_decision(Some(end_frame_messages(window)[i])) is Deliver,
{
    let sent = end_frame_messages(window);
    crate::chat::lemma_end_frame_frames_are_text(window, i);
}

/// A ping is answered by a pong carrying the same payload, and the sending
/// loop sends that pong and goes on.
pub proof fn lemma_ping_answered(payload: Seq<u8>)
    ensures
        receive_decision(Some(FrameView { opcode: Opcode::Ping, payload })) == ReceiveActionView::Answer(
            FrameView { opcode: Opcode::Pong, payload },
        ),
        send_decision(Some(FrameView { opcode: Opcode::Pong, payload })) == SendActionView::Send(
            FrameView { opcode: Opcode::Pong, payload },
        ),
{
}

/// Every frame that is neither a close nor a ping (text, binary and pong
/// frames alike) is read as UTF-8: a payload that encodes a text is
/// delivered as exactly that text.
pub proof fn lemma_data_frames_read_as_utf8(opcode: Opcode, text: Seq<char>)
    requires
        opcode != Opcode::Close,
        opcode != Opcode::Ping,
    ensures
        receive_decision(Some(FrameView { opcode, payload: encode_utf8(text) }))
            == ReceiveActionView::Deliver(text),
{
}

/// A frame that is neither a close nor a ping is delivered exactly when its
/// payload is UTF-8, as the characters that payload encodes; otherwise the
/// receiving loop stops.
pub proof fn lemma_data_frame_decision(opcode: Opcode, payload: Seq<u8>)
    requires
        opcode != Opcode::Close,
        opcode != Opcode::Ping,
    ensures
        valid_utf8(payload) ==> receive_decision(Some(FrameView { opcode, payload }))
            == ReceiveActionView::Deliver(decode_utf8(payload)),
        !valid_utf8(payload) ==> receive_decision(Some(FrameView { opcode, payload }))
            == ReceiveActionView::Stop,
{
}

/// A close frame from the server, whatever its payload, and a failed read
/// both end the receiving loop with a close handed to the sending loop.
pub proof fn lemma_close_or_error_closes(payload: Seq<u8>)
    ensures
        receive_decision(Some(FrameView { opcode: Opcode::Close, payload }))
            == ReceiveActionView::CloseAndStop,
        receive_decision(None) == ReceiveActionView::CloseAndStop,
        send_decision(None) == SendActionView::Stop,
{
}

/// A failed read or a close frame from the server ends the receiving loop,
/// and the close frame it queues is the last frame the sending loop sends.
pub proof fn lemma_close_ends_both_loops(incoming: Option<FrameView>)
    requires
        incoming is None || incoming->0.opcode == Opcode::Close,
    ensures
        receive_decision(incoming) == ReceiveActionView::CloseAndStop,
        send_decision(Some(close_frame())) == SendActionView::SendAndStop(close_frame()),
{
}

/// The receiving loop stops only on a failed read, a close frame or a payload
/// that is not UTF-8; every other frame is answered or delivered.
pub proof fn lemma_receiver_goes_on(frame: FrameView)
    requires
        frame.opcode != Opcode::Close,
        frame.opcode == Opcode::Ping || valid_utf8(frame.payload),
    ensures
        receive_decision(Some(frame)) is Answer || receive_decision(Some(frame)) is Deliver,
{
}

/// The sending loop sends every frame unchanged, and stops right after a
/// close frame and only then (or when its queue is closed).
pub proof fn lemma_sender_forwards_unchanged(frame: FrameView)
    ensures
        frame.opcode == Opcode::Close ==> send_decision(Some(frame)) == SendActionView::SendAndStop(
            frame,
        ),
        frame.opcode != Opcode::Close ==> send_decision(Some(frame)) == SendActionView::Send(frame),
{
}

} // verus!
