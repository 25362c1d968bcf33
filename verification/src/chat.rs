//! The state of the chat window between two frames of its event loop: the
//! message being typed, the last reply from the server, and the two requests
//! to send something that the widgets may raise during a frame.

use vstd::prelude::*;
use vstd::utf8::*;
use crate::frame::{Frame, FrameView, Opcode, text_frame};
use crate::keyboard::KeyAction;

verus! {

/// The text sent when the window's `clicked` flag is raised.
pub open spec fn toast_text() -> Seq<char> {
    "This drink... I like it! ANOTHER!"@
}

/// The model of a [`ChatWindow`].
pub struct ChatView {
    pub input: Seq<char>,
    pub reply: Seq<char>,
    pub clicked: bool,
    pub submitted: bool,
}

/// The chat window's state. The widgets read and write these fields while a
/// frame is drawn; [`ChatWindow::end_frame`] then turns the raised flags into
/// frames for the server.
#[derive(Debug)]
pub struct ChatWindow {
    /// The message being typed.
    pub input: String,
    /// The last text received from the server.
    pub reply: String,
    /// Raised when the toast is to be sent.
    pub clicked: bool,
    /// Raised when the message being typed is to be sent.
    pub submitted: bool,
}

impl View for ChatWindow {
    type V = ChatView;

    open spec fn view(&self) -> ChatView {
        ChatView {
            input: self.input@,
            reply: self.reply@,
            clicked: self.clicked,
            submitted: self.submitted,
        }
    }
}

/// The window's state after pressing a keyboard button.
pub open spec fn press_result(window: ChatView, action: KeyAction) -> ChatView {
    match action {
        KeyAction::Insert(c) => ChatView { input: window.input.push(c), ..window },
        KeyAction::Backspace => if window.input.len() == 0 {
            window
        } else {
            ChatView { input: window.input.drop_last(), ..window }
        },
        KeyAction::Submit => ChatView { submitted: true, ..window },
    }
}

/// The window's state after a read of the reply queue: a received text
/// replaces the reply, and nothing received leaves the window as it was.
pub open spec fn receive_result(window: ChatView, received: Option<Seq<char>>) -> ChatView {
    match received {
        Some(text) => ChatView { reply: text, ..window },
        None => window,
    }
}

/// The frames queued for the server at the end of a frame of the event loop:
/// the toast if `clicked` is raised, then the typed message if `submitted` is
/// raised.
pub open spec fn end_frame_messages(window: ChatView) -> Seq<FrameView> {
    (if window.clicked {
        seq![text_frame(toast_text())]
    } else {
        Seq::empty()
    }) + (if window.submitted {
        seq![text_frame(window.input)]
    } else {
        Seq::empty()
    })
}

/// The window's state at the end of a frame of the event loop: both flags are
/// lowered, and a submitted message is cleared.
pub open spec fn end_frame_result(window: ChatView) -> ChatView {
    ChatView {
        input: if window.submitted {
            Seq::empty()
        } else {
            window.input
        },
        reply: window.reply,
        clicked: false,
        submitted: false,
    }
}

impl ChatWindow {
    /// A window with nothing typed, nothing received and no flag raised.
    pub fn new() -> (window: ChatWindow)
        ensures
            window@ == (ChatView {
                input: Seq::empty(),
                reply: Seq::empty(),
                clicked: false,
                submitted: false,
            }),
    {
        ChatWindow { input: String::new(), reply: String::new(), clicked: false, submitted: false }
    }

    /// Applies the press of a keyboard button.
    pub fn press(&mut self, action: KeyAction)
        ensures
            final(self)@ == press_result(old(self)@, action),
    {
        match action {
            KeyAction::Insert(c) => {
                self.input.push(c);
            },
            KeyAction::Backspace => {
                let _ = self.input.pop();
            },
            KeyAction::Submit => {
                self.submitted = true;
            },
        }
    }

    /// Takes in the result of a read of the reply queue; `None` when nothing
    /// was waiting there.
    pub fn receive(&mut self, received: Option<String>)
        ensures
            final(self)@ == receive_result(
                old(self)@,
                match received {
                    Some(t) => Some(t@),
                    None => None,
                },
            ),
    {
        match received {
            Some(text) => {
                self.reply = text;
            },
            None => {},
        }
    }

    /// Ends a frame of the event loop: returns the frames to queue for the
    /// server, in order, and lowers the flags.
    pub fn end_frame(&mut self) -> (outgoing: Vec<Frame>)
        ensures
            outgoing@.map_values(|f: Frame| f@) == end_frame_messages(old(self)@),
            final(self)@ == end_frame_result(old(self)@),
    {
        let mut outgoing: Vec<Frame> = Vec::new();
        let ghost first: Seq<FrameView> = if self.clicked {
            seq![text_frame(toast_text())]
        } else {
            Seq::empty()
        };
        if self.clicked {
            outgoing.push(Frame::text("This drink... I like it! ANOTHER!"));
            self.clicked = false;
        }
        assert(outgoing@.map_values(|f: Frame| f@) =~= first);
        if self.submitted {
            let ghost before = outgoing@;
            outgoing.push(Frame::text(self.input.as_str()));
            assert(outgoing@.map_values(|f: Frame| f@) =~= before.map_values(|f: Frame| f@).push(
                text_frame(old(self)@.input),
            ));
            self.input = String::new();
            self.submitted = false;
        }
        assert(outgoing@.map_values(|f: Frame| f@) =~= end_frame_messages(old(self)@));
        outgoing
    }
}

/// The window's state after pressing the buttons of `actions` in order.
pub open spec fn press_all(window: ChatView, actions: Seq<KeyAction>) -> ChatView
    decreases actions.len(),
{
    if actions.len() == 0 {
        window
    } else {
        press_all(press_result(window, actions[0]), actions.drop_first())
    }
}

/// Typing a text appends it to the message, in order, and touches nothing
/// else; submitting it then sends exactly the message with the text appended.
/// `presses` are the button presses that type `text`, one character each.
pub proof fn lemma_typing_appends(window: ChatView, presses: Seq<KeyAction>, text: Seq<char>)
    requires
        presses.len() == text.len(),
        forall|i: int| 0 <= i < text.len() ==> presses[i] == KeyAction::Insert(#[trigger] text[i]),
    ensures
        press_all(window, presses) == (ChatView { input: window.input + text, ..window }),
        end_frame_messages(press_result(press_all(window, presses), KeyAction::Submit)).last()
            == text_frame(window.input + text),
    decreases text.len(),
{
    if text.len() == 0 {
        assert(window.input + text =~= window.input);
    } else {
        let next = press_result(window, presses[0]);
        assert(presses[0] == KeyAction::Insert(text[0]));
        assert forall|i: int| 0 <= i < text.drop_first().len() implies presses.drop_first()[i]
            == KeyAction::Insert(#[trigger] text.drop_first()[i]) by {
            assert(text.drop_first()[i] == text[i + 1]);
        }
        lemma_typing_appends(next, presses.drop_first(), text.drop_first());
        assert(next.input + text.drop_first() =~= window.input + text);
    }
    lemma_submit_sends_typed_message(press_all(window, presses));
}

/// Backspace undoes the insertion of a character: typing a character and
/// then pressing backspace leaves the window as it was.
pub proof fn lemma_backspace_undoes_insert(window: ChatView, c: char)
    ensures
        press_result(press_result(window, KeyAction::Insert(c)), KeyAction::Backspace) == window,
{
    assert(window.input.push(c).drop_last() =~= window.input);
}

/// Backspace on an empty message changes nothing.
pub proof fn lemma_backspace_on_empty(window: ChatView)
    requires
        window.input.len() == 0,
    ensures
        press_result(window, KeyAction::Backspace) == window,
{
}

/// Submitting sends what was typed: after the submit button, the end of the
/// frame queues a text frame holding the typed message, as the last frame,
/// and clears the message. Without the toast flag it is the only frame.
pub proof fn lemma_submit_sends_typed_message(window: ChatView)
    ensures
        ({
            let pressed = press_result(window, KeyAction::Submit);
            let sent = end_frame_messages(pressed);
            &&& sent.len() >= 1
            &&& sent.last() == text_frame(window.input)
            &&& end_frame_result(pressed).input.len() == 0
            &&& !window.clicked ==> sent == seq![text_frame(window.input)]
        }),
{
    let pressed = press_result(window, KeyAction::Submit);
    if window.clicked {
        assert(end_frame_messages(pressed) =~= seq![text_frame(toast_text()), text_frame(window.input)]);
    } else {
        assert(end_frame_messages(pressed) =~= seq![text_frame(window.input)]);
    }
}

/// The end of a frame settles the window: right after it, another end of
/// frame queues nothing and changes nothing.
pub proof fn lemma_end_frame_settles(window: ChatView)
    ensures
        end_frame_messages(end_frame_result(window)).len() == 0,
        end_frame_result(end_frame_result(window)) == end_frame_result(window),
{
}

/// With no flag raised, the end of a frame queues nothing and leaves the
/// window as it was.
pub proof fn lemma_quiet_frame(window: ChatView)
    requires
        !window.clicked,
        !window.submitted,
    ensures
        end_frame_messages(window).len() == 0,
        end_frame_result(window) == window,
{
}

/// Typing and replies do not meddle with each other: pressing a button never
/// changes the reply shown, a read of the reply queue never changes the
/// message being typed nor the flags, and the end of a frame keeps the reply.
pub proof fn lemma_typing_and_replies_independent(
    window: ChatView,
    action: KeyAction,
    received: Option<Seq<char>>,
)
    ensures
        press_result(window, action).reply == window.reply,
        receive_result(window, received).input == window.input,
        receive_result(window, received).clicked == window.clicked,
        receive_result(window, received).submitted == window.submitted,
        end_frame_result(window).reply == window.reply,
{
}

/// The latest text received is the one shown: of two successive reads that
/// both received something, the second wins, and a read that received
/// nothing keeps what was shown.
pub proof fn lemma_latest_reply_shown(window: ChatView, first: Seq<char>, second: Seq<char>)
    ensures
        receive_result(receive_result(window, Some(first)), Some(second)).reply == second,
        receive_result(receive_result(window, Some(first)), None).reply == first,
{
}

/// The effect of each button on the window, stated for every window: a
/// character button appends its character, backspace drops the last
/// character of a non-empty message, submit raises only the `submitted`
/// flag; no button touches the reply, and only submit touches the flags.
pub proof fn lemma_press_effects(window: ChatView, c: char)
    ensures
        press_result(window, KeyAction::Insert(c)).input == window.input.push(c),
        press_result(window, KeyAction::Insert(c)).input.len() == window.input.len() + 1,
        press_result(window, KeyAction::Insert(c)).input.last() == c,
        press_result(window, KeyAction::Insert(c)).clicked == window.clicked,
        press_result(window, KeyAction::Insert(c)).submitted == window.submitted,
        window.input.len() > 0 ==> press_result(window, KeyAction::Backspace).input
            == window.input.subrange(0, window.input.len() - 1),
        press_result(window, KeyAction::Backspace).clicked == window.clicked,
        press_result(window, KeyAction::Backspace).submitted == window.submitted,
        press_result(window, KeyAction::Submit).submitted,
        press_result(window, KeyAction::Submit).input == window.input,
        press_result(window, KeyAction::Submit).clicked == window.clicked,
        press_result(window, KeyAction::Insert(c)).reply == window.reply,
        press_result(window, KeyAction::Backspace).reply == window.reply,
        press_result(window, KeyAction::Submit).reply == window.reply,
{
}

/// A received text becomes the reply shown, whatever was shown before, and
/// nothing else changes; a read with nothing received changes nothing.
pub proof fn lemma_receive_effects(window: ChatView, text: Seq<char>)
    ensures
        receive_result(window, Some(text)).reply == text,
        receive_result(window, Some(text)).input == window.input,
        receive_result(window, None) == window,
{
}

/// Whenever the toast is requested it is queued, first, as a text frame
/// holding the toast text, whatever the reply and the message being typed;
/// without a submitted message it is the only frame.
pub proof fn lemma_toast_always_sent(window: ChatView)
    requires
        window.clicked,
    ensures
        end_frame_messages(window).len() >= 1,
        end_frame_messages(window)[0] == (FrameView {
            opcode: Opcode::Text,
            payload: encode_utf8("This drink... I like it! ANOTHER!"@),
        }),
        !window.submitted ==> end_frame_messages(window) == seq![
            FrameView {
                opcode: Opcode::Text,
                payload: encode_utf8("This drink... I like it! ANOTHER!"@),
            },
        ],
{
    if !window.submitted {
        assert(end_frame_messages(window) =~= seq![text_frame(toast_text())]);
    }
}

/// What the end of a frame queues and leaves behind, for every window: one
/// frame per raised flag; a submitted message goes out last as a text frame
/// holding its UTF-8 encoding and is then cleared; the flags are lowered; the
/// reply is kept, and a message not submitted is kept.
pub proof fn lemma_end_frame_effects(window: ChatView)
    ensures
        end_frame_messages(window).len() == (if window.clicked { 1int } else { 0int }) + (
        if window.submitted {
            1int
        } else {
            0int
        }),
        window.submitted ==> end_frame_messages(window).last() == (FrameView {
            opcode: Opcode::Text,
            payload: encode_utf8(window.input),
        }),
        !end_frame_result(window).clicked,
        !end_frame_result(window).submitted,
        end_frame_result(window).reply == window.reply,
        window.submitted ==> end_frame_result(window).input.len() == 0,
        !window.submitted ==> end_frame_result(window).input == window.input,
{
}

/// Every frame queued at the end of a frame is a text frame, and its payload
/// reads back as either the toast text or the submitted message.
pub proof fn lemma_end_frame_frames_are_text(window: ChatView, i: int)
    requires
        0 <= i < end_frame_messages(window).len(),
    ensures
        end_frame_messages(window)[i].opcode == Opcode::Text,
        valid_utf8(end_frame_messages(window)[i].payload),
        decode_utf8(end_frame_messages(window)[i].payload) == "This drink... I like it! ANOTHER!"@
            || (window.submitted && decode_utf8(end_frame_messages(window)[i].payload)
            == window.input),
{
    let sent = end_frame_messages(window);
    crate::frame::lemma_text_frame_is_text(toast_text());
    crate::frame::lemma_text_frame_is_text(window.input);
    if window.clicked && window.submitted {
        assert(sent =~= seq![text_frame(toast_text()), text_frame(window.input)]);
    } else if window.clicked {
        assert(sent =~= seq![text_frame(toast_text())]);
    } else if window.submitted {
        assert(sent =~= seq![text_frame(window.input)]);
    }
}

} // verus!
