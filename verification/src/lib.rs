//! Core logic of a small WebSocket chat client: the frames exchanged with the
//! server, the decisions of the sending and receiving loops, the per-frame
//! bookkeeping of the chat window and the layout of its on-screen keyboard.
//!
//! Everything here is plain data and verified decisions; opening the
//! connection, moving frames over the wire and drawing the window are left to
//! the program around the library.

mod text;

pub mod frame;
pub mod relay;
pub mod keyboard;
pub mod chat;
