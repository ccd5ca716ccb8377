//! The connection side of a VNC client, written as verified state machines.
//!
//! A VNC connection is a conversation: a handshake, a loop that reads what the
//! server sends, a pump that carries bytes from the network to that loop, and a
//! loop that writes what the user does. Each of these is a value of this crate
//! that says what is to be done next and takes the answer; reading, writing and
//! waiting are left to the program around it.

pub mod client;
pub mod decoding;
pub mod handshake;
pub mod machine;
pub mod outside;
pub mod rectangle;
pub mod traffic;
pub mod types;

pub use client::{Channels, Handles, VncInner};
pub use decoding::{failure_event, Decoder, ReadAction, ReadInput, ReadLoop, ReadPhase};
pub use handshake::{client_init, Handshake, HandshakeAction, HandshakeInput, ServerInit, Session};
pub use machine::Machine;
pub use outside::{Offered, StopLog};
pub use rectangle::ImageRect;
pub use traffic::{Pump, PumpAction, PumpInput, Traffic, TrafficAction, TrafficInput};
pub use types::{
    ClientKeyEvent, ClientMouseEvent, ClientMsg, IoError, IoErrorKind, Offer, PixelFormat, Polled,
    Rect, Screen, ServerMsg, StopPoll, VncEncoding, VncError, VncEvent, X11Event, CHANNEL_SIZE,
    READ_BUFFER_SIZE,
};
