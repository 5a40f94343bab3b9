//! The framing protocol of WebSockets over an ordered stream of bytes, for
//! either end of a connection: frames that arrive are checked, unmasked and
//! put together into messages; messages to send are written as frames.
//! The library computes; the caller reads and writes the connection.

use vstd::prelude::*;

pub mod error;
pub mod web_socket;

pub use error::{BadFrame, Error, SendError, Utf8Context};
pub use web_socket::frame::MaskDirection;
pub use web_socket::frame_receiver::FrameReceiver;
pub use web_socket::frame_sender::FrameSender;
pub use web_socket::message::{SinkMessage, StreamMessage};
pub use web_socket::{ConnectionState, WebSocket};

verus! {

/// The sending half of a connection: owned on its own, and free to move to
/// the task that writes frames.  That bytes can be written to it is asked
/// for where they are written.
pub trait ConnectionTx: Send + Unpin + 'static {}

impl<T: Send + Unpin + 'static> ConnectionTx for T {}

/// The receiving half of a connection: owned on its own, and free to move
/// to the task that reads frames.  That bytes can be read from it is asked
/// for where they are read.
pub trait ConnectionRx: Send + Unpin + 'static {}

impl<T: Send + Unpin + 'static> ConnectionRx for T {}

} // verus!
