pub mod framing;
mod mock;
pub mod usb;
mod transport;

pub use mock::MockTransport;
pub use transport::{Transport, TransportError};
pub use framing::IncomingPacket;
