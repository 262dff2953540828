//! The link to the camera.
use vstd::prelude::*;

verus! {

/// Failure of the physical link under a PTP session.
#[derive(Debug, Clone, Copy, PartialEq, Eq, Structural)]
pub enum TransportError {
    ConnectionError,
    SendError,
    ReceiveError,
}

/// The only point where the library touches the hardware: a packet link to the camera,
/// which users of the library implement for their platform.
///
/// Nothing is assumed of what an implementation does: a session records, in its own ghost
/// state, each packet that `send` accepted and each packet that `receive` delivered, and
/// states its contracts over those records.
pub trait Transport {
    /// Sends one packet.
    fn send(&mut self, data: &[u8]) -> Result<(), TransportError>;

    /// Receives one packet.
    fn receive(&mut self) -> Result<Vec<u8>, TransportError>;
}

} // verus!
