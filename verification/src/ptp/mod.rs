pub mod bytes;
pub mod footprint;
pub mod fuji;
pub mod laws;
pub mod name;
pub mod plan;
pub mod readback;
pub mod session;
pub mod tables;
pub mod text;
pub mod wire;

pub use fuji::{FujiPtp, FujiPtpError};
pub use plan::{PRESET_BLOCK_END, PRESET_BLOCK_START, PROP_SLOT_CURSOR, PROP_SLOT_NAME};
pub use session::{
    PtpProtocolError, PtpSession, PtpSessionError, GET_DEVICE_PROP_VALUE, SET_DEVICE_PROP_VALUE,
};
