//! Reading and writing the Custom Recipes (C1-C7) of Fujifilm cameras over PTP.
//!
//! The library is independent of the physical link: everything it exchanges with the
//! camera goes through the [`transport::Transport`] trait.

pub mod transport;
pub mod ptp;
pub mod recipe;
pub mod bridge;
pub mod client;
