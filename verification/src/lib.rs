//! Verified core of a user-directory client: request construction and
//! response classification for a remote user service, image normalization,
//! an order-preserving fan-out assembler, and a generation-gated publish
//! mechanism that discards superseded results.

pub mod client;
pub mod fanout;
pub mod gate;
pub mod imaging;
pub mod models;
pub mod viewmodel;
