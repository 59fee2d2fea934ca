//! Device side of the USB CCID (smart-card interface) bulk protocol.
//!
//! The crate holds the packet codec, the reassembly of messages that span several
//! USB packets, and the transaction pipe that sits between the bulk endpoints and
//! an APDU processor reached through an [`interchange`] channel. The pipe performs
//! no USB transfer itself: it queues at most one frame and is told how the write
//! of that frame went.

pub mod buffer;
pub mod channel;
pub mod constants;
pub mod types;
pub mod pipe;
