//! Sizes fixed by the CCID bulk wire format and by this device.

use vstd::prelude::*;

verus! {

/// Length of the header that starts every CCID message.
pub const CCID_HEADER_LEN: usize = 10;

/// Maximum packet size of the bulk endpoints.
pub const PACKET_SIZE: usize = 64;

/// Longest CCID message, header included, that the device reassembles.
pub const MAX_MSG_LENGTH: usize = 3072;

} // verus!
