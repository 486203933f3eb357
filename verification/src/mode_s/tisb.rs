//! TIS-B messages: what a ground station reports of traffic that it sees.

use vstd::prelude::*;
use bytes::Bytes;
use crate::buffer::array7;
use crate::buffer::read7;
use crate::buffer::unread;

verus! {

/// A TIS-B message, as the seven bytes of its ME field.
#[derive(Clone, Copy, Debug, PartialEq, Eq)]
pub struct Message {
    pub data: [u8; 7],
}

impl Message {
    /// Reads the seven bytes of an ME field from `buffer`.
    pub fn decode(buffer: &mut Bytes) -> (r: Self)
        requires
            unread(*old(buffer)).len() >= 7,
        ensures
            r == (Message { data: array7(unread(*old(buffer))) }),
            unread(*final(buffer)) == unread(*old(buffer)).skip(7),
    {
        Message { data: read7(buffer) }
    }
}

} // verus!
