//! The frame: one message of the bus.

use vstd::prelude::*;

verus! {

/// One message of the bus: the arbitration identifier, flag bits included,
/// and the payload bytes as they were received.
#[derive(Debug)]
pub struct Frame {
    /// 32 bit identifier, with the EFF/RTR/ERR flags.
    id: u32,
    /// The payload.
    data: Vec<u8>,
}

/// What a [`Frame`] holds, as mathematical values.
pub struct FrameView {
    pub id: u32,
    pub data: Seq<u8>,
}

impl View for Frame {
    type V = FrameView;

    closed spec fn view(&self) -> FrameView {
        FrameView { id: self.id, data: self.data@ }
    }
}

impl Frame {
    /// A frame with this identifier and payload. The payload's length is
    /// not limited.
    pub fn new(id: u32, data: Vec<u8>) -> (frame: Frame)
        ensures
            frame@.id == id,
            frame@.data == data@,
    {
        Frame { id, data }
    }

    /// The identifier, flag bits included.
    pub fn id(&self) -> (id: u32)
        ensures
            id == self@.id,
    {
        self.id
    }

    /// The payload bytes.
    pub fn data(&self) -> (data: &[u8])
        ensures
            data@ == self@.data,
    {
        self.data.as_slice()
    }
}

} // verus!
