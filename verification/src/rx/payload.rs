//! A received frame.

use vstd::prelude::*;
use vstd::slice::slice_subrange;
use crate::common::Status;

verus! {

/// A snapshot of one received frame.
#[derive(Clone, Copy, Debug, PartialEq, Eq)]
pub struct Payload {
    /// Length of the payload.
    len: usize,
    /// Status of the device when the Payload was read.
    pub status: Status,
    /// Raw data of the payload.
    data: [u8; 32],
}

impl Payload {
    /// The length that the device declared for the frame.
    pub closed spec fn declared(self) -> nat {
        self.len as nat
    }

    /// The status that came with the frame.
    pub closed spec fn seen(self) -> Status {
        self.status
    }

    /// The 32 bytes that were drained.
    pub closed spec fn bytes(self) -> Seq<u8> {
        self.data@
    }

    /// Builds the payload from the declared length and the 33 raw bytes of the
    /// drain exchange: the first is the status, the other 32 are the data.
    pub fn new(len: u8, raw: &[u8; 33]) -> (payload: Payload)
        ensures
            payload.declared() == len,
            payload.seen() == Status(raw@[0]),
            payload.bytes() == raw@.subrange(1, 33),
            payload.bytes().len() == 32,
    {
        let mut data: [u8; 32] = [0u8; 32];
        let mut i: usize = 0;
        while i < 32
            invariant
                i <= 32,
                forall|k: int| 0 <= k < i ==> data@[k] == raw@[k + 1],
            decreases 32 - i,
        {
            data[i] = raw[i + 1];
            i += 1;
        }
        assert(data@ =~= raw@.subrange(1, 33));
        Payload { len: len as usize, status: Status(raw[0]), data }
    }

    /// Returns the declared length.
    pub fn len(&self) -> (len: usize)
        ensures
            len == self.declared(),
    {
        self.len
    }

    /// Returns a view into the payload: its first `len` bytes.
    pub fn view(&self) -> (out: &[u8])
        requires
            self.declared() <= 32,
        ensures
            out@ == self.bytes().take(self.declared() as int),
    {
        let out = slice_subrange(&self.data, 0, self.len);
        assert(out@ =~= self.bytes().take(self.declared() as int));
        out
    }
}

} // verus!
