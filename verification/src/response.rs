//! The response side of the exchange: a fixed-capacity byte region
//! filled by exactly one read, and its decoding as text.
//!
//! A peer may send more than the region holds: the overflow is
//! silently truncated, never an error.  Decoding rejects bytes that
//! are not valid text with [`DecodeError::InvalidText`].

use vstd::prelude::*;
use vstd::utf8::decode_utf8;
use vstd::utf8::valid_utf8;
use crate::errors::DecodeError;

verus! {

/// A fixed-capacity byte region plus the count of bytes a read
/// actually delivered.  Bytes beyond the capacity are never stored.
pub struct ResponseBuffer {
    data: Vec<u8>,
    capacity: usize,
}

impl ResponseBuffer {
    /// The bytes a read actually delivered, in order.
    pub closed spec fn bytes(self) -> Seq<u8> {
        self.data@
    }

    /// The fixed capacity of the region.
    pub closed spec fn capacity(self) -> usize {
        self.capacity
    }

    /// The stored count never passes the capacity.
    pub open spec fn wf(self) -> bool {
        self.bytes().len() <= self.capacity()
    }

    /// An empty region of the given capacity.
    pub fn new(capacity: usize) -> (r: ResponseBuffer)
        ensures
            r.bytes() == Seq::<u8>::empty(),
            r.capacity() == capacity,
            r.wf(),
    {
        ResponseBuffer { data: Vec::new(), capacity }
    }

    /// How many bytes the read actually delivered.
    pub fn actual_length(&self) -> (r: usize)
        ensures
            r == self.bytes().len(),
    {
        self.data.len()
    }

    /// Stores what one read delivered: the incoming bytes up to the
    /// capacity, the rest silently truncated — truncation is not a
    /// failure.  Replaces anything stored before.
    pub fn receive(&mut self, incoming: &[u8])
        requires
            old(self).wf(),
        ensures
            final(self).wf(),
            final(self).capacity() == old(self).capacity(),
            incoming@.len() <= old(self).capacity() ==> final(self).bytes() == incoming@,
            incoming@.len() > old(self).capacity() ==> final(self).bytes() == incoming@.take(
                old(self).capacity() as int,
            ) && final(self).bytes().len() == old(self).capacity(),
    {
        self.data.clear();
        let limit = if incoming.len() < self.capacity {
            incoming.len()
        } else {
            self.capacity
        };
        let mut i: usize = 0;
        while i < limit
            invariant
                i <= limit,
                limit <= incoming@.len(),
                limit <= self.capacity,
                self.capacity == old(self).capacity,
                self.data@ == incoming@.take(i as int),
            decreases limit - i,
        {
            let b = incoming[i];
            self.data.push(b);
            proof {
                assert(incoming@.take(i as int + 1) =~= incoming@.take(i as int).push(
                    incoming@[i as int],
                ));
            }
            i = i + 1;
        }
        proof {
            if incoming@.len() <= self.capacity {
                assert(incoming@.take(limit as int) =~= incoming@);
            }
        }
    }

    /// Decodes the stored bytes as text.  Succeeds exactly when they
    /// are a valid encoding; anything else is `InvalidText`, never a
    /// crash.
    pub fn decode(&self) -> (r: Result<String, DecodeError>)
        ensures
            r is Ok <==> valid_utf8(self.bytes()),
            r matches Ok(s) ==> s@ == decode_utf8(self.bytes()),
            r matches Err(e) ==> e == DecodeError::InvalidText,
    {
        match bytes_to_text(self.data.as_slice()) {
            Some(s) => Ok(s),
            None => Err(DecodeError::InvalidText),
        }
    }
}

/// Relies on `core::str::from_utf8`: it succeeds exactly on input that
/// is valid UTF-8, and then yields the characters those bytes encode.
#[verifier::external_body]
fn bytes_to_text(bytes: &[u8]) -> (r: Option<String>)
    ensures
        r is Some <==> valid_utf8(bytes@),
        r matches Some(s) ==> s@ == decode_utf8(bytes@),
{
    match core::str::from_utf8(bytes) {
        Ok(s) => Some(s.to_owned()),
        Err(_) => None,
    }
}

} // verus!
