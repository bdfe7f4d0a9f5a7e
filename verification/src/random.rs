//! The randomness capability of the handshake.
//!
//! The handshake needs exactly one operation: fill a byte region with
//! random data.  A build selects one implementation at configuration
//! time and never mixes two: a hardware-backed generator lives with
//! the embedding, outside the library; the deterministic counter-based
//! stand-in below serves controlled testing and debugging.

use vstd::prelude::*;

verus! {

/// The capability "produce cryptographically-labeled random bytes".
pub trait RandomSource {
    /// Overwrites every byte of `dest`, keeping its length.
    fn fill_bytes(&mut self, dest: &mut Vec<u8>)
        ensures
            final(dest)@.len() == old(dest)@.len(),
    ;
}

/// The byte the deterministic stand-in yields `offset` draws after its
/// counter stood at `start`: the counter itself, wrapping at 256.
pub open spec fn counter_byte(start: u8, offset: int) -> u8 {
    ((start + offset) % 256) as u8
}

/// The deterministic counter-based stand-in for the hardware
/// generator: it yields the byte sequence `counter, counter + 1, ...`,
/// wrapping at 256.  Its draws carry no secrecy at all; it exists only
/// so a controlled run reproduces exactly.
pub struct CounterRandom {
    /// The next byte to yield.
    pub counter: u8,
}

impl CounterRandom {
    pub fn new(seed: u8) -> (r: CounterRandom)
        ensures
            r == (CounterRandom { counter: seed }),
    {
        CounterRandom { counter: seed }
    }
}

impl RandomSource for CounterRandom {
    fn fill_bytes(&mut self, dest: &mut Vec<u8>)
        ensures
            final(dest)@.len() == old(dest)@.len(),
            forall|j: int|
                0 <= j < old(dest)@.len() ==> final(dest)@[j] == counter_byte(
                    old(self).counter,
                    j,
                ),
            final(self).counter == counter_byte(old(self).counter, old(dest)@.len() as int),
    {
        let n = dest.len();
        let mut i: usize = 0;
        while i < n
            invariant
                i <= n,
                dest@.len() == n,
                n == old(dest)@.len(),
                self.counter == counter_byte(old(self).counter, i as int),
                forall|j: int| 0 <= j < i ==> dest@[j] == counter_byte(old(self).counter, j),
            decreases n - i,
        {
            dest.set(i, self.counter);
            self.counter = if self.counter == 255 {
                0
            } else {
                self.counter + 1
            };
            i = i + 1;
        }
    }
}

} // verus!
