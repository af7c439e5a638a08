use vstd::prelude::*;

use crate::error::CounterError;

verus! {

/// Length in bytes of an encoded counter state.
pub const COUNTER_LEN: usize = 5;

/// The counter's persisted state.
#[derive(Debug, Clone, Copy, PartialEq, Eq, Structural)]
pub struct Counter {
    pub is_initialized: bool,
    pub count: u32,
}

/// The unsigned integer whose little-endian bytes are `b0 b1 b2 b3`.
pub open spec fn le_u32(b0: u8, b1: u8, b2: u8, b3: u8) -> int {
    b0 as int + 256 * (b1 as int) + 65536 * (b2 as int) + 16777216 * (b3 as int)
}

/// The five bytes that encode `c`: a flag byte of 1 or 0, then the count
/// in little-endian order.
pub open spec fn encode_spec(c: Counter) -> Seq<u8> {
    seq![
        if c.is_initialized { 1u8 } else { 0u8 },
        (c.count % 256) as u8,
        ((c.count / 256) % 256) as u8,
        ((c.count / 65536) % 256) as u8,
        (c.count / 16777216) as u8,
    ]
}

/// The state that `b` encodes, if it has the right length: any nonzero flag
/// byte reads as initialized.
pub open spec fn decode_spec(b: Seq<u8>) -> Option<Counter> {
    if b.len() == COUNTER_LEN {
        Some(Counter { is_initialized: b[0] != 0, count: le_u32(b[1], b[2], b[3], b[4]) as u32 })
    } else {
        None
    }
}

/// Decoding what was encoded gives the state back.
pub proof fn lemma_round_trip(c: Counter)
    ensures
        decode_spec(encode_spec(c)) == Some(c),
{
    let e = encode_spec(c);
    let n = c.count as int;
    assert(n == n % 256 + 256 * ((n / 256) % 256) + 65536 * ((n / 65536) % 256) + 16777216 * (
    n / 16777216)) by (nonlinear_arith)
        requires
            0 <= n < 0x1_0000_0000,
    ;
    assert(le_u32(e[1], e[2], e[3], e[4]) == n);
}

/// A buffer of any length but the encoded one is refused.
pub proof fn lemma_wrong_length_refused(b: Seq<u8>)
    requires
        b.len() != COUNTER_LEN,
    ensures
        decode_spec(b) is None,
{
}

impl Default for Counter {
    /// The uninitialized state with a count of zero, which is what an
    /// all-zero buffer decodes to.
    fn default() -> (r: Counter)
        ensures
            r == (Counter { is_initialized: false, count: 0 }),
            encode_spec(r) == seq![0u8, 0u8, 0u8, 0u8, 0u8],
    {
        Counter { is_initialized: false, count: 0 }
    }
}

impl Counter {
    /// Whether the state has been through `Initialize`.
    pub fn is_initialized(&self) -> (r: bool)
        ensures
            r == self.is_initialized,
    {
        self.is_initialized
    }

    /// Reads a state from its encoding; a buffer of another length is
    /// `InvalidAccountData`.
    pub fn unpack_from_slice(src: &[u8]) -> (r: Result<Counter, CounterError>)
        ensures
            match decode_spec(src@) {
                Some(c) => r == Ok::<Counter, CounterError>(c),
                None => r == Err::<Counter, CounterError>(CounterError::InvalidAccountData),
            },
    {
        if src.len() != COUNTER_LEN {
            return Err(CounterError::InvalidAccountData);
        }
        let is_initialized = src[0] != 0;
        let count: u32 = src[1] as u32 + 256 * (src[2] as u32) + 65536 * (src[3] as u32)
            + 16777216 * (src[4] as u32);
        Ok(Counter { is_initialized, count })
    }

    /// Writes the encoding of this state over `dst`.
    pub fn pack_into_slice(&self, dst: &mut [u8])
        requires
            old(dst)@.len() == COUNTER_LEN,
        ensures
            final(dst)@ == encode_spec(*self),
    {
        dst[0] = if self.is_initialized { 1u8 } else { 0u8 };
        dst[1] = (self.count % 256) as u8;
        dst[2] = ((self.count / 256) % 256) as u8;
        dst[3] = ((self.count / 65536) % 256) as u8;
        dst[4] = (self.count / 16777216) as u8;
        assert(dst@ =~= encode_spec(*self));
    }
}

} // verus!
