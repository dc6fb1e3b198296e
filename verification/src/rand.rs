//! A buffered byte-stream pseudo-random source: a fixed block of bytes is
//! drawn once from the platform entropy source and then read sequentially,
//! wrapping to the start when exhausted.

use vstd::prelude::*;

verus! {

/// Size of the cyclic entropy buffer, in bytes.
pub const RAND_BUF: usize = 1024;

pub struct Random {
    pub data: Vec<u8>,
    pub ptr: usize,
}

/// Relies on getrandom::fill: fills the buffer with bytes from the system
/// entropy source.  Nothing is assumed about the values: on failure the
/// zero-initialized buffer comes back possibly part-written, and only its
/// length is relied on.
#[verifier::external_body]
fn entropy_bytes(n: usize) -> (r: Vec<u8>)
    ensures
        r@.len() == n,
{
    let mut d: Vec<u8> = vec![0u8; n];
    let _ = getrandom::fill(&mut d);
    d
}

/// The byte the source will hand out next.
pub open spec fn peek(s: Random) -> u8 {
    s.data@[s.ptr as int]
}

/// The source after one byte has been consumed: the cursor advances and
/// wraps to the front of the unchanged buffer.
pub open spec fn stepped(s: Random) -> Random {
    Random {
        data: s.data,
        ptr: if s.ptr + 1 >= s.data@.len() {
            0
        } else {
            (s.ptr + 1) as usize
        },
    }
}

impl Random {
    /// The cursor addresses a valid byte of the (non-empty) buffer.
    pub open spec fn wf(self) -> bool {
        self.ptr < self.data@.len()
    }

    /// A source backed by `RAND_BUF` bytes of platform entropy.
    pub fn new() -> (r: Random)
        ensures
            r.wf(),
            r.data@.len() == RAND_BUF,
            r.ptr == 0,
    {
        Random { data: entropy_bytes(RAND_BUF), ptr: 0 }
    }

    /// A source backed by the given bytes, for deterministic replay.
    pub fn from_bytes(data: Vec<u8>) -> (r: Random)
        requires
            data@.len() >= 1,
        ensures
            r.wf(),
            r.data == data,
            r.ptr == 0,
    {
        Random { data, ptr: 0 }
    }

    /// The next byte of the cyclic stream.
    pub fn next(&mut self) -> (r: u8)
        requires
            old(self).wf(),
        ensures
            final(self).wf(),
            r == peek(*old(self)),
            *final(self) == stepped(*old(self)),
    {
        let n: usize = self.data.len();
        let rv: u8 = self.data[self.ptr];
        self.ptr = self.ptr + 1;
        if self.ptr >= n {
            self.ptr = 0;
        }
        rv
    }

    /// The low `nbit` bits of the next byte for `1 <= nbit <= 7`; a full
    /// byte for larger counts; 0 (drawing nothing) for `nbit == 0`.
    pub fn nextbits(&mut self, nbit: u8) -> (r: u8)
        requires
            old(self).wf(),
        ensures
            final(self).wf(),
            nbit == 0 ==> r == 0 && *final(self) == *old(self),
            1 <= nbit <= 7 ==> r == peek(*old(self)) % (1u8 << nbit) && *final(self) == stepped(
                *old(self),
            ),
            nbit > 7 ==> r == peek(*old(self)) && *final(self) == stepped(*old(self)),
    {
        if nbit == 0 {
            return 0;
        }
        if nbit > 7 {
            return self.next();
        }
        proof {
            assert(1u8 << nbit >= 1) by (bit_vector)
                requires
                    1 <= nbit <= 7,
            ;
        }
        let mask: u8 = (1u8 << nbit) - 1;
        let b: u8 = self.next();
        proof {
            assert(b & (((1u8 << nbit) - 1) as u8) == b % (1u8 << nbit)) by (bit_vector)
                requires
                    1 <= nbit <= 7,
            ;
        }
        b & mask
    }

    /// A uniformly scaled draw: two bytes are read as a little-endian value
    /// `v` in `[0, 65535]`, and the result is `v * max / 65535` rounded
    /// down, so it ranges over `[0, max]`.  For `max <= 0` the result is 0
    /// and nothing is consumed.
    pub fn rand(&mut self, max: i32) -> (r: i32)
        requires
            old(self).wf(),
        ensures
            final(self).wf(),
            max <= 0 ==> r == 0 && *final(self) == *old(self),
            max > 0 ==> {
                let v = peek(*old(self)) + 256 * peek(stepped(*old(self)));
                &&& r == v * max / 65535
                &&& 0 <= r <= max
                &&& *final(self) == stepped(stepped(*old(self)))
            },
    {
        if max <= 0 {
            return 0;
        }
        let b0: u8 = self.next();
        let b1: u8 = self.next();
        let v: u32 = (b0 as u32) | ((b1 as u32) << 8);
        proof {
            assert((b0 as u32) | ((b1 as u32) << 8) == b0 + 256 * (b1 as u32)) by (bit_vector);
            vstd::arithmetic::mul::lemma_mul_inequality(v as int, 65535, max as int);
            vstd::arithmetic::div_mod::lemma_div_pos_is_pos((v * max) as int, 65535);
            vstd::arithmetic::div_mod::lemma_div_is_ordered(
                (v * max) as int,
                65535 * (max as int),
                65535,
            );
            lemma_mul_65535(max as int);
        }
        ((v as u64) * (max as u64) / 65535) as i32
    }

    /// A random sign: `1` or `-1`, decided by one bit of the stream.
    pub fn sign(&mut self) -> (r: i64)
        requires
            old(self).wf(),
        ensures
            final(self).wf(),
            *final(self) == stepped(*old(self)),
            r == (if peek(*old(self)) % 2 == 0 {
                1int
            } else {
                -1int
            }),
    {
        proof {
            assert(1u8 << 1u8 == 2) by (bit_vector);
        }
        if self.nextbits(1) == 0 {
            1
        } else {
            -1
        }
    }
}

proof fn lemma_mul_65535(m: int)
    requires
        0 < m,
    ensures
        65535 * m / 65535 == m,
{
    vstd::arithmetic::div_mod::lemma_div_multiples_vanish(m, 65535);
}

} // verus!
