//! A bounded, sequential reader over a byte slice, and the little-endian
//! integer encodings of the SGX wire format.

use vstd::prelude::*;
use vstd::array::array_fill_for_copy_types;
use vstd::slice::slice_subrange;
use crate::error::AttestationError;

verus! {

/// The `u16` that two bytes encode in little-endian order.
pub open spec fn u16_le(b: Seq<u8>) -> u16
    recommends
        b.len() == 2,
{
    (b[0] as int + 256 * (b[1] as int)) as u16
}

/// The `u32` that four bytes encode in little-endian order.
pub open spec fn u32_le(b: Seq<u8>) -> u32
    recommends
        b.len() == 4,
{
    (b[0] as int + 256 * (b[1] as int) + 65536 * (b[2] as int) + 16777216 * (b[3] as int)) as u32
}

/// The two bytes that encode `x` in little-endian order.
pub open spec fn u16_le_bytes(x: u16) -> Seq<u8> {
    seq![(x as int % 256) as u8, (x as int / 256) as u8]
}

/// The four bytes that encode `x` in little-endian order.
pub open spec fn u32_le_bytes(x: u32) -> Seq<u8> {
    seq![
        (x as int % 256) as u8,
        (x as int / 256 % 256) as u8,
        (x as int / 65536 % 256) as u8,
        (x as int / 16777216) as u8,
    ]
}

/// A number below `unit` added to a multiple of `unit` has the number as
/// remainder and the multiplier as quotient, for the units of the
/// little-endian encodings.
proof fn lemma_digits(low: int, high: int, unit: int)
    requires
        unit == 256 || unit == 65536 || unit == 16777216,
        0 <= low < unit,
    ensures
        (low + unit * high) % unit == low,
        (low + unit * high) / unit == high,
{
    if unit == 256 {
        assert((low + 256 * high) % 256 == low);
        assert((low + 256 * high) / 256 == high);
    } else if unit == 65536 {
        assert((low + 65536 * high) % 65536 == low);
        assert((low + 65536 * high) / 65536 == high);
    } else {
        assert((low + 16777216 * high) % 16777216 == low);
        assert((low + 16777216 * high) / 16777216 == high);
    }
}

/// Decoding two bytes as a little-endian `u16` and encoding the result gives
/// the same two bytes back.
pub proof fn lemma_u16_le_round_trip(b: Seq<u8>)
    requires
        b.len() == 2,
    ensures
        u16_le_bytes(u16_le(b)) == b,
{
    let x = u16_le(b) as int;
    assert(x == b[0] as int + 256 * (b[1] as int));
    lemma_digits(b[0] as int, b[1] as int, 256);
    assert(u16_le_bytes(u16_le(b)) =~= b);
}

/// Decoding four bytes as a little-endian `u32` and encoding the result gives
/// the same four bytes back.
pub proof fn lemma_u32_le_round_trip(b: Seq<u8>)
    requires
        b.len() == 4,
    ensures
        u32_le_bytes(u32_le(b)) == b,
{
    let b0 = b[0] as int;
    let b1 = b[1] as int;
    let b2 = b[2] as int;
    let b3 = b[3] as int;
    let x = u32_le(b) as int;
    assert(x == b0 + 256 * b1 + 65536 * b2 + 16777216 * b3);
    assert(x == b0 + 256 * (b1 + 256 * b2 + 65536 * b3));
    lemma_digits(b0, b1 + 256 * b2 + 65536 * b3, 256);
    assert(x % 256 == b0);
    assert(x / 256 == b1 + 256 * (b2 + 256 * b3));
    lemma_digits(b1, b2 + 256 * b3, 256);
    assert(x / 256 % 256 == b1);
    assert(x == (b0 + 256 * b1) + 65536 * (b2 + 256 * b3));
    lemma_digits(b0 + 256 * b1, b2 + 256 * b3, 65536);
    assert(x / 65536 == b2 + 256 * b3);
    lemma_digits(b2, b3, 256);
    assert(x / 65536 % 256 == b2);
    assert(x == (b0 + 256 * b1 + 65536 * b2) + 16777216 * b3);
    lemma_digits(b0 + 256 * b1 + 65536 * b2, b3, 16777216);
    assert(x / 16777216 == b3);
    assert(u32_le_bytes(u32_le(b)) =~= b);
}

/// Encoding a `u16` in little-endian order and decoding the bytes gives the
/// same number back.
pub proof fn lemma_u16_le_bytes_round_trip(x: u16)
    ensures
        u16_le_bytes(x).len() == 2,
        u16_le(u16_le_bytes(x)) == x,
{
    let v = x as int;
    assert(v == v % 256 + 256 * (v / 256));
}

/// Encoding a `u32` in little-endian order and decoding the bytes gives the
/// same number back.
pub proof fn lemma_u32_le_bytes_round_trip(x: u32)
    ensures
        u32_le_bytes(x).len() == 4,
        u32_le(u32_le_bytes(x)) == x,
{
    let v = x as int;
    let q1 = v / 256;
    let q2 = v / 65536;
    let q3 = v / 16777216;
    assert(v == v % 256 + 256 * q1);
    assert(q1 == q1 % 256 + 256 * (q1 / 256));
    assert(v == (v % 256 + 256 * (q1 % 256)) + 65536 * (q1 / 256));
    lemma_digits(v % 256 + 256 * (q1 % 256), q1 / 256, 65536);
    assert(q2 == q1 / 256);
    assert(q2 == q2 % 256 + 256 * (q2 / 256));
    assert(v == (v % 256 + 256 * (q1 % 256) + 65536 * (q2 % 256)) + 16777216 * (q2 / 256));
    lemma_digits(v % 256 + 256 * (q1 % 256) + 65536 * (q2 % 256), q2 / 256, 16777216);
    assert(q3 == q2 / 256);
    assert(v == v % 256 + 256 * (q1 % 256) + 65536 * (q2 % 256) + 16777216 * q3);
}

/// A cursor that hands out consecutive, non-empty pieces of a byte slice.
pub struct ByteCursor<'a> {
    bytes: &'a [u8],
    pos: usize,
}

impl<'a> ByteCursor<'a> {
    #[verifier::type_invariant]
    spec fn in_bounds(self) -> bool {
        self.pos <= self.bytes@.len()
    }

    /// The whole input that the cursor reads from.
    pub closed spec fn input(self) -> Seq<u8> {
        self.bytes@
    }

    /// The number of bytes handed out so far.
    pub closed spec fn position(self) -> nat {
        self.pos as nat
    }

    /// The next `n` bytes that the cursor would hand out.
    pub open spec fn upcoming(self, n: nat) -> Seq<u8>
        recommends
            self.position() + n <= self.input().len(),
    {
        self.input().subrange(self.position() as int, (self.position() + n) as int)
    }

    /// A cursor at the start of `bytes`.
    pub fn new(bytes: &'a [u8]) -> (cursor: Self)
        ensures
            cursor.input() == bytes@,
            cursor.position() == 0,
    {
        ByteCursor { bytes, pos: 0 }
    }

    /// Hands out the next `n` bytes and advances past them.
    ///
    /// Fails, without moving, when `n` is zero or fewer than `n` bytes are
    /// left.
    pub fn take(&mut self, n: usize) -> (r: Result<&'a [u8], AttestationError>)
        ensures
            final(self).input() == old(self).input(),
            final(self).position() <= final(self).input().len(),
            n > 0 && old(self).position() + n <= old(self).input().len() ==> {
                &&& r matches Ok(piece)
                &&& piece@ == old(self).upcoming(n as nat)
                &&& final(self).position() == old(self).position() + n
            },
            !(n > 0 && old(self).position() + n <= old(self).input().len()) ==> {
                &&& r == Err::<&[u8], AttestationError>(AttestationError::ParseError)
                &&& final(self).position() == old(self).position()
            },
    {
        proof {
            use_type_invariant(&*self);
        }
        if n > 0 && n <= self.bytes.len() - self.pos {
            let piece = slice_subrange(self.bytes, self.pos, self.pos + n);
            self.pos = self.pos + n;
            Ok(piece)
        } else {
            Err(AttestationError::ParseError)
        }
    }

    /// Hands out the next two bytes as a little-endian `u16`.
    pub fn take_u16_le(&mut self) -> (r: Result<u16, AttestationError>)
        ensures
            final(self).input() == old(self).input(),
            final(self).position() <= final(self).input().len(),
            old(self).position() + 2 <= old(self).input().len() ==> {
                &&& r matches Ok(x)
                &&& x == u16_le(old(self).upcoming(2))
                &&& final(self).position() == old(self).position() + 2
            },
            old(self).position() + 2 > old(self).input().len() ==> {
                &&& r == Err::<u16, AttestationError>(AttestationError::ParseError)
                &&& final(self).position() == old(self).position()
            },
    {
        let piece = self.take(2)?;
        let lo: u16 = piece[0] as u16;
        let hi: u16 = piece[1] as u16;
        Ok(lo + 256 * hi)
    }

    /// Hands out the next four bytes as a little-endian `u32`.
    pub fn take_u32_le(&mut self) -> (r: Result<u32, AttestationError>)
        ensures
            final(self).input() == old(self).input(),
            final(self).position() <= final(self).input().len(),
            old(self).position() + 4 <= old(self).input().len() ==> {
                &&& r matches Ok(x)
                &&& x == u32_le(old(self).upcoming(4))
                &&& final(self).position() == old(self).position() + 4
            },
            old(self).position() + 4 > old(self).input().len() ==> {
                &&& r == Err::<u32, AttestationError>(AttestationError::ParseError)
                &&& final(self).position() == old(self).position()
            },
    {
        let piece = self.take(4)?;
        let b0: u32 = piece[0] as u32;
        let b1: u32 = piece[1] as u32;
        let b2: u32 = piece[2] as u32;
        let b3: u32 = piece[3] as u32;
        Ok(b0 + 256 * b1 + 65536 * b2 + 16777216 * b3)
    }

    /// Hands out the next `N` bytes as an array.
    pub fn take_array<const N: usize>(&mut self) -> (r: Result<[u8; N], AttestationError>)
        ensures
            final(self).input() == old(self).input(),
            final(self).position() <= final(self).input().len(),
            N > 0 && old(self).position() + N <= old(self).input().len() ==> {
                &&& r matches Ok(a)
                &&& a@ == old(self).upcoming(N as nat)
                &&& final(self).position() == old(self).position() + N
            },
            !(N > 0 && old(self).position() + N <= old(self).input().len()) ==> {
                &&& r == Err::<[u8; N], AttestationError>(AttestationError::ParseError)
                &&& final(self).position() == old(self).position()
            },
    {
        let piece = self.take(N)?;
        let mut a: [u8; N] = array_fill_for_copy_types(0u8);
        let mut i: usize = 0;
        while i < N
            invariant
                i <= N,
                piece@.len() == N,
                forall|j: int| 0 <= j < i ==> a@[j] == piece@[j],
            decreases N - i,
        {
            a[i] = piece[i];
            i = i + 1;
        }
        Ok(a)
    }

    /// Succeeds exactly when every byte of the input has been handed out.
    pub fn finish(&self) -> (r: Result<(), AttestationError>)
        ensures
            self.position() == self.input().len() ==> r == Ok::<(), AttestationError>(()),
            self.position() != self.input().len() ==> r == Err::<(), AttestationError>(
                AttestationError::ParseError,
            ),
    {
        if self.pos == self.bytes.len() {
            Ok(())
        } else {
            Err(AttestationError::ParseError)
        }
    }
}

} // verus!
