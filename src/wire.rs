//! Reading fields out of a byte buffer in network byte order, and the outcome
//! shared by all decoders.

use vstd::prelude::*;

verus! {

/// Why a decoder produced no record.
#[derive(Clone, Copy, Debug, PartialEq, Eq)]
pub enum ParseError {
    /// The input ends too early: this many further bytes are needed.
    /// Decoding the same bytes with more appended can still succeed.
    Incomplete(usize),
    /// The input holds a value that the format does not allow.
    Malformed,
}

/// The big-endian 16-bit value of the two bytes of `s` that start at `i`.
pub open spec fn be16(s: Seq<u8>, i: int) -> u16 {
    (s[i] * 256 + s[i + 1]) as u16
}

/// The big-endian 32-bit value of the four bytes of `s` that start at `i`.
pub open spec fn be32(s: Seq<u8>, i: int) -> u32 {
    (be16(s, i) * 65536 + be16(s, i + 2)) as u32
}

/// The two bytes of `w` in network order.
pub open spec fn be_bytes(w: u16) -> Seq<u8> {
    seq![(w / 256) as u8, (w % 256) as u8]
}

/// `r` is the outcome of decoding a header of `n` bytes from `s`: with at
/// least `n` bytes the decoder succeeds and hands back what follows the
/// header; with fewer it asks for exactly the missing bytes.
pub open spec fn consumes<T>(r: Result<(&[u8], T), ParseError>, s: Seq<u8>, n: nat) -> bool {
    match r {
        Ok((rest, _)) => n <= s.len() && rest@ == s.skip(n as int),
        Err(e) => s.len() < n && e == ParseError::Incomplete((n - s.len()) as usize),
    }
}

/// A decoder that consumes `n` bytes and is given fewer asks for exactly
/// the missing bytes: it neither succeeds nor reports malformed input.
pub proof fn short_input_is_incomplete<T>(r: Result<(&[u8], T), ParseError>, s: Seq<u8>, n: nat)
    requires
        consumes(r, s, n),
        s.len() < n <= usize::MAX,
    ensures
        r matches Err(ParseError::Incomplete(m)) && m == n - s.len(),
{
}

/// The byte at `at`.
pub(crate) fn read_u8(input: &[u8], at: usize) -> (r: u8)
    requires
        at < input@.len(),
    ensures
        r == input@[at as int],
{
    input[at]
}

/// The big-endian 16-bit value at `at`.
pub(crate) fn read_be16(input: &[u8], at: usize) -> (r: u16)
    requires
        at + 2 <= input.len(),
    ensures
        r == be16(input@, at as int),
{
    input[at] as u16 * 256 + input[at + 1] as u16
}

/// The big-endian 32-bit value at `at`.
pub(crate) fn read_be32(input: &[u8], at: usize) -> (r: u32)
    requires
        at + 4 <= input.len(),
    ensures
        r == be32(input@, at as int),
{
    read_be16(input, at) as u32 * 65536 + read_be16(input, at + 2) as u32
}

/// The bytes after the first `n`.
pub(crate) fn rest_after(input: &[u8], n: usize) -> (r: &[u8])
    requires
        n <= input@.len(),
    ensures
        r@ == input@.skip(n as int),
{
    &input[n..input.len()]
}

/// The error for an input of `len` bytes where `need` are required.
pub(crate) fn incomplete(need: usize, len: usize) -> (r: ParseError)
    requires
        len < need,
    ensures
        r == ParseError::Incomplete((need - len) as usize),
{
    ParseError::Incomplete(need - len)
}

} // verus!
