//! The wire format of the node: fixed-width little-endian integers,
//! length-prefixed byte strings and UTF-8 text, concatenated field by field.

use vstd::prelude::*;
use vstd::bytes::*;
use vstd::utf8::*;
use vstd::string::*;

verus! {

broadcast use vstd::utf8::encode_utf8_valid_utf8, vstd::utf8::encode_utf8_decode_utf8;

/// Eight little-endian bytes of `x`.
pub open spec fn enc_u64(x: u64) -> Seq<u8> {
    spec_u64_to_le_bytes(x)
}

/// Four little-endian bytes of `x`.
pub open spec fn enc_u32(x: u32) -> Seq<u8> {
    spec_u32_to_le_bytes(x)
}

/// Sixteen little-endian bytes of `x`.
pub open spec fn enc_u128(x: u128) -> Seq<u8> {
    spec_u128_to_le_bytes(x)
}

/// A byte string: its length as a `u64`, then its bytes.
pub open spec fn enc_bytes(b: Seq<u8>) -> Seq<u8> {
    enc_u64(b.len() as u64) + b
}

/// A text: the length-prefixed UTF-8 encoding of its characters.
pub open spec fn enc_str(s: Seq<char>) -> Seq<u8> {
    enc_bytes(encode_utf8(s))
}

/// Appends `b` to `out`.
pub fn append_bytes(out: &mut Vec<u8>, b: &[u8])
    ensures
        final(out)@ == old(out)@ + b@,
{
    let mut i: usize = 0;
    while i < b.len()
        invariant
            i <= b@.len(),
            out@ == old(out)@ + b@.subrange(0, i as int),
        decreases b@.len() - i,
    {
        out.push(b[i]);
        i = i + 1;
        assert(out@ =~= old(out)@ + b@.subrange(0, i as int));
    }
    assert(b@.subrange(0, b@.len() as int) =~= b@);
}

/// Appends the encoding of a `u64`.
pub fn write_u64(out: &mut Vec<u8>, x: u64)
    ensures
        final(out)@ == old(out)@ + enc_u64(x),
{
    let b = u64_to_le_bytes(x);
    append_bytes(out, b.as_slice());
}

/// Appends the encoding of a `u32`.
pub fn write_u32(out: &mut Vec<u8>, x: u32)
    ensures
        final(out)@ == old(out)@ + enc_u32(x),
{
    let b = u32_to_le_bytes(x);
    append_bytes(out, b.as_slice());
}

/// Appends the encoding of a `u128`.
pub fn write_u128(out: &mut Vec<u8>, x: u128)
    ensures
        final(out)@ == old(out)@ + enc_u128(x),
{
    let b = u128_to_le_bytes(x);
    append_bytes(out, b.as_slice());
}

/// Appends a length-prefixed byte string.
pub fn write_bytes(out: &mut Vec<u8>, b: &[u8])
    ensures
        final(out)@ == old(out)@ + enc_bytes(b@),
{
    write_u64(out, b.len() as u64);
    append_bytes(out, b);
    assert(final(out)@ =~= old(out)@ + enc_bytes(b@));
}

/// Appends a length-prefixed UTF-8 text.
pub fn write_str(out: &mut Vec<u8>, s: &str)
    ensures
        final(out)@ == old(out)@ + enc_str(s@),
{
    write_bytes(out, s.as_bytes());
}

} // verus!
