//! Text built from bytes and numbers: UTF-8 decoding, ASCII strings,
//! decimal numerals and lowercase hexadecimal.

use vstd::prelude::*;
use vstd::utf8::*;

verus! {

broadcast use vstd::utf8::encode_utf8_valid_utf8, vstd::utf8::encode_utf8_decode_utf8,
    vstd::utf8::is_ascii_chars_encode_utf8;

/// `String::from_utf8` of std.  Its documentation states that it fails exactly
/// when the bytes are not valid UTF-8 and otherwise gives the string whose
/// characters those bytes encode; that is what the contract claims.
#[verifier::external_body]
pub fn string_from_utf8(bytes: Vec<u8>) -> (res: Option<String>)
    ensures
        res is Some <==> valid_utf8(bytes@),
        res matches Some(s) ==> s@ == decode_utf8(bytes@),
{
    String::from_utf8(bytes).ok()
}

/// The characters that a sequence of ASCII bytes stands for.
pub open spec fn ascii_chars(bytes: Seq<u8>) -> Seq<char> {
    Seq::new(bytes.len(), |i: int| bytes[i] as char)
}

/// Every byte is below 128.
pub open spec fn all_ascii(bytes: Seq<u8>) -> bool {
    forall|i: int| 0 <= i < bytes.len() ==> #[trigger] bytes[i] < 128
}

proof fn lemma_ascii_bytes_are_utf8(bytes: Seq<u8>)
    requires
        all_ascii(bytes),
    ensures
        is_ascii_chars(ascii_chars(bytes)),
        encode_utf8(ascii_chars(bytes)) == bytes,
        valid_utf8(bytes),
        decode_utf8(bytes) == ascii_chars(bytes),
{
    let chars = ascii_chars(bytes);
    assert forall|i: int| 0 <= i < chars.len() implies (#[trigger] chars[i]) as u32 <= 0x7f by {
        assert(bytes[i] < 128);
    }
    assert(is_ascii_chars(chars));
    assert(encode_utf8(chars) =~= Seq::new(chars.len(), |i| chars[i] as u8));
    assert(encode_utf8(chars) =~= bytes);
}

/// The string whose characters are the given ASCII bytes.
pub fn ascii_string(bytes: Vec<u8>) -> (s: String)
    requires
        all_ascii(bytes@),
    ensures
        s@ == ascii_chars(bytes@),
{
    proof {
        lemma_ascii_bytes_are_utf8(bytes@);
    }
    let ghost b = bytes@;
    match string_from_utf8(bytes) {
        Some(s) => s,
        None => {
            proof {
                assert(valid_utf8(b));
            }
            String::new()
        },
    }
}

/// The ASCII digit of a value below ten.
pub open spec fn decimal_digit(d: nat) -> u8 {
    (48 + d) as u8
}

/// The decimal numeral of `n`, most significant digit first, as bytes.
pub open spec fn decimal_bytes(n: nat) -> Seq<u8>
    decreases n,
{
    if n < 10 {
        seq![decimal_digit(n)]
    } else {
        decimal_bytes(n / 10).push(decimal_digit(n % 10))
    }
}

/// The decimal numeral of `n`, as text.
pub open spec fn decimal(n: nat) -> Seq<char> {
    ascii_chars(decimal_bytes(n))
}

proof fn lemma_decimal_bytes_ascii(n: nat)
    ensures
        all_ascii(decimal_bytes(n)),
        decimal_bytes(n).len() >= 1,
    decreases n,
{
    if n >= 10 {
        lemma_decimal_bytes_ascii(n / 10);
    }
}

/// The decimal numeral of a `u128`, most significant digit first.
pub fn decimal_string(n: u128) -> (s: String)
    ensures
        s@ == decimal(n as nat),
{
    let mut digits: Vec<u8> = Vec::new();
    let mut m: u128 = n;
    // digits holds the least significant digits of n, last digit first
    while m >= 10
        invariant
            decimal_bytes(n as nat) == decimal_bytes(m as nat) + digits@.reverse(),
        decreases m,
    {
        let d: u8 = (m % 10) as u8;
        proof {
            assert(decimal_bytes(m as nat) == decimal_bytes((m / 10) as nat).push(decimal_digit((m % 10) as nat)));
        }
        digits.push(48 + d);
        proof {
            let old_digits = digits@.drop_last();
            assert(digits@.reverse() =~= seq![(48 + d) as u8] + old_digits.reverse());
            assert(decimal_bytes(n as nat) =~= decimal_bytes((m / 10) as nat) + digits@.reverse());
        }
        m = m / 10;
    }
    let mut out: Vec<u8> = Vec::new();
    out.push(48 + (m as u8));
    let mut i: usize = digits.len();
    while i > 0
        invariant
            i <= digits@.len(),
            decimal_bytes(n as nat) == decimal_bytes(m as nat) + digits@.reverse(),
            m < 10,
            out@ == decimal_bytes(m as nat) + digits@.subrange(i as int, digits@.len() as int).reverse(),
        decreases i,
    {
        i = i - 1;
        out.push(digits[i]);
        proof {
            assert(digits@.subrange(i as int, digits@.len() as int).reverse() =~= digits@.subrange(
                i + 1,
                digits@.len() as int,
            ).reverse().push(digits@[i as int]));
            assert(out@ =~= decimal_bytes(m as nat) + digits@.subrange(i as int, digits@.len() as int).reverse());
        }
    }
    proof {
        assert(digits@.subrange(0, digits@.len() as int) =~= digits@);
        lemma_decimal_bytes_ascii(n as nat);
    }
    ascii_string(out)
}

/// The lowercase hexadecimal digit of a value below sixteen.
pub open spec fn hex_digit(d: nat) -> u8 {
    if d < 10 {
        (48 + d) as u8
    } else {
        (87 + d) as u8
    }
}

/// Two lowercase hexadecimal digits per byte, high half first.
pub open spec fn hex_bytes(data: Seq<u8>) -> Seq<u8> {
    Seq::new(
        2 * data.len(),
        |i: int|
            if i % 2 == 0 {
                hex_digit((data[i / 2] / 16) as nat)
            } else {
                hex_digit((data[i / 2] % 16) as nat)
            },
    )
}

/// The lowercase hexadecimal text of `data`.
pub open spec fn hex_lower(data: Seq<u8>) -> Seq<char> {
    ascii_chars(hex_bytes(data))
}

fn hex_digit_exec(d: u8) -> (r: u8)
    requires
        d < 16,
    ensures
        r == hex_digit(d as nat),
        r < 128,
{
    if d < 10 {
        48 + d
    } else {
        87 + d
    }
}

proof fn lemma_hex_bytes_ascii(data: Seq<u8>)
    ensures
        all_ascii(hex_bytes(data)),
{
    assert forall|j: int| 0 <= j < hex_bytes(data).len() implies #[trigger] hex_bytes(data)[j] < 128 by {
        let d = if j % 2 == 0 { (data[j / 2] / 16) as nat } else { (data[j / 2] % 16) as nat };
        assert(d < 16);
    }
}

/// Hexadecimal text is ASCII: its UTF-8 encoding has one byte per character.
pub proof fn lemma_hex_lower_utf8_len(data: Seq<u8>)
    ensures
        encode_utf8(hex_lower(data)).len() == hex_lower(data).len(),
{
    lemma_hex_bytes_ascii(data);
    lemma_ascii_bytes_are_utf8(hex_bytes(data));
}

/// The lowercase hexadecimal text of `data`.
pub fn to_hex(data: &[u8]) -> (s: String)
    ensures
        s@ == hex_lower(data@),
        s@.len() == 2 * data@.len(),
{
    let mut out: Vec<u8> = Vec::new();
    let mut i: usize = 0;
    while i < data.len()
        invariant
            i <= data@.len(),
            out@ == hex_bytes(data@).subrange(0, 2 * i),
        decreases data@.len() - i,
    {
        let b = data[i];
        out.push(hex_digit_exec(b / 16));
        out.push(hex_digit_exec(b % 16));
        proof {
            assert(hex_bytes(data@)[2 * i] == hex_digit((b / 16) as nat));
            assert(hex_bytes(data@)[2 * i + 1] == hex_digit((b % 16) as nat));
            assert(out@ =~= hex_bytes(data@).subrange(0, 2 * (i + 1)));
        }
        i = i + 1;
    }
    proof {
        assert(out@ =~= hex_bytes(data@));
        assert forall|j: int| 0 <= j < out@.len() implies #[trigger] out@[j] < 128 by {
            let d = if j % 2 == 0 { (data@[j / 2] / 16) as nat } else { (data@[j / 2] % 16) as nat };
            assert(d < 16);
        }
    }
    ascii_string(out)
}

} // verus!
