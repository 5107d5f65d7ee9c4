//! Textual encoding of the data a block's digest is computed over: lowercase
//! hexadecimal for byte strings, decimal for integers, and the SHA-256 digest
//! of the assembled text.

use sha2::Digest;
use vstd::prelude::*;
use vstd::string::StringExecFns;

verus! {

/// The character for one hexadecimal (or decimal) digit value, lowercase.
pub open spec fn digit_char(n: u8) -> char
    recommends
        n < 16,
{
    if n < 10 {
        ((('0' as u8) + n) as char)
    } else {
        ((('a' as u8) + (n - 10)) as char)
    }
}

/// The two lowercase hexadecimal characters of one byte, high nibble first.
pub open spec fn hex_pair(b: u8) -> Seq<char> {
    seq![digit_char(b / 16), digit_char(b % 16)]
}

/// The lowercase hexadecimal encoding of a byte string, two characters per
/// byte, in order.
pub open spec fn hex_seq(bytes: Seq<u8>) -> Seq<char>
    decreases bytes.len(),
{
    if bytes.len() == 0 {
        Seq::empty()
    } else {
        hex_seq(bytes.drop_last()) + hex_pair(bytes.last())
    }
}

/// The decimal encoding of a number, most significant digit first, with no
/// leading zeros (a single `'0'` for zero).
pub open spec fn dec_seq(n: nat) -> Seq<char>
    decreases n,
{
    if n < 10 {
        seq![digit_char(n as u8)]
    } else {
        dec_seq(n / 10).push(digit_char((n % 10) as u8))
    }
}

/// Relies on `String::push`: appends exactly the given character.
#[verifier::external_body]
pub fn push_char(s: &mut String, c: char)
    ensures
        final(s)@ == old(s)@.push(c),
{
    s.push(c);
}

/// The character for a digit value below sixteen.
pub fn digit_char_of(n: u8) -> (c: char)
    requires
        n < 16,
    ensures
        c == digit_char(n),
{
    if n < 10 {
        (('0' as u8) + n) as char
    } else {
        (('a' as u8) + (n - 10)) as char
    }
}

/// Appends the lowercase hexadecimal encoding of `bytes` to `s`.
pub fn append_hex(s: &mut String, bytes: &Vec<u8>)
    ensures
        final(s)@ == old(s)@ + hex_seq(bytes@),
{
    let mut i: usize = 0;
    while i < bytes.len()
        invariant
            i <= bytes@.len(),
            s@ == old(s)@ + hex_seq(bytes@.take(i as int)),
        decreases bytes@.len() - i,
    {
        let b = bytes[i];
        push_char(s, digit_char_of(b / 16));
        push_char(s, digit_char_of(b % 16));
        proof {
            assert(bytes@.take(i + 1).drop_last() =~= bytes@.take(i as int));
            assert(bytes@.take(i + 1).last() == bytes@[i as int]);
            assert(s@ =~= old(s)@ + hex_seq(bytes@.take(i + 1)));
        }
        i = i + 1;
    }
    proof {
        assert(bytes@.take(bytes@.len() as int) =~= bytes@);
    }
}

/// Appends the decimal encoding of `n` to `s`.
pub fn append_decimal(s: &mut String, n: u64)
    ensures
        final(s)@ == old(s)@ + dec_seq(n as nat),
    decreases n,
{
    if n >= 10 {
        append_decimal(s, n / 10);
    }
    push_char(s, digit_char_of((n % 10) as u8));
    proof {
        assert(s@ =~= old(s)@ + dec_seq(n as nat));
    }
}

/// What the SHA-256 digest of a text is: a function of the characters alone.
pub uninterp spec fn sha256_of(text: Seq<char>) -> Seq<u8>;

/// Relies on `sha2::Sha256::digest` (through the `digest::Digest` trait): the
/// digest is 32 bytes and depends on the hashed bytes - here the UTF-8
/// encoding of the text - alone.
#[verifier::external_body]
pub fn sha256_hash(text: &str) -> (r: Vec<u8>)
    ensures
        r@ == sha256_of(text@),
        r@.len() == 32,
{
    let digest = sha2::Sha256::digest(text.as_bytes());
    digest.to_vec()
}

} // verus!
