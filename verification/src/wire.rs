//! The byte layout of the values a record is made of.
//!
//! A text is written as the number of bytes of its UTF-8 form, on four bytes
//! with the least significant first, followed by those bytes. A flag is written
//! as one byte, `0` or `1`.

use borsh::io::Error;
use borsh::BorshDeserialize;
use vstd::arithmetic::div_mod::{lemma_fundamental_div_mod, lemma_fundamental_div_mod_converse};
use vstd::prelude::*;
use vstd::utf8::*;

verus! {

/// The largest number of bytes a text may have in UTF-8 to be encodable.
pub open spec fn max_text_len() -> int {
    0xffff_ffff
}

/// The four bytes of `n`, least significant first.
pub open spec fn le_bytes(n: int) -> Seq<u8> {
    seq![
        (n % 256) as u8,
        (n / 256 % 256) as u8,
        (n / 256 / 256 % 256) as u8,
        (n / 256 / 256 / 256 % 256) as u8,
    ]
}

/// The number that the first four bytes of `b` stand for, least significant
/// byte first.
pub open spec fn le_value(b: Seq<u8>) -> int
    recommends
        b.len() >= 4,
{
    b[0] + 256 * (b[1] + 256 * (b[2] + 256 * b[3]))
}

/// Reading back the four bytes of a number gives the number.
pub proof fn lemma_le_value_of_bytes(n: int)
    requires
        0 <= n <= max_text_len(),
    ensures
        le_bytes(n).len() == 4,
        le_value(le_bytes(n)) == n,
{
    let n1 = n / 256;
    let n2 = n1 / 256;
    let n3 = n2 / 256;
    lemma_fundamental_div_mod(n, 256);
    lemma_fundamental_div_mod(n1, 256);
    lemma_fundamental_div_mod(n2, 256);
    assert(0 <= n % 256 < 256 && 0 <= n1 % 256 < 256 && 0 <= n2 % 256 < 256);
    assert(0 <= n3 < 256);
    assert(n3 % 256 == n3);
}

/// Writing the number that four bytes stand for gives those bytes.
pub proof fn lemma_le_bytes_of_value(b: Seq<u8>)
    requires
        b.len() >= 4,
    ensures
        0 <= le_value(b) <= max_text_len(),
        le_bytes(le_value(b)) == b.take(4),
{
    let n2 = b[2] + 256 * b[3];
    let n1 = b[1] + 256 * n2;
    let n = b[0] + 256 * n1;
    lemma_fundamental_div_mod_converse(n, 256, n1, b[0] as int);
    lemma_fundamental_div_mod_converse(n1, 256, n2, b[1] as int);
    lemma_fundamental_div_mod_converse(n2, 256, b[3] as int, b[2] as int);
    lemma_fundamental_div_mod_converse(b[3] as int, 256, 0, b[3] as int);
    assert(le_bytes(n) =~= b.take(4));
}

/// Whether a text is short enough to be encoded.
pub open spec fn text_fits(chars: Seq<char>) -> bool {
    encode_utf8(chars).len() <= max_text_len()
}

/// The encoding of a text.
pub open spec fn text_bytes(chars: Seq<char>) -> Seq<u8> {
    le_bytes(encode_utf8(chars).len() as int) + encode_utf8(chars)
}

/// The encoding of a flag.
pub open spec fn flag_bytes(flag: bool) -> Seq<u8> {
    seq![if flag { 1u8 } else { 0u8 }]
}

/// The text that `b` starts with, and what follows it in `b`.
pub open spec fn parse_text(b: Seq<u8>) -> Option<(Seq<char>, Seq<u8>)> {
    if b.len() >= 4 && 4 + le_value(b) <= b.len() && valid_utf8(b.subrange(4, 4 + le_value(b))) {
        Some((decode_utf8(b.subrange(4, 4 + le_value(b))), b.skip(4 + le_value(b))))
    } else {
        None
    }
}

/// The flag that `b` starts with, and what follows it in `b`.
pub open spec fn parse_flag(b: Seq<u8>) -> Option<(bool, Seq<u8>)> {
    if b.len() >= 1 && b[0] <= 1 {
        Some((b[0] == 1, b.skip(1)))
    } else {
        None
    }
}

/// The byte that `b` starts with, and what follows it in `b`.
pub open spec fn parse_byte(b: Seq<u8>) -> Option<(u8, Seq<u8>)> {
    if b.len() >= 1 {
        Some((b[0], b.skip(1)))
    } else {
        None
    }
}

/// A text that fits is read back from its encoding, whatever follows it.
pub proof fn lemma_parse_text_bytes(chars: Seq<char>, tail: Seq<u8>)
    requires
        text_fits(chars),
    ensures
        parse_text(text_bytes(chars) + tail) == Some((chars, tail)),
{
    let body = encode_utf8(chars);
    let b = text_bytes(chars) + tail;
    lemma_le_value_of_bytes(body.len() as int);
    assert(le_value(b) == le_value(le_bytes(body.len() as int)));
    assert(b.subrange(4, 4 + le_value(b)) =~= body);
    assert(b.skip(4 + le_value(b)) =~= tail);
    encode_utf8_valid_utf8(chars);
    encode_utf8_decode_utf8(chars);
}

/// What was read as a text, encoded again, is what was read.
pub proof fn lemma_text_bytes_parsed(b: Seq<u8>)
    requires
        parse_text(b) is Some,
    ensures
        text_fits(parse_text(b)->Some_0.0),
        b == text_bytes(parse_text(b)->Some_0.0) + parse_text(b)->Some_0.1,
{
    let body = b.subrange(4, 4 + le_value(b));
    lemma_le_bytes_of_value(b);
    decode_utf8_encode_utf8(body);
    assert(b =~= text_bytes(decode_utf8(body)) + b.skip(4 + le_value(b)));
}

/// A flag is read back from its encoding, whatever follows it.
pub proof fn lemma_parse_flag_bytes(flag: bool, tail: Seq<u8>)
    ensures
        parse_flag(flag_bytes(flag) + tail) == Some((flag, tail)),
{
    assert((flag_bytes(flag) + tail).skip(1) =~= tail);
}

/// What was read as a flag, encoded again, is what was read.
pub proof fn lemma_flag_bytes_parsed(b: Seq<u8>)
    requires
        parse_flag(b) is Some,
    ensures
        b == flag_bytes(parse_flag(b)->Some_0.0) + parse_flag(b)->Some_0.1,
{
    assert(b =~= flag_bytes(b[0] == 1) + b.skip(1));
}

/// The error type of `borsh`, which is that of `std::io`. Nothing is known of
/// a value of it.
#[verifier::external_type_specification]
#[verifier::external_body]
pub struct ExError(borsh::io::Error);

/// `borsh::to_vec` on a `String`. Borsh writes the length of the text in bytes
/// as a `u32`, least significant byte first, then the bytes of the text; it
/// fails when the length does not fit in a `u32`, and only then.
#[verifier::external_body]
pub(crate) fn text_to_vec(text: &String) -> (r: Result<Vec<u8>, Error>)
    ensures
        r is Ok <==> text_fits(text@),
        r is Ok ==> r->Ok_0@ == text_bytes(text@),
{
    borsh::to_vec(text)
}

/// `borsh::to_vec` on a `bool`. Borsh writes one byte, `1` for `true` and `0`
/// for `false`; writing into a vector does not fail.
#[verifier::external_body]
pub(crate) fn flag_to_vec(flag: bool) -> (r: Result<Vec<u8>, Error>)
    ensures
        r is Ok,
        r->Ok_0@ == flag_bytes(flag),
{
    borsh::to_vec(&flag)
}

/// `BorshDeserialize::deserialize` for `String`. Borsh reads a `u32` length,
/// least significant byte first, then that many bytes, which must be valid
/// UTF-8, and moves the slice past what it read. It fails when the input is
/// shorter than that or the bytes are not valid UTF-8, and only then.
#[verifier::external_body]
pub(crate) fn take_text<'a>(input: &'a [u8]) -> (r: Result<(String, &'a [u8]), Error>)
    ensures
        r is Ok <==> parse_text(input@) is Some,
        r is Ok ==> (r->Ok_0.0@, r->Ok_0.1@) == parse_text(input@)->Some_0,
{
    let mut rest = input;
    let text = String::deserialize(&mut rest)?;
    Ok((text, rest))
}

/// `BorshDeserialize::deserialize` for `bool`. Borsh reads one byte, which
/// must be `0` (`false`) or `1` (`true`), and moves the slice past it. It
/// fails when the input is empty or the byte is another, and only then.
#[verifier::external_body]
pub(crate) fn take_flag<'a>(input: &'a [u8]) -> (r: Result<(bool, &'a [u8]), Error>)
    ensures
        r is Ok <==> parse_flag(input@) is Some,
        r is Ok ==> (r->Ok_0.0, r->Ok_0.1@) == parse_flag(input@)->Some_0,
{
    let mut rest = input;
    let flag = bool::deserialize(&mut rest)?;
    Ok((flag, rest))
}

/// `BorshDeserialize::deserialize` for `u8`. Borsh reads one byte and moves
/// the slice past it. It fails when the input is empty, and only then.
#[verifier::external_body]
pub(crate) fn take_byte<'a>(input: &'a [u8]) -> (r: Result<(u8, &'a [u8]), Error>)
    ensures
        r is Ok <==> parse_byte(input@) is Some,
        r is Ok ==> (r->Ok_0.0, r->Ok_0.1@) == parse_byte(input@)->Some_0,
{
    let mut rest = input;
    let byte = u8::deserialize(&mut rest)?;
    Ok((byte, rest))
}

} // verus!
