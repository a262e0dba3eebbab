//! What the library itself reads of a payload before it hands it to the
//! codec: the four-byte word at its front, and from it whether a text fits.

use vstd::prelude::*;

use crate::error::{cut_short, malformed, Error, Failure};
use crate::order::ByteOrder;

verus! {

/// The unsigned number that the first four bytes spell in byte order `order`.
pub open spec fn word(bytes: Seq<u8>, order: ByteOrder) -> int
    recommends
        bytes.len() >= 4,
{
    match order {
        ByteOrder::Little => bytes[0] as int + 256 * (bytes[1] as int) + 65536 * (bytes[2] as int)
            + 16777216 * (bytes[3] as int),
        ByteOrder::Big => bytes[3] as int + 256 * (bytes[2] as int) + 65536 * (bytes[1] as int)
            + 16777216 * (bytes[0] as int),
    }
}

/// The number that a four-byte word stands for when it is read as a signed
/// integer in two's complement.
pub open spec fn signed(word: int) -> int {
    if word < 0x8000_0000 {
        word
    } else {
        word - 0x1_0000_0000
    }
}

/// The four-byte word that stands for `value` in two's complement.
pub open spec fn unsigned(value: int) -> int {
    if value >= 0 {
        value
    } else {
        value + 0x1_0000_0000
    }
}

/// The four bytes that spell the word `word` in byte order `order`.
pub open spec fn spelled(word: int, order: ByteOrder) -> Seq<u8> {
    let b0 = (word % 256) as u8;
    let b1 = ((word / 256) % 256) as u8;
    let b2 = ((word / 65536) % 256) as u8;
    let b3 = ((word / 16777216) % 256) as u8;
    match order {
        ByteOrder::Little => seq![b0, b1, b2, b3],
        ByteOrder::Big => seq![b3, b2, b1, b0],
    }
}

/// Reading a word back from the bytes that spell it gives the word, whatever
/// follows the four bytes.
pub proof fn word_of_spelled(value: int, order: ByteOrder, rest: Seq<u8>)
    requires
        0 <= value < 0x1_0000_0000,
    ensures
        spelled(value, order).len() == 4,
        word(spelled(value, order) + rest, order) == value,
{
    let b0 = value % 256;
    let b1 = (value / 256) % 256;
    let b2 = (value / 65536) % 256;
    let b3 = (value / 16777216) % 256;
    assert(0 <= b0 < 256 && 0 <= b1 < 256 && 0 <= b2 < 256 && 0 <= b3 < 256
        && b0 + 256 * b1 + 65536 * b2 + 16777216 * b3 == value) by (nonlinear_arith)
        requires
            0 <= value < 0x1_0000_0000,
            b0 == value % 256,
            b1 == (value / 256) % 256,
            b2 == (value / 65536) % 256,
            b3 == (value / 16777216) % 256,
    ;
    let bytes = spelled(value, order) + rest;
    match order {
        ByteOrder::Little => {
            assert(bytes[0] == b0 as u8 && bytes[1] == b1 as u8 && bytes[2] == b2 as u8
                && bytes[3] == b3 as u8);
        },
        ByteOrder::Big => {
            assert(bytes[0] == b3 as u8 && bytes[1] == b2 as u8 && bytes[2] == b1 as u8
                && bytes[3] == b0 as u8);
        },
    }
}

/// Whether the payload holds a whole text: the four-byte length, as many bytes
/// of text as the length announces, and the byte that ends the text.
pub open spec fn text_framed(bytes: Seq<u8>, order: ByteOrder) -> bool {
    bytes.len() >= 5 && word(bytes, order) + 5 <= bytes.len()
}

/// A codec outcome, but with a value that was read past the end of a payload
/// of `len` bytes turned into a failure.
pub open spec fn spec_within<V>(outcome: Result<(V, usize), Failure>, len: nat) -> Result<
    (V, usize),
    Failure,
> {
    match outcome {
        Ok((_, read)) if read > len => Err(malformed(cut_short())),
        _ => outcome,
    }
}

/// What is reported of a payload that cannot hold a value, given what the
/// codec says of the declared signature alone: its mismatch, or else that the
/// payload is cut short.
pub open spec fn spec_verdict<V>(outcome: Result<(V, usize), Failure>) -> Result<
    (V, usize),
    Failure,
> {
    match outcome {
        Err(Failure::SignatureMismatch { .. }) => outcome,
        _ => Err(malformed(cut_short())),
    }
}

/// The unsigned number that the first four bytes spell, or `None` where there
/// are fewer than four.
pub fn leading_word(bytes: &[u8], order: ByteOrder) -> (found: Option<u32>)
    ensures
        bytes@.len() < 4 ==> found is None,
        bytes@.len() >= 4 ==> found is Some && found->0 as int == word(bytes@, order),
{
    if bytes.len() < 4 {
        return None;
    }
    let b0: u32 = bytes[0] as u32;
    let b1: u32 = bytes[1] as u32;
    let b2: u32 = bytes[2] as u32;
    let b3: u32 = bytes[3] as u32;
    match order {
        ByteOrder::Little => Some(b0 + 256 * b1 + 65536 * b2 + 16777216 * b3),
        ByteOrder::Big => Some(b3 + 256 * b2 + 65536 * b1 + 16777216 * b0),
    }
}

/// Whether the payload holds a whole text.
pub fn text_is_framed(bytes: &[u8], order: ByteOrder) -> (framed: bool)
    ensures
        framed == text_framed(bytes@, order),
{
    match leading_word(bytes, order) {
        None => false,
        Some(announced) => bytes.len() >= 5 && announced as usize <= bytes.len() - 5,
    }
}

/// Turns a value that the codec read past the end of a payload of `len` bytes
/// into a failure, and leaves every other outcome as it is: no value comes
/// out of bytes that were not there.
pub fn within<B>(outcome: Result<(B, usize), Error>, len: usize) -> (kept: Result<
    (B, usize),
    Error,
>)
    ensures
        outcome is Ok && outcome->Ok_0.1 > len ==> kept is Err && kept->Err_0@ == malformed(
            cut_short(),
        ),
        !(outcome is Ok && outcome->Ok_0.1 > len) ==> kept == outcome,
{
    match outcome {
        Ok((value, read)) => {
            if read > len {
                Err(Error::truncated())
            } else {
                Ok((value, read))
            }
        },
        Err(error) => Err(error),
    }
}

/// Settles what to report of a payload that cannot hold a value, from what
/// the codec says of the declared signature alone: a mismatch stays, and
/// anything else becomes the report of a payload cut short.
pub fn verdict<B>(outcome: Result<(B, usize), Error>) -> (settled: Result<(B, usize), Error>)
    ensures
        outcome is Err && outcome->Err_0@ is SignatureMismatch ==> settled is Err
            && settled->Err_0@ == outcome->Err_0@,
        !(outcome is Err && outcome->Err_0@ is SignatureMismatch) ==> settled is Err
            && settled->Err_0@ == malformed(cut_short()),
{
    match outcome {
        Err(Error::SignatureMismatch { declared, expected }) => Err(
            Error::SignatureMismatch { declared, expected },
        ),
        _ => Err(Error::truncated()),
    }
}

} // verus!
