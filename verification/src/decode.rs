use vstd::prelude::*;

use crate::codec::{
    decode_i32, decode_i32_bool, decode_string, decode_unit, decoded_i32, decoded_i32_bool,
    decoded_string, decoded_unit, i32_bool_read, i32_read, read_i32_bool_unchecked,
    read_i32_unchecked, read_string_unchecked, read_unit_unchecked, string_read,
};
use crate::error::{cut_short, malformed, mismatch, outcome_view, Error, Failure};
use crate::order::ByteOrder;
use crate::wire::{spec_verdict, spec_within, text_framed, text_is_framed, verdict, within};

verus! {

/// A type that a message body can be decoded into.
///
/// The codec is consulted in two ways: under the signature that the message
/// declares, which the codec first holds against the type, and under the
/// type's own signature, with nothing held against anything.
pub trait Decode: View + Sized {
    /// The signature under which a value of this type stands on the wire. At
    /// the top level a value of several fields has the signatures of its
    /// fields one after the other, without enclosing parentheses.
    spec fn signature() -> Seq<char>;

    /// The number of bytes of the shortest encoding of a value of this type.
    spec fn shortest() -> nat;

    /// What decoding `bytes` into this type yields when the message declares
    /// `declared`: the value with the number of bytes read, or the failure.
    spec fn decoded(bytes: Seq<u8>, order: ByteOrder, declared: Seq<char>) -> Result<
        (Self::V, usize),
        Failure,
    >;

    /// What decoding `bytes` into this type yields under the type's own
    /// signature.
    spec fn decoded_unchecked(bytes: Seq<u8>, order: ByteOrder) -> Result<
        (Self::V, usize),
        Failure,
    >;

    /// What holds of the two ways of decoding, for every type: a declared
    /// signature that is the type's own is accepted; a decode that succeeds
    /// under a declared signature yields what the decode without one yields;
    /// the empty signature suits the type without arguments and no other; a
    /// payload shorter than the shortest encoding is malformed; without a
    /// declared signature nothing but malformed bytes is ever reported; and
    /// no value is read from beyond the payload.
    proof fn decoding_laws(bytes: Seq<u8>, order: ByteOrder, declared: Seq<char>)
        ensures
            declared == Self::signature() ==> Self::decoded(bytes, order, declared)
                == Self::decoded_unchecked(bytes, order),
            Self::decoded(bytes, order, declared) is Ok ==> Self::decoded(bytes, order, declared)
                == Self::decoded_unchecked(bytes, order),
            declared.len() == 0 && Self::signature().len() > 0 ==> Self::decoded(
                bytes,
                order,
                declared,
            ) is Err && Self::decoded(bytes, order, declared)->Err_0 is SignatureMismatch,
            Self::signature().len() == 0 ==> Self::decoded_unchecked(bytes, order) is Ok,
            bytes.len() < Self::shortest() ==> Self::decoded_unchecked(bytes, order) is Err,
            Self::decoded_unchecked(bytes, order) is Err ==> Self::decoded_unchecked(
                bytes,
                order,
            )->Err_0 is Malformed,
            Self::decoded_unchecked(bytes, order) is Ok ==> Self::decoded_unchecked(
                bytes,
                order,
            )->Ok_0.1 <= bytes.len(),
    ;

    /// Decodes `bytes` under the signature `declared`. Yields the value and
    /// the number of bytes read.
    fn decode(bytes: &[u8], order: ByteOrder, declared: &str) -> (outcome: Result<
        (Self, usize),
        Error,
    >)
        ensures
            outcome_view(outcome) == Self::decoded(bytes@, order, declared@),
    ;

    /// Decodes `bytes` under this type's own signature. Yields the value and
    /// the number of bytes read.
    fn decode_unchecked(bytes: &[u8], order: ByteOrder) -> (outcome: Result<(Self, usize), Error>)
        ensures
            outcome_view(outcome) == Self::decoded_unchecked(bytes@, order),
    ;
}

/// What the codec yields for a type that it reads under `own` and describes
/// as `expected`, when the message declares `declared`: a mismatch for the
/// empty signature; what it reads without a signature where `declared` is the
/// type's own, and wherever it succeeds; and `named`, its outcome, otherwise.
pub open spec fn under_signature<V>(
    declared: Seq<char>,
    own: Seq<char>,
    expected: Seq<char>,
    named: Result<(V, usize), Failure>,
    read: Result<(V, usize), Failure>,
) -> Result<(V, usize), Failure> {
    if declared.len() == 0 {
        Err(mismatch(declared, expected))
    } else if declared == own || named is Ok {
        read
    } else {
        named
    }
}

impl Decode for () {
    open spec fn signature() -> Seq<char> {
        Seq::empty()
    }

    open spec fn shortest() -> nat {
        0
    }

    open spec fn decoded(bytes: Seq<u8>, order: ByteOrder, declared: Seq<char>) -> Result<
        ((), usize),
        Failure,
    > {
        if declared.len() == 0 || decoded_unit(bytes, order, declared) is Ok {
            Ok(((), 0usize))
        } else {
            decoded_unit(bytes, order, declared)
        }
    }

    open spec fn decoded_unchecked(bytes: Seq<u8>, order: ByteOrder) -> Result<
        ((), usize),
        Failure,
    > {
        Ok(((), 0usize))
    }

    proof fn decoding_laws(bytes: Seq<u8>, order: ByteOrder, declared: Seq<char>) {
        assert(declared == Seq::<char>::empty() ==> declared.len() == 0);
    }

    fn decode(bytes: &[u8], order: ByteOrder, declared: &str) -> (outcome: Result<
        ((), usize),
        Error,
    >) {
        decode_unit(bytes, order, declared)
    }

    fn decode_unchecked(bytes: &[u8], order: ByteOrder) -> (outcome: Result<((), usize), Error>) {
        read_unit_unchecked(bytes, order)
    }
}

impl Decode for i32 {
    open spec fn signature() -> Seq<char> {
        seq!['i']
    }

    open spec fn shortest() -> nat {
        4
    }

    open spec fn decoded(bytes: Seq<u8>, order: ByteOrder, declared: Seq<char>) -> Result<
        (i32, usize),
        Failure,
    > {
        under_signature(
            declared,
            seq!['i'],
            "`i`"@,
            decoded_i32(bytes, order, declared),
            i32_read(bytes, order),
        )
    }

    open spec fn decoded_unchecked(bytes: Seq<u8>, order: ByteOrder) -> Result<
        (i32, usize),
        Failure,
    > {
        i32_read(bytes, order)
    }

    proof fn decoding_laws(bytes: Seq<u8>, order: ByteOrder, declared: Seq<char>) {
    }

    fn decode(bytes: &[u8], order: ByteOrder, declared: &str) -> (outcome: Result<
        (i32, usize),
        Error,
    >) {
        decode_i32(bytes, order, declared)
    }

    fn decode_unchecked(bytes: &[u8], order: ByteOrder) -> (outcome: Result<(i32, usize), Error>) {
        read_i32_unchecked(bytes, order)
    }
}

/// What the codec yields for a text when the message declares `declared`.
pub open spec fn text_under_signature(bytes: Seq<u8>, order: ByteOrder, declared: Seq<char>) -> Result<
    (Seq<char>, usize),
    Failure,
> {
    under_signature(
        declared,
        seq!['s'],
        "`s`"@,
        decoded_string(bytes, order, declared),
        string_read(bytes, order),
    )
}

impl Decode for String {
    open spec fn signature() -> Seq<char> {
        seq!['s']
    }

    open spec fn shortest() -> nat {
        5
    }

    /// Where the payload holds a whole text, what the codec yields for it,
    /// kept within the payload. Where it does not, nothing is read: the
    /// codec is asked about the signature alone, over an empty payload, and a
    /// signature that it accepts leaves the payload as cut short.
    open spec fn decoded(bytes: Seq<u8>, order: ByteOrder, declared: Seq<char>) -> Result<
        (Seq<char>, usize),
        Failure,
    > {
        if text_framed(bytes, order) {
            spec_within(text_under_signature(bytes, order, declared), bytes.len())
        } else {
            spec_verdict(text_under_signature(Seq::empty(), order, declared))
        }
    }

    /// Where the payload holds a whole text, what the codec yields for it,
    /// kept within the payload; where it does not, the payload is cut short.
    open spec fn decoded_unchecked(bytes: Seq<u8>, order: ByteOrder) -> Result<
        (Seq<char>, usize),
        Failure,
    > {
        if text_framed(bytes, order) {
            spec_within(string_read(bytes, order), bytes.len())
        } else {
            Err(malformed(cut_short()))
        }
    }

    proof fn decoding_laws(bytes: Seq<u8>, order: ByteOrder, declared: Seq<char>) {
    }

    fn decode(bytes: &[u8], order: ByteOrder, declared: &str) -> (outcome: Result<
        (String, usize),
        Error,
    >) {
        let len = bytes.len();
        if text_is_framed(bytes, order) {
            within(decode_string(bytes, order, declared), len)
        } else {
            let nothing: Vec<u8> = Vec::new();
            verdict(decode_string(nothing.as_slice(), order, declared))
        }
    }

    fn decode_unchecked(bytes: &[u8], order: ByteOrder) -> (outcome: Result<(String, usize), Error>) {
        let len = bytes.len();
        if text_is_framed(bytes, order) {
            within(read_string_unchecked(bytes, order), len)
        } else {
            Err(Error::truncated())
        }
    }
}

impl Decode for (i32, bool) {
    open spec fn signature() -> Seq<char> {
        seq!['i', 'b']
    }

    open spec fn shortest() -> nat {
        8
    }

    open spec fn decoded(bytes: Seq<u8>, order: ByteOrder, declared: Seq<char>) -> Result<
        ((i32, bool), usize),
        Failure,
    > {
        under_signature(
            declared,
            seq!['i', 'b'],
            "`(ib)`"@,
            decoded_i32_bool(bytes, order, declared),
            i32_bool_read(bytes, order),
        )
    }

    open spec fn decoded_unchecked(bytes: Seq<u8>, order: ByteOrder) -> Result<
        ((i32, bool), usize),
        Failure,
    > {
        i32_bool_read(bytes, order)
    }

    proof fn decoding_laws(bytes: Seq<u8>, order: ByteOrder, declared: Seq<char>) {
    }

    fn decode(bytes: &[u8], order: ByteOrder, declared: &str) -> (outcome: Result<
        ((i32, bool), usize),
        Error,
    >) {
        decode_i32_bool(bytes, order, declared)
    }

    fn decode_unchecked(bytes: &[u8], order: ByteOrder) -> (outcome: Result<
        ((i32, bool), usize),
        Error,
    >) {
        read_i32_bool_unchecked(bytes, order)
    }
}

} // verus!
