//! The calls into the `zvariant` codec. Nothing in this file is proved: each
//! function states what the codec does, as its source shows it.
//!
//! Every call hands the codec the payload as a D-Bus encoding that starts at
//! position 0 of its message, in the given byte order, without file
//! descriptors. The codec's own error is sorted into the two classes of
//! [`Error`]: its `SignatureMismatch` keeps its name and its two fields, every
//! other failure becomes `Malformed` and keeps the codec's text.
//!
//! On the path that takes a declared signature the codec first holds that
//! signature against the target type. Where the two are equal, and wherever
//! the call succeeds, it then reads exactly as on the path that takes none.

use vstd::prelude::*;

use crate::error::{malformed, mismatch, outcome_view, Error, Failure};
use crate::order::ByteOrder;
use crate::wire::{signed, word};

verus! {

/// Whether `Signature::try_from` accepts the text as a signature, that is,
/// whether the text is within the grammar of signatures.
pub uninterp spec fn in_grammar(text: Seq<char>) -> bool;

/// What `Data::deserialize_for_dynamic_signature` yields for target type `()`:
/// the value with the number of bytes read, or the failure.
pub uninterp spec fn decoded_unit(bytes: Seq<u8>, order: ByteOrder, declared: Seq<char>) -> Result<((), usize), Failure>;

/// What `Data::deserialize_for_dynamic_signature` yields for target type
/// `i32`: the value with the number of bytes read, or the failure.
pub uninterp spec fn decoded_i32(bytes: Seq<u8>, order: ByteOrder, declared: Seq<char>) -> Result<(i32, usize), Failure>;

/// What `Data::deserialize_for_dynamic_signature` yields for target type
/// `String`: the text with the number of bytes read, or the failure.
pub uninterp spec fn decoded_string(bytes: Seq<u8>, order: ByteOrder, declared: Seq<char>) -> Result<(Seq<char>, usize), Failure>;

/// What `Data::deserialize_for_dynamic_signature` yields for target type
/// `(i32, bool)`: the pair with the number of bytes read, or the failure.
pub uninterp spec fn decoded_i32_bool(bytes: Seq<u8>, order: ByteOrder, declared: Seq<char>) -> Result<((i32, bool), usize), Failure>;

/// The text of the error with which `Data::deserialize` fails for target type
/// `i32`.
pub uninterp spec fn i32_failure(bytes: Seq<u8>, order: ByteOrder) -> Seq<char>;

/// The text of the error with which `Data::deserialize` fails for target type
/// `(i32, bool)`.
pub uninterp spec fn i32_bool_failure(bytes: Seq<u8>, order: ByteOrder) -> Seq<char>;

/// What `Data::deserialize` yields for target type `String`: the text with
/// the number of bytes read, or the text of the error.
pub uninterp spec fn read_string(bytes: Seq<u8>, order: ByteOrder) -> Result<(Seq<char>, usize), Seq<char>>;

/// What the codec reads as an `i32` under the type's own signature: the first
/// four bytes as a signed integer, or a failure where fewer are there.
pub open spec fn i32_read(bytes: Seq<u8>, order: ByteOrder) -> Result<(i32, usize), Failure> {
    if bytes.len() >= 4 {
        Ok((signed(word(bytes, order)) as i32, 4usize))
    } else {
        Err(malformed(i32_failure(bytes, order)))
    }
}

/// What the codec reads as an `(i32, bool)` under the type's own signature:
/// the first four bytes as a signed integer and the next four as the number 0
/// for `false` or 1 for `true`, or a failure where fewer than eight bytes are
/// there or the second number is another.
pub open spec fn i32_bool_read(bytes: Seq<u8>, order: ByteOrder) -> Result<
    ((i32, bool), usize),
    Failure,
> {
    if bytes.len() >= 8 && word(bytes.subrange(4, 8), order) <= 1 {
        Ok(((signed(word(bytes, order)) as i32, word(bytes.subrange(4, 8), order) == 1), 8usize))
    } else {
        Err(malformed(i32_bool_failure(bytes, order)))
    }
}

/// What the codec reads as a `String` under the type's own signature. Every
/// failure on this path is of the class `Malformed`.
pub open spec fn string_read(bytes: Seq<u8>, order: ByteOrder) -> Result<(Seq<char>, usize), Failure> {
    match read_string(bytes, order) {
        Ok(found) => Ok(found),
        Err(reason) => Err(malformed(reason)),
    }
}

/// Calls `zvariant::Signature::try_from` on the text and tells whether it was
/// accepted.
///
/// Claimed: acceptance is a function of the text, and the empty text, the
/// signature of no arguments, is accepted.
#[verifier::external_body]
pub(crate) fn signature_in_grammar(text: &str) -> (accepted: bool)
    ensures
        accepted == in_grammar(text@),
        text@.len() == 0 ==> accepted,
{
    zvariant::Signature::try_from(text).is_ok()
}

/// Calls `zvariant::serialized::Data::deserialize_for_dynamic_signature` for
/// target type `()`.
///
/// Claimed: the outcome is a function of the three arguments. The type's own
/// signature is the empty one, so an empty `declared` is accepted as equal.
/// Reading `()` consumes nothing and cannot fail.
#[verifier::external_body]
pub(crate) fn decode_unit(bytes: &[u8], order: ByteOrder, declared: &str) -> (outcome: Result<((), usize), Error>)
    ensures
        outcome_view(outcome) == decoded_unit(bytes@, order, declared@),
        declared@.len() == 0 ==> outcome is Ok,
        outcome is Ok ==> outcome->Ok_0.1 == 0,
{
    let endian = match order {
        ByteOrder::Little => zvariant::Endian::Little,
        ByteOrder::Big => zvariant::Endian::Big,
    };
    let context = zvariant::serialized::Context::new_dbus(endian, 0);
    let data = zvariant::serialized::Data::new(bytes, context);
    match data.deserialize_for_dynamic_signature::<&str, ()>(declared) {
        Ok(found) => Ok(found),
        Err(zvariant::Error::SignatureMismatch(got, want)) => Err(
            Error::SignatureMismatch { declared: got.to_string(), expected: want },
        ),
        Err(other) => Err(Error::Malformed { reason: other.to_string() }),
    }
}

/// Calls `zvariant::serialized::Data::deserialize_for_dynamic_signature` for
/// target type `i32`.
///
/// Claimed: the outcome is a function of the three arguments. An empty
/// `declared` differs from the type's signature `i` and is reported as a
/// mismatch that names both. With `declared` equal to `i`, and whenever the
/// call succeeds, the outcome is the one of [`read_i32_unchecked`].
#[verifier::external_body]
pub(crate) fn decode_i32(bytes: &[u8], order: ByteOrder, declared: &str) -> (outcome: Result<(i32, usize), Error>)
    ensures
        outcome_view(outcome) == decoded_i32(bytes@, order, declared@),
        declared@ == seq!['i'] || outcome is Ok ==> outcome_view(outcome) == i32_read(bytes@, order),
        declared@.len() == 0 ==> outcome is Err && outcome->Err_0@ == mismatch(declared@, "`i`"@),
{
    let endian = match order {
        ByteOrder::Little => zvariant::Endian::Little,
        ByteOrder::Big => zvariant::Endian::Big,
    };
    let context = zvariant::serialized::Context::new_dbus(endian, 0);
    let data = zvariant::serialized::Data::new(bytes, context);
    match data.deserialize_for_dynamic_signature::<&str, i32>(declared) {
        Ok(found) => Ok(found),
        Err(zvariant::Error::SignatureMismatch(got, want)) => Err(
            Error::SignatureMismatch { declared: got.to_string(), expected: want },
        ),
        Err(other) => Err(Error::Malformed { reason: other.to_string() }),
    }
}

/// Calls `zvariant::serialized::Data::deserialize_for_dynamic_signature` for
/// target type `String`.
///
/// Required: the length that the first four bytes announce, and five more,
/// fit a `usize`; the codec adds them up before it looks at the payload's
/// length.
///
/// Claimed: the outcome is a function of the three arguments. An empty
/// `declared` differs from the type's signature `s` and is reported as a
/// mismatch that names both. With `declared` equal to `s`, and whenever the
/// call succeeds, the outcome is the one of [`read_string_unchecked`].
#[verifier::external_body]
pub(crate) fn decode_string(bytes: &[u8], order: ByteOrder, declared: &str) -> (outcome: Result<(String, usize), Error>)
    requires
        bytes@.len() >= 4 ==> word(bytes@, order) + 5 <= usize::MAX,
    ensures
        outcome_view(outcome) == decoded_string(bytes@, order, declared@),
        declared@ == seq!['s'] || outcome is Ok ==> outcome_view(outcome) == string_read(bytes@, order),
        declared@.len() == 0 ==> outcome is Err && outcome->Err_0@ == mismatch(declared@, "`s`"@),
{
    let endian = match order {
        ByteOrder::Little => zvariant::Endian::Little,
        ByteOrder::Big => zvariant::Endian::Big,
    };
    let context = zvariant::serialized::Context::new_dbus(endian, 0);
    let data = zvariant::serialized::Data::new(bytes, context);
    match data.deserialize_for_dynamic_signature::<&str, String>(declared) {
        Ok(found) => Ok(found),
        Err(zvariant::Error::SignatureMismatch(got, want)) => Err(
            Error::SignatureMismatch { declared: got.to_string(), expected: want },
        ),
        Err(other) => Err(Error::Malformed { reason: other.to_string() }),
    }
}

/// Calls `zvariant::serialized::Data::deserialize_for_dynamic_signature` for
/// target type `(i32, bool)`.
///
/// Claimed: the outcome is a function of the three arguments. An empty
/// `declared` differs from the type's signature and is reported as a mismatch
/// that names both. The codec compares signatures without their outermost
/// parentheses, so `declared` equal to `ib` is accepted; with it, and
/// whenever the call succeeds, the outcome is the one of
/// [`read_i32_bool_unchecked`].
#[verifier::external_body]
pub(crate) fn decode_i32_bool(bytes: &[u8], order: ByteOrder, declared: &str) -> (outcome: Result<((i32, bool), usize), Error>)
    ensures
        outcome_view(outcome) == decoded_i32_bool(bytes@, order, declared@),
        declared@ == seq!['i', 'b'] || outcome is Ok ==> outcome_view(outcome) == i32_bool_read(bytes@, order),
        declared@.len() == 0 ==> outcome is Err && outcome->Err_0@ == mismatch(declared@, "`(ib)`"@),
{
    let endian = match order {
        ByteOrder::Little => zvariant::Endian::Little,
        ByteOrder::Big => zvariant::Endian::Big,
    };
    let context = zvariant::serialized::Context::new_dbus(endian, 0);
    let data = zvariant::serialized::Data::new(bytes, context);
    match data.deserialize_for_dynamic_signature::<&str, (i32, bool)>(declared) {
        Ok(found) => Ok(found),
        Err(zvariant::Error::SignatureMismatch(got, want)) => Err(
            Error::SignatureMismatch { declared: got.to_string(), expected: want },
        ),
        Err(other) => Err(Error::Malformed { reason: other.to_string() }),
    }
}

/// Calls `zvariant::serialized::Data::deserialize` for target type `()`.
///
/// Claimed: reading `()` under its own, empty signature consumes nothing and
/// cannot fail, whatever the bytes are.
#[verifier::external_body]
pub(crate) fn read_unit_unchecked(bytes: &[u8], order: ByteOrder) -> (outcome: Result<((), usize), Error>)
    ensures
        outcome is Ok && outcome->Ok_0.1 == 0,
{
    let endian = match order {
        ByteOrder::Little => zvariant::Endian::Little,
        ByteOrder::Big => zvariant::Endian::Big,
    };
    let context = zvariant::serialized::Context::new_dbus(endian, 0);
    let data = zvariant::serialized::Data::new(bytes, context);
    match data.deserialize::<()>() {
        Ok(found) => Ok(found),
        Err(other) => Err(Error::Malformed { reason: other.to_string() }),
    }
}

/// Calls `zvariant::serialized::Data::deserialize` for target type `i32`.
///
/// Claimed: with four bytes or more the call yields the first four, read as a
/// signed integer in the given byte order, and the count 4. With fewer it
/// fails, and the text of the failure is a function of the two arguments.
#[verifier::external_body]
pub(crate) fn read_i32_unchecked(bytes: &[u8], order: ByteOrder) -> (outcome: Result<(i32, usize), Error>)
    ensures
        outcome_view(outcome) == i32_read(bytes@, order),
        outcome is Err ==> outcome->Err_0@ == malformed(i32_failure(bytes@, order)),
{
    let endian = match order {
        ByteOrder::Little => zvariant::Endian::Little,
        ByteOrder::Big => zvariant::Endian::Big,
    };
    let context = zvariant::serialized::Context::new_dbus(endian, 0);
    let data = zvariant::serialized::Data::new(bytes, context);
    match data.deserialize::<i32>() {
        Ok(found) => Ok(found),
        Err(other) => Err(Error::Malformed { reason: other.to_string() }),
    }
}

/// Calls `zvariant::serialized::Data::deserialize` for target type `String`.
///
/// Required: the length that the first four bytes announce, and five more,
/// fit a `usize`; the codec adds them up before it looks at the payload's
/// length.
///
/// Claimed: the outcome is a function of the two arguments. No signature is
/// compared on this path, so every failure is of the class `Malformed`.
#[verifier::external_body]
pub(crate) fn read_string_unchecked(bytes: &[u8], order: ByteOrder) -> (outcome: Result<(String, usize), Error>)
    requires
        bytes@.len() >= 4 ==> word(bytes@, order) + 5 <= usize::MAX,
    ensures
        outcome_view(outcome) == string_read(bytes@, order),
        outcome is Err ==> read_string(bytes@, order) is Err && outcome->Err_0@ == malformed(
            read_string(bytes@, order)->Err_0,
        ),
{
    let endian = match order {
        ByteOrder::Little => zvariant::Endian::Little,
        ByteOrder::Big => zvariant::Endian::Big,
    };
    let context = zvariant::serialized::Context::new_dbus(endian, 0);
    let data = zvariant::serialized::Data::new(bytes, context);
    match data.deserialize::<String>() {
        Ok(found) => Ok(found),
        Err(other) => Err(Error::Malformed { reason: other.to_string() }),
    }
}

/// Calls `zvariant::serialized::Data::deserialize` for target type
/// `(i32, bool)`.
///
/// Claimed: with eight bytes or more, of which the second four spell 0 or 1,
/// the call yields the first four as a signed integer, `true` for 1 and
/// `false` for 0, and the count 8. Otherwise it fails, and the text of the
/// failure is a function of the two arguments.
#[verifier::external_body]
pub(crate) fn read_i32_bool_unchecked(bytes: &[u8], order: ByteOrder) -> (outcome: Result<((i32, bool), usize), Error>)
    ensures
        outcome_view(outcome) == i32_bool_read(bytes@, order),
        outcome is Err ==> outcome->Err_0@ == malformed(i32_bool_failure(bytes@, order)),
{
    let endian = match order {
        ByteOrder::Little => zvariant::Endian::Little,
        ByteOrder::Big => zvariant::Endian::Big,
    };
    let context = zvariant::serialized::Context::new_dbus(endian, 0);
    let data = zvariant::serialized::Data::new(bytes, context);
    match data.deserialize::<(i32, bool)>() {
        Ok(found) => Ok(found),
        Err(other) => Err(Error::Malformed { reason: other.to_string() }),
    }
}

} // verus!
