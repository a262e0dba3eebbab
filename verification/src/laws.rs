//! What holds of payloads and bodies whatever they contain.

use vstd::prelude::*;

use crate::body::{applied, spec_value_of, Body};
use crate::data::Data;
use crate::decode::Decode;
use crate::error::Failure;
use crate::order::ByteOrder;
use crate::wire::{signed, spelled, unsigned, word_of_spelled};

verus! {

/// A payload built from `bytes` has exactly their number as its length, and is
/// empty exactly when there are none.
pub proof fn length_is_the_count_given(bytes: Seq<u8>, order: ByteOrder, data: Data)
    requires
        data@ == bytes,
        data.spec_order() == order,
    ensures
        data.spec_len() == bytes.len(),
        data.spec_is_empty() <==> bytes.len() == 0,
{
}

/// Length and emptiness are decided by the bytes alone: two payloads with the
/// same bytes agree on both, whatever their byte orders.
pub proof fn length_depends_on_the_bytes_alone(one: Data, other: Data)
    requires
        one@ == other@,
    ensures
        one.spec_len() == other.spec_len(),
        one.spec_is_empty() == other.spec_is_empty(),
{
}

/// A decode is decided by the bytes, their byte order and the signature that
/// the message declares: two bodies that agree on the three decode alike, and
/// a message that declares the empty signature stands for one that declares
/// none.
pub proof fn decode_depends_on_bytes_order_and_signature<B: Decode>(one: Body, other: Body)
    requires
        one.spec_data()@ == other.spec_data()@,
        one.spec_data().spec_order() == other.spec_data().spec_order(),
        applied(one.spec_signature()) == applied(other.spec_signature()),
    ensures
        one.spec_deserialize::<B>() == other.spec_deserialize::<B>(),
        one.spec_deserialize_unchecked::<B>() == other.spec_deserialize_unchecked::<B>(),
{
}

/// A decode recovers nothing and invents nothing: it succeeds exactly when the
/// codec does, with the codec's value, and fails with the codec's failure.
pub proof fn decode_passes_the_codec_outcome_on<V>(outcome: Result<(V, usize), Failure>)
    ensures
        spec_value_of(outcome) is Ok <==> outcome is Ok,
        outcome is Ok ==> spec_value_of(outcome) == Ok::<V, Failure>(outcome->Ok_0.0),
        outcome is Err ==> spec_value_of(outcome) == Err::<V, Failure>(outcome->Err_0),
{
}

/// Where the message declares no signature, or the empty one, a decode into
/// the type without arguments succeeds, and a decode into any other type
/// fails and reports a signature mismatch.
pub proof fn no_signature_suits_the_empty_type_alone<B: Decode>(body: Body)
    requires
        applied(body.spec_signature()).len() == 0,
    ensures
        B::signature().len() == 0 ==> body.spec_deserialize::<B>() is Ok,
        B::signature().len() > 0 ==> body.spec_deserialize::<B>() is Err
            && body.spec_deserialize::<B>()->Err_0 is SignatureMismatch,
{
    B::decoding_laws(
        body.spec_data()@,
        body.spec_data().spec_order(),
        applied(body.spec_signature()),
    );
    assert(B::signature().len() == 0 ==> applied(body.spec_signature()) =~= B::signature());
}

/// A body with fewer bytes than the shortest encoding of the target type
/// yields no value, whatever the message declares, and under the type's own
/// signature, declared or implied, it is reported as malformed.
pub proof fn too_short_is_malformed<B: Decode>(body: Body)
    requires
        body.spec_data()@.len() < B::shortest(),
    ensures
        body.spec_deserialize_unchecked::<B>() is Err,
        body.spec_deserialize_unchecked::<B>()->Err_0 is Malformed,
        body.spec_deserialize::<B>() is Err,
        applied(body.spec_signature()) == B::signature() ==> body.spec_deserialize::<B>()->Err_0
            is Malformed,
{
    B::decoding_laws(
        body.spec_data()@,
        body.spec_data().spec_order(),
        applied(body.spec_signature()),
    );
}

/// Holding the declared signature against the type changes no value: a decode
/// that succeeds under the declared signature yields what the decode under
/// the type's own signature yields, and where the declared signature is the
/// type's own the two agree in failure too.
pub proof fn signature_decides_acceptance_alone<B: Decode>(body: Body)
    ensures
        body.spec_deserialize::<B>() is Ok ==> body.spec_deserialize::<B>()
            == body.spec_deserialize_unchecked::<B>(),
        applied(body.spec_signature()) == B::signature() ==> body.spec_deserialize::<B>()
            == body.spec_deserialize_unchecked::<B>(),
{
    B::decoding_laws(
        body.spec_data()@,
        body.spec_data().spec_order(),
        applied(body.spec_signature()),
    );
}

/// Without a declared signature nothing but malformed bytes is ever reported,
/// and no decode yields a value that was read from beyond the payload.
pub proof fn unchecked_decode_reports_malformed_alone<B: Decode>(body: Body)
    ensures
        body.spec_deserialize_unchecked::<B>() is Err ==> body.spec_deserialize_unchecked::<
            B,
        >()->Err_0 is Malformed,
        B::decoded_unchecked(body.spec_data()@, body.spec_data().spec_order()) is Ok
            ==> B::decoded_unchecked(body.spec_data()@, body.spec_data().spec_order())->Ok_0.1
            <= body.spec_data()@.len(),
{
    B::decoding_laws(
        body.spec_data()@,
        body.spec_data().spec_order(),
        applied(body.spec_signature()),
    );
}

/// An integer is read back from the four bytes that spell it: a payload that
/// begins with them, in the payload's byte order, decodes to the integer both
/// under the signature `i` and without one, whatever follows them.
pub proof fn integer_reads_back_from_its_bytes(value: i32, order: ByteOrder, rest: Seq<u8>)
    ensures
        <i32 as Decode>::decoded_unchecked(spelled(unsigned(value as int), order) + rest, order)
            == Ok::<(i32, usize), Failure>((value, 4usize)),
        <i32 as Decode>::decoded(spelled(unsigned(value as int), order) + rest, order, seq!['i'])
            == Ok::<(i32, usize), Failure>((value, 4usize)),
{
    word_of_spelled(unsigned(value as int), order, rest);
    assert(signed(unsigned(value as int)) == value);
}

/// An integer and a truth value are read back from the eight bytes that spell
/// them, the truth value as the word 1 or 0: a payload that begins with them
/// decodes to the pair both under the signature `ib` and without one.
pub proof fn pair_reads_back_from_its_bytes(
    value: i32,
    flag: bool,
    order: ByteOrder,
    rest: Seq<u8>,
)
    ensures
        <(i32, bool) as Decode>::decoded_unchecked(
            spelled(unsigned(value as int), order) + spelled(if flag { 1 } else { 0 }, order)
                + rest,
            order,
        ) == Ok::<((i32, bool), usize), Failure>(((value, flag), 8usize)),
        <(i32, bool) as Decode>::decoded(
            spelled(unsigned(value as int), order) + spelled(if flag { 1 } else { 0 }, order)
                + rest,
            order,
            seq!['i', 'b'],
        ) == Ok::<((i32, bool), usize), Failure>(((value, flag), 8usize)),
{
    let first = spelled(unsigned(value as int), order);
    let second = spelled(if flag { 1 } else { 0 }, order);
    let bytes = first + second + rest;
    word_of_spelled(unsigned(value as int), order, second + rest);
    word_of_spelled(if flag { 1 } else { 0 }, order, rest);
    assert(bytes =~= first + (second + rest));
    assert(bytes.subrange(4, 8) =~= second);
    assert(second =~= second + Seq::<u8>::empty());
    word_of_spelled(if flag { 1 } else { 0 }, order, Seq::<u8>::empty());
    assert(signed(unsigned(value as int)) == value);
}

} // verus!
