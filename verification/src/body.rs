use vstd::prelude::*;

use crate::data::Data;
use crate::decode::Decode;
use crate::error::{Error, Failure};
use crate::message::{declarable, str_view, Message};

verus! {

/// A decoded body with the value replaced by its view.
pub open spec fn value_view<T: View>(result: Result<T, Error>) -> Result<T::V, Failure> {
    match result {
        Ok(value) => Ok(value@),
        Err(error) => Err(error@),
    }
}

/// The signature that a decode applies for a message: the declared one, or the
/// empty signature, which stands for a body without arguments, where the
/// message declares none.
pub open spec fn applied(declared: Option<Seq<char>>) -> Seq<char> {
    match declared {
        Some(signature) => signature,
        None => Seq::empty(),
    }
}

/// What a decode returns for a codec outcome: the value without the count of
/// bytes read, or the codec's error as it is.
pub open spec fn spec_value_of<V, E>(outcome: Result<(V, usize), E>) -> Result<V, E> {
    match outcome {
        Ok((value, _)) => Ok(value),
        Err(error) => Err(error),
    }
}

/// The signature to apply where the message may declare none: `declared`
/// itself, or the empty signature.
pub fn applied_signature<'a>(declared: Option<&'a str>) -> (signature: &'a str)
    ensures
        signature@ == applied(str_view(declared)),
{
    match declared {
        Some(signature) => signature,
        None => {
            proof {
                reveal_strlit("");
            }
            ""
        },
    }
}

/// Turns a codec outcome into what a decode returns: the value alone on
/// success, the error unchanged on failure. Nothing is recovered and nothing
/// is decoded in part.
pub fn value_of<B>(outcome: Result<(B, usize), Error>) -> (result: Result<B, Error>)
    ensures
        result == spec_value_of(outcome),
        result is Ok <==> outcome is Ok,
{
    match outcome {
        Ok((value, _)) => Ok(value),
        Err(error) => Err(error),
    }
}

/// The body of a message: the payload bytes, and the message they belong to.
///
/// The body keeps no signature of its own. Whenever one is needed it is asked
/// of the message, so that the message's header stays the one place that says
/// what the bytes are.
#[derive(Clone, Debug)]
pub struct Body {
    data: Data,
    msg: Message,
}

impl Body {
    /// The payload.
    pub closed spec fn spec_data(&self) -> Data {
        self.data
    }

    /// The message that the body belongs to.
    pub closed spec fn spec_message(&self) -> Message {
        self.msg
    }

    /// The signature that the message declares for this body.
    pub open spec fn spec_signature(&self) -> Option<Seq<char>> {
        self.spec_message().declared()
    }

    /// What a decode under the declared signature yields for `B`.
    pub open spec fn spec_deserialize<B: Decode>(&self) -> Result<B::V, Failure> {
        spec_value_of(
            B::decoded(
                self.spec_data()@,
                self.spec_data().spec_order(),
                applied(self.spec_signature()),
            ),
        )
    }

    /// What a decode under the signature of `B` itself yields.
    pub open spec fn spec_deserialize_unchecked<B: Decode>(&self) -> Result<B::V, Failure> {
        spec_value_of(B::decoded_unchecked(self.spec_data()@, self.spec_data().spec_order()))
    }

    /// Binds the payload `data` to `msg`, the message it belongs to.
    pub fn new(data: Data, msg: Message) -> (body: Body)
        ensures
            body.spec_data() == data,
            body.spec_message() == msg,
    {
        Body { data, msg }
    }

    /// Decodes the body under the signature that the message declares, or
    /// under the empty signature where it declares none.
    ///
    /// The signature is held against `B` before a byte is read, and both a
    /// disagreement and unreadable bytes come back as errors. A signature
    /// that is the one of `B` is never answered with a mismatch, a decode
    /// that succeeds yields what [`Body::deserialize_unchecked`] yields, and
    /// a body shorter than the shortest encoding of `B` never yields a value:
    /// under the signature of `B` it is malformed.
    pub fn deserialize<B: Decode>(&self) -> (result: Result<B, Error>)
        ensures
            value_view(result) == self.spec_deserialize::<B>(),
            applied(self.spec_signature()).len() == 0 && B::signature().len() == 0
                ==> result is Ok,
            applied(self.spec_signature()).len() == 0 && B::signature().len() > 0
                ==> result is Err && result->Err_0@ is SignatureMismatch,
            applied(self.spec_signature()) == B::signature() ==> value_view(result)
                == self.spec_deserialize_unchecked::<B>(),
            applied(self.spec_signature()) == B::signature() && self.spec_data()@.len()
                < B::shortest() ==> result is Err && result->Err_0@ is Malformed,
            result is Ok ==> value_view(result) == self.spec_deserialize_unchecked::<B>(),
            self.spec_data()@.len() < B::shortest() ==> result is Err,
    {
        let declared = applied_signature(self.signature());
        proof {
            B::decoding_laws(self.data@, self.data.spec_order(), declared@);
            assert(declared@.len() == 0 && B::signature().len() == 0 ==> declared@
                =~= B::signature());
        }
        value_of(B::decode(self.data.bytes(), self.data.order(), declared))
    }

    /// Decodes the body under the signature of `B` itself. What the message
    /// declares is not consulted, so no disagreement can be reported: the
    /// caller answers for `B` being the type that was encoded. A body shorter
    /// than the shortest encoding of `B` is malformed on this path too.
    pub fn deserialize_unchecked<B: Decode>(&self) -> (result: Result<B, Error>)
        ensures
            value_view(result) == self.spec_deserialize_unchecked::<B>(),
            result is Err ==> result->Err_0@ is Malformed,
            self.spec_data()@.len() < B::shortest() ==> result is Err,
            B::signature().len() == 0 ==> result is Ok,
    {
        proof {
            B::decoding_laws(self.data@, self.data.spec_order(), Seq::empty());
        }
        value_of(B::decode_unchecked(self.data.bytes(), self.data.order()))
    }

    /// The signature of the body as the message declares it, or `None` where
    /// it declares none.
    ///
    /// This is the signature as it stands on the wire: where the body holds
    /// several values, their signatures follow one another without enclosing
    /// parentheses.
    pub fn signature(&self) -> (signature: Option<&str>)
        ensures
            str_view(signature) == self.spec_signature(),
            declarable(self.spec_signature()),
    {
        self.msg.signature()
    }

    /// The length of the body in bytes.
    pub fn len(&self) -> (n: usize)
        ensures
            n == self.spec_data()@.len(),
    {
        self.data.len()
    }

    /// Whether the body holds no byte.
    pub fn is_empty(&self) -> (empty: bool)
        ensures
            empty == (self.spec_data()@.len() == 0),
    {
        self.data.is_empty()
    }

    /// The payload: the bytes of the body and their byte order.
    pub fn data(&self) -> (data: &Data)
        ensures
            *data == self.spec_data(),
    {
        &self.data
    }

    /// The message that the body belongs to.
    pub fn message(&self) -> (msg: &Message)
        ensures
            *msg == self.spec_message(),
    {
        &self.msg
    }
}

} // verus!
