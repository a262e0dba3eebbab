use vstd::prelude::*;

use crate::order::ByteOrder;

verus! {

/// The encoded bytes of a message body together with the byte order they were
/// written in. Neither changes once the value is built.
#[derive(Clone, Debug)]
pub struct Data {
    bytes: Vec<u8>,
    order: ByteOrder,
}

impl View for Data {
    type V = Seq<u8>;

    /// The stored bytes.
    closed spec fn view(&self) -> Seq<u8> {
        self.bytes@
    }
}

impl Data {
    /// The byte order of the stored bytes.
    pub closed spec fn spec_order(&self) -> ByteOrder {
        self.order
    }

    /// The number of stored bytes.
    pub open spec fn spec_len(&self) -> nat {
        self@.len()
    }

    /// Whether no byte is stored.
    pub open spec fn spec_is_empty(&self) -> bool {
        self.spec_len() == 0
    }

    /// Stores `bytes`, which were encoded under `order`.
    pub fn new(bytes: Vec<u8>, order: ByteOrder) -> (data: Data)
        ensures
            data@ == bytes@,
            data.spec_order() == order,
    {
        Data { bytes, order }
    }

    /// The number of stored bytes.
    pub fn len(&self) -> (n: usize)
        ensures
            n == self.spec_len(),
    {
        self.bytes.len()
    }

    /// Whether no byte is stored.
    #[verifier::when_used_as_spec(spec_is_empty)]
    pub fn is_empty(&self) -> (empty: bool)
        ensures
            empty == self.spec_is_empty(),
    {
        self.bytes.len() == 0
    }

    /// The stored bytes, borrowed.
    pub fn bytes(&self) -> (bytes: &[u8])
        ensures
            bytes@ == self@,
    {
        self.bytes.as_slice()
    }

    /// The byte order of the stored bytes.
    #[verifier::when_used_as_spec(spec_order)]
    pub fn order(&self) -> (order: ByteOrder)
        ensures
            order == self.spec_order(),
    {
        self.order
    }
}

} // verus!
