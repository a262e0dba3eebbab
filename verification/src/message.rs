use vstd::prelude::*;

use crate::codec::{in_grammar, signature_in_grammar};

verus! {

/// The view of an optional text: the characters it holds, if it is there.
pub open spec fn text_view(text: Option<String>) -> Option<Seq<char>> {
    match text {
        Some(held) => Some(held@),
        None => None,
    }
}

/// The view of an optional borrowed text.
pub open spec fn str_view(text: Option<&str>) -> Option<Seq<char>> {
    match text {
        Some(held) => Some(held@),
        None => None,
    }
}

/// Whether a message can declare `signature`: it declares none, or one that
/// is within the grammar of signatures.
pub open spec fn declarable(signature: Option<Seq<char>>) -> bool {
    match signature {
        Some(text) => in_grammar(text),
        None => true,
    }
}

/// The message that a body belongs to, as far as the body consults it: the
/// signature that its header declares for the body, if it declares one.
///
/// A message never declares a text that is no signature.
#[derive(Debug)]
pub struct Message {
    signature: Option<String>,
}

impl Message {
    #[verifier::type_invariant]
    spec fn well_formed(self) -> bool {
        declarable(text_view(self.signature))
    }

    /// The signature that the header declares for the body.
    pub closed spec fn declared(&self) -> Option<Seq<char>> {
        text_view(self.signature)
    }

    /// A message whose header declares `signature` for its body, or none.
    /// There is no message for a text outside the grammar of signatures.
    pub fn new(signature: Option<String>) -> (message: Option<Message>)
        ensures
            message is Some <==> declarable(text_view(signature)),
            message is Some ==> message->0.declared() == text_view(signature),
    {
        let accepted = match &signature {
            Some(text) => signature_in_grammar(text.as_str()),
            None => true,
        };
        if accepted {
            Some(Message { signature })
        } else {
            None
        }
    }

    /// The signature that the header declares for the body, as it stands on
    /// the wire.
    pub fn signature(&self) -> (signature: Option<&str>)
        ensures
            str_view(signature) == self.declared(),
            declarable(self.declared()),
    {
        proof {
            use_type_invariant(self);
        }
        match &self.signature {
            Some(held) => Some(held.as_str()),
            None => None,
        }
    }
}

impl Clone for Message {
    fn clone(&self) -> (copy: Message)
        ensures
            copy.declared() == self.declared(),
    {
        proof {
            use_type_invariant(self);
        }
        Message { signature: self.signature.clone() }
    }
}

} // verus!
