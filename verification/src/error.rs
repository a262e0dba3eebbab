use vstd::prelude::*;

verus! {

/// Why a body could not be decoded into the type that was asked for.
#[derive(Clone, Debug, PartialEq, Eq)]
pub enum Error {
    /// The signature that the message declares is not one under which the
    /// target type is read. Nothing of the payload was interpreted.
    SignatureMismatch {
        /// The signature that the message declares.
        declared: String,
        /// The codec's description of what the target type expects.
        expected: String,
    },
    /// The bytes are no encoding of the target type: they end early, hold a
    /// value that the encoding forbids, or carry text that is not UTF-8.
    Malformed {
        /// A description of what was met.
        reason: String,
    },
}

/// An [`Error`] with its texts as sequences of characters.
pub enum Failure {
    /// See [`Error::SignatureMismatch`].
    SignatureMismatch { declared: Seq<char>, expected: Seq<char> },
    /// See [`Error::Malformed`].
    Malformed { reason: Seq<char> },
}

/// The failure that reports `declared` as unfit for a type that expects
/// `expected`.
pub open spec fn mismatch(declared: Seq<char>, expected: Seq<char>) -> Failure {
    Failure::SignatureMismatch { declared, expected }
}

/// The failure that reports unreadable bytes, described by `reason`.
pub open spec fn malformed(reason: Seq<char>) -> Failure {
    Failure::Malformed { reason }
}

/// The description given of a payload that ends before the value in it does.
pub open spec fn cut_short() -> Seq<char> {
    "the payload ends before the value that it announces"@
}

impl View for Error {
    type V = Failure;

    open spec fn view(&self) -> Failure {
        match *self {
            Error::SignatureMismatch { declared, expected } => mismatch(declared@, expected@),
            Error::Malformed { reason } => malformed(reason@),
        }
    }
}

/// A codec outcome with the decoded value and the error replaced by their
/// views.
pub open spec fn outcome_view<T: View>(outcome: Result<(T, usize), Error>) -> Result<
    (T::V, usize),
    Failure,
> {
    match outcome {
        Ok((value, read)) => Ok((value@, read)),
        Err(error) => Err(error@),
    }
}

impl Error {
    /// Whether the error reports a signature that the target type rejects.
    pub open spec fn spec_is_signature_mismatch(&self) -> bool {
        self@ is SignatureMismatch
    }

    /// Whether the error reports bytes that could not be read.
    pub open spec fn spec_is_malformed(&self) -> bool {
        self@ is Malformed
    }

    /// The error for a payload that ends before the value in it does.
    pub fn truncated() -> (error: Error)
        ensures
            error@ == malformed(cut_short()),
    {
        Error::Malformed { reason: "the payload ends before the value that it announces".to_owned() }
    }

    /// Whether the error reports a signature that the target type rejects.
    #[verifier::when_used_as_spec(spec_is_signature_mismatch)]
    pub fn is_signature_mismatch(&self) -> (mismatch: bool)
        ensures
            mismatch == self.spec_is_signature_mismatch(),
    {
        match self {
            Error::SignatureMismatch { .. } => true,
            Error::Malformed { .. } => false,
        }
    }

    /// Whether the error reports bytes that could not be read.
    #[verifier::when_used_as_spec(spec_is_malformed)]
    pub fn is_malformed(&self) -> (malformed: bool)
        ensures
            malformed == self.spec_is_malformed(),
    {
        match self {
            Error::SignatureMismatch { .. } => false,
            Error::Malformed { .. } => true,
        }
    }
}

} // verus!
