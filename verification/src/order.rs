use vstd::prelude::*;

verus! {

/// The byte order under which a payload was encoded.
#[derive(Clone, Copy, Debug, PartialEq, Eq, Structural)]
pub enum ByteOrder {
    /// Least significant byte first.
    Little,
    /// Most significant byte first.
    Big,
}

} // verus!
