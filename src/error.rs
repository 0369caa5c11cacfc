use vstd::prelude::*;

verus! {

/// Why synthesis, key generation or proving failed.
#[derive(Clone, Copy, PartialEq, Eq, Structural, Debug)]
pub enum SynthesisError {
    /// The witness or the bases ran out before the scalars did.
    AssignmentMissing,
    /// More constraints than the largest supported domain holds.
    PolynomialDegreeTooLarge,
    /// The writers and the polynomial columns differ in length.
    MalformedWireSize,
    /// A point that must not be the point at infinity is.
    UnexpectedIdentity,
    /// Reading the parameters failed.
    IoError,
}

} // verus!
