use vstd::prelude::*;

verus! {

/// Why checking an extrinsic failed.
///
/// `BadProof` and `CannotLookup` are produced by the checking engine itself;
/// every other variant is a named rejection surfaced verbatim from the signed
/// extension chain, which the engine never invents on its own.
#[derive(Clone, Copy, Debug, PartialEq, Eq, Structural)]
pub enum ValidityError {
    /// A classical signature mismatch, a failed embedded self-contained
    /// verification, or a self-contained call carrying classical signed data.
    BadProof,
    /// The address could not be resolved to an account identifier.
    CannotLookup,
    /// The extension data was built against the wrong runtime version.
    VersionMismatch,
    /// The transaction's mortality window has already closed.
    MortalityExpired,
    /// The transaction's nonce is older than the account's next nonce.
    StaleNonce,
    /// The transaction's nonce is newer than the account's next nonce.
    FutureNonce,
    /// The account cannot cover the declared cost of dispatch.
    InsufficientFee,
    /// The call is not one that may be submitted without a signature.
    UnexpectedCall,
    /// Any other chain-defined rejection, carried through unchanged.
    Custom(u64),
}

} // verus!
