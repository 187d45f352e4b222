use vstd::prelude::*;

use crate::error::ValidityError;

verus! {

/// The per-call-type capability that lets a call declare and verify its own
/// embedded authorization, independently of the chain's classical
/// account-signature scheme.
///
/// The contract ties `check_self_contained` to `is_self_contained`: the
/// embedded verification is present exactly for self-contained calls, and for
/// a given call value it always produces the same outcome, so checking stays
/// a pure function of the envelope.
pub trait SelfContainedCall: Sized {
    /// The opaque bundle the embedded verification produces on success:
    /// the embedded signer's identity plus whatever extension-equivalent
    /// context the embedded scheme supplies.
    type SignedInfo;

    /// Whether this call carries its own embedded authorization.
    spec fn self_contained(&self) -> bool;

    /// The outcome of the embedded verification for this call value.
    /// Meaningful only when the call is self-contained.
    spec fn self_check_result(&self) -> Result<Self::SignedInfo, ValidityError>;

    /// Pure, side-effect-free, stable for a given call value.
    fn is_self_contained(&self) -> (r: bool)
        ensures
            r == self.self_contained(),
    ;

    /// Runs the embedded verification. Absent exactly when the call is not
    /// self-contained; otherwise reports the verification's outcome.
    fn check_self_contained(&self) -> (r: Option<Result<Self::SignedInfo, ValidityError>>)
        ensures
            (r is Some) == self.self_contained(),
            self.self_contained() ==> r == Some(self.self_check_result()),
    ;
}

/// The account resolver: maps an address-like identifier to a canonical
/// account identifier against a pinned, immutable snapshot of chain state.
/// The engine never mutates or re-queries the snapshot, so a resolver value
/// answers every lookup the same way.
pub trait AccountResolver<Address, AccountId>: Sized {
    /// What the pinned snapshot maps this address to, if anything.
    spec fn resolve(&self, address: Address) -> Option<AccountId>;

    fn lookup(&self, address: &Address) -> (r: Option<AccountId>)
        ensures
            r == self.resolve(*address),
    ;
}

/// The classical signature scheme: a signature value can be verified against
/// the canonical signing payload (the call together with its extension data)
/// and a resolved account identifier.
pub trait SignatureScheme<Call, Extra, AccountId>: Sized {
    /// Whether this signature is valid over the given payload for the given
    /// signer.
    spec fn valid_over(&self, call: Call, extra: Extra, signer: AccountId) -> bool;

    fn verify(&self, call: &Call, extra: &Extra, signer: &AccountId) -> (r: bool)
        ensures
            r == self.valid_over(*call, *extra, *signer),
    ;
}

/// The signed extension chain: the ordered pre-dispatch validators a chain
/// declares (nonce freshness, mortality, version, fees, ...). The extension
/// data implementing this trait travels with the envelope and, for classical
/// signed transactions, is retained unchanged in the checked record.
///
/// A rejection is a named reason the engine surfaces verbatim; the first
/// rejection in declared order wins.
pub trait SignedExtensionChain<AccountId, Call>: Sized {
    /// The verdict of the full chain, in declared order, for a classical
    /// signed transaction.
    spec fn validate_result(&self, who: AccountId, call: Call) -> Result<(), ValidityError>;

    /// The verdict of the subset of checks that applies to unsigned
    /// (inherent) transactions, which carry no extension data.
    spec fn validate_unsigned_result(call: Call) -> Result<(), ValidityError>;

    fn validate(&self, who: &AccountId, call: &Call) -> (r: Result<(), ValidityError>)
        ensures
            r == self.validate_result(*who, *call),
    ;

    fn validate_unsigned(call: &Call) -> (r: Result<(), ValidityError>)
        ensures
            r == Self::validate_unsigned_result(*call),
    ;
}

/// How a dispatch is classified for block-resource accounting.
#[derive(Clone, Copy, Debug, PartialEq, Eq, Structural)]
pub enum DispatchClass {
    /// An ordinary user-submitted dispatch.
    Normal,
    /// A dispatch the chain prioritises above normal traffic.
    Operational,
    /// A dispatch every block must include.
    Mandatory,
}

/// The dispatch-weight / fee-estimation descriptor of a call, consumed by
/// fee estimation and block building.
#[derive(Clone, Copy, Debug, PartialEq, Eq, Structural)]
pub struct DispatchInfo {
    /// Declared execution weight of the dispatch.
    pub weight: u64,
    /// Resource class of the dispatch.
    pub class: DispatchClass,
    /// Whether the submitter pays the dispatch fee.
    pub pays_fee: bool,
}

/// Read-only access to a call's dispatch descriptor. Accessing it never
/// triggers checking.
pub trait GetDispatchInfo {
    /// The descriptor this call value declares.
    spec fn dispatch_info_spec(&self) -> DispatchInfo;

    fn get_dispatch_info(&self) -> (r: DispatchInfo)
        ensures
            r == self.dispatch_info_spec(),
    ;
}

} // verus!
