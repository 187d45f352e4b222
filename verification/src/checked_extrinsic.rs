use vstd::prelude::*;

verus! {

/// The established authorization source (provenance) of a checked extrinsic.
///
/// Exactly one of the three applies, and it never changes once the record is
/// produced: the execution layer consumes it read-only.
#[derive(Clone, Copy, Debug, PartialEq, Eq)]
pub enum CheckedSignature<AccountId, Extra, SelfContainedSignedInfo> {
    /// Classically authorized: the resolved account together with the
    /// extension data, retained unchanged and in its declared order.
    Signed(AccountId, Extra),
    /// No authorization: an inherent supplied by the block author.
    Unsigned,
    /// Authorized by the call's own embedded scheme; carries exactly the
    /// info the call's verification produced.
    SelfContained(SelfContainedSignedInfo),
}

/// The terminal, dispatch-ready output of checking: a call tagged with its
/// provenance. Produced once, consumed read-only downstream.
#[derive(Clone, Copy, Debug, PartialEq, Eq)]
pub struct CheckedExtrinsic<AccountId, Call, Extra, SelfContainedSignedInfo> {
    /// Who authorized the call, and how.
    pub signed: CheckedSignature<AccountId, Extra, SelfContainedSignedInfo>,
    /// The dispatchable action itself.
    pub function: Call,
}

} // verus!
