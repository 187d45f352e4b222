use vstd::prelude::*;

use crate::checked_extrinsic::{CheckedExtrinsic, CheckedSignature};
use crate::error::ValidityError;
use crate::traits::{
    AccountResolver, DispatchInfo, GetDispatchInfo, SelfContainedCall, SignatureScheme,
    SignedExtensionChain,
};

verus! {

/// The stable version tag of the extrinsic wire format, exposed for
/// wire-format negotiation by the codec layer.
pub const EXTRINSIC_FORMAT_VERSION: u8 = 4;

/// An extrinsic right from the external world: a call plus optional classical
/// authorization data, not yet checked.
///
/// Whether a call is self-contained is a property of the call, not a separate
/// envelope variant, so the same shape can syntactically carry classical
/// signed data even for a self-contained call; the checking engine rejects
/// that combination, it is not forbidden at the type level.
#[derive(Clone, Copy, Debug, PartialEq, Eq)]
pub struct UncheckedExtrinsic<Address, Call, Signature, Extra> {
    /// The dispatchable action being submitted.
    pub function: Call,
    /// Classical authorization data, if any: the sender's address, the
    /// signature, and the extension data in its declared order.
    pub signature: Option<(Address, Signature, Extra)>,
}

/// What checking an extrinsic yields, as a function of the envelope, the
/// collaborators' declared behaviour, and the pinned snapshot behind the
/// resolver.
///
/// Self-contained calls must carry no classical signed data (dual
/// authorization is `BadProof` unconditionally) and are then accepted or
/// rejected by their own embedded verification, a failure surfacing as
/// `BadProof`. Every other call goes through the classical path: resolve the
/// address, verify the signature over the canonical payload, then run the
/// extension chain in declared order, surfacing its first rejection verbatim;
/// unsigned envelopes run only the unsigned subset of the chain.
pub open spec fn check_spec<Address, Call, Signature, Extra, AccountId, L>(
    ext: UncheckedExtrinsic<Address, Call, Signature, Extra>,
    resolver: L,
) -> Result<CheckedExtrinsic<AccountId, Call, Extra, Call::SignedInfo>, ValidityError> where
    Call: SelfContainedCall,
    Signature: SignatureScheme<Call, Extra, AccountId>,
    Extra: SignedExtensionChain<AccountId, Call>,
    L: AccountResolver<Address, AccountId>,
{
    if ext.function.self_contained() {
        if ext.signature is Some {
            Err(ValidityError::BadProof)
        } else {
            match ext.function.self_check_result() {
                Ok(info) => Ok(
                    (CheckedExtrinsic {
                        signed: CheckedSignature::SelfContained(info),
                        function: ext.function,
                    }),
                ),
                Err(_) => Err(ValidityError::BadProof),
            }
        }
    } else {
        match ext.signature {
            Some((address, sig, extra)) => match resolver.resolve(address) {
                None => Err(ValidityError::CannotLookup),
                Some(who) => if !sig.valid_over(ext.function, extra, who) {
                    Err(ValidityError::BadProof)
                } else {
                    match extra.validate_result(who, ext.function) {
                        Err(e) => Err(e),
                        Ok(()) => Ok(
                            (CheckedExtrinsic {
                                signed: CheckedSignature::Signed(who, extra),
                                function: ext.function,
                            }),
                        ),
                    }
                },
            },
            None => match Extra::validate_unsigned_result(ext.function) {
                Err(e) => Err(e),
                Ok(()) => Ok(
                    (CheckedExtrinsic {
                        signed: CheckedSignature::Unsigned,
                        function: ext.function,
                    }),
                ),
            },
        }
    }
}

/// What the dry-run conversion yields: the same self-contained/classical
/// branching as `check_spec`, but with classical signature verification and
/// the extension chain skipped. Because its input is already trusted, a
/// self-contained call's classical signed data is ignored rather than
/// rejected here; embedded verification still runs, and its failure is still
/// propagated rather than downgraded.
pub open spec fn dry_run_spec<Address, Call, Signature, Extra, AccountId, L>(
    ext: UncheckedExtrinsic<Address, Call, Signature, Extra>,
    resolver: L,
) -> Result<CheckedExtrinsic<AccountId, Call, Extra, Call::SignedInfo>, ValidityError> where
    Call: SelfContainedCall,
    L: AccountResolver<Address, AccountId>,
{
    if ext.function.self_contained() {
        match ext.function.self_check_result() {
            Ok(info) => Ok(
                (CheckedExtrinsic {
                    signed: CheckedSignature::SelfContained(info),
                    function: ext.function,
                }),
            ),
            Err(_) => Err(ValidityError::BadProof),
        }
    } else {
        match ext.signature {
            Some((address, _sig, extra)) => match resolver.resolve(address) {
                None => Err(ValidityError::CannotLookup),
                Some(who) => Ok(
                    (CheckedExtrinsic {
                        signed: CheckedSignature::Signed(who, extra),
                        function: ext.function,
                    }),
                ),
            },
            None => Ok(
                (CheckedExtrinsic {
                    signed: CheckedSignature::Unsigned,
                    function: ext.function,
                }),
            ),
        }
    }
}

impl<Address, Call, Signature, Extra> UncheckedExtrinsic<Address, Call, Signature, Extra> {
    /// New instance of a signed extrinsic, aka "transaction". Pure
    /// construction: nothing is verified here.
    pub fn new_signed(function: Call, signed: Address, signature: Signature, extra: Extra) -> (r:
        Self)
        ensures
            r == (UncheckedExtrinsic { function, signature: Some((signed, signature, extra)) }),
    {
        UncheckedExtrinsic { function, signature: Some((signed, signature, extra)) }
    }

    /// New instance of an unsigned extrinsic, aka "inherent". Pure
    /// construction: nothing is verified here.
    pub fn new_unsigned(function: Call) -> (r: Self)
        ensures
            r == (UncheckedExtrinsic { function, signature: None::<(Address, Signature, Extra)> }),
    {
        UncheckedExtrinsic { function, signature: None }
    }

    /// Read-only access to the wrapped call. Never triggers checking.
    pub fn call(&self) -> (r: &Call)
        ensures
            *r == self.function,
    {
        &self.function
    }
}

impl<Address, Call: SelfContainedCall, Signature, Extra> UncheckedExtrinsic<
    Address,
    Call,
    Signature,
    Extra,
> {
    /// Whether the extrinsic has an authorization source at all: `true` for a
    /// self-contained call even though no classical signature exists,
    /// otherwise whether classical signed data is present.
    pub fn is_signed(&self) -> (r: Option<bool>)
        ensures
            r == Some(self.function.self_contained() || self.signature is Some),
    {
        if self.function.is_self_contained() {
            Some(true)
        } else {
            Some(self.signature.is_some())
        }
    }

    /// Constructs an extrinsic from a call and optional classical signed
    /// data, mirroring the checking-time contract: the combination of a
    /// self-contained call with classical signed data is rejected already at
    /// construction time.
    pub fn new(function: Call, signed_data: Option<(Address, Signature, Extra)>) -> (r: Option<
        Self,
    >)
        ensures
            r == (if function.self_contained() && signed_data is Some {
                None::<Self>
            } else {
                Some(UncheckedExtrinsic { function, signature: signed_data })
            }),
    {
        if function.is_self_contained() && signed_data.is_some() {
            None
        } else {
            Some(UncheckedExtrinsic { function, signature: signed_data })
        }
    }

    /// The checking engine: consumes the envelope and produces the
    /// dispatch-ready record or the reason checking failed, exactly as
    /// `check_spec` describes.
    pub fn check<AccountId, L>(self, resolver: &L) -> (r: Result<
        CheckedExtrinsic<AccountId, Call, Extra, Call::SignedInfo>,
        ValidityError,
    >) where
        Signature: SignatureScheme<Call, Extra, AccountId>,
        Extra: SignedExtensionChain<AccountId, Call>,
        L: AccountResolver<Address, AccountId>,

        ensures
            r == check_spec(self, *resolver),
    {
        let UncheckedExtrinsic { function, signature } = self;
        if function.is_self_contained() {
            if signature.is_some() {
                return Err(ValidityError::BadProof);
            }
            match function.check_self_contained() {
                Some(Ok(info)) => Ok(
                    CheckedExtrinsic {
                        signed: CheckedSignature::SelfContained(info),
                        function,
                    },
                ),
                Some(Err(_)) => Err(ValidityError::BadProof),
                // Unreachable under the capability contract; were a call
                // implementation ever to break that contract, this still
                // refuses rather than succeeds.
                None => Err(ValidityError::BadProof),
            }
        } else {
            match signature {
                Some((address, sig, extra)) => {
                    match resolver.lookup(&address) {
                        None => Err(ValidityError::CannotLookup),
                        Some(who) => {
                            if !sig.verify(&function, &extra, &who) {
                                Err(ValidityError::BadProof)
                            } else {
                                match extra.validate(&who, &function) {
                                    Err(e) => Err(e),
                                    Ok(()) => Ok(
                                        CheckedExtrinsic {
                                            signed: CheckedSignature::Signed(who, extra),
                                            function,
                                        },
                                    ),
                                }
                            }
                        },
                    }
                },
                None => {
                    match Extra::validate_unsigned(&function) {
                        Err(e) => Err(e),
                        Ok(()) => Ok(
                            CheckedExtrinsic { signed: CheckedSignature::Unsigned, function },
                        ),
                    }
                },
            }
        }
    }

    /// Dry-run conversion for offline inspection and state-transition replay
    /// tooling only: it skips classical signature verification and the
    /// extension chain, so it must never stand on a production admission
    /// path — production code calls `check`. A failed embedded verification
    /// is still propagated, never downgraded to unsigned provenance.
    pub fn unchecked_into_checked_i_know_what_i_am_doing<AccountId, L>(self, resolver: &L) -> (r:
        Result<CheckedExtrinsic<AccountId, Call, Extra, Call::SignedInfo>, ValidityError>) where
        L: AccountResolver<Address, AccountId>,

        ensures
            r == dry_run_spec(self, *resolver),
    {
        let UncheckedExtrinsic { function, signature } = self;
        if function.is_self_contained() {
            match function.check_self_contained() {
                Some(Ok(info)) => Ok(
                    CheckedExtrinsic {
                        signed: CheckedSignature::SelfContained(info),
                        function,
                    },
                ),
                Some(Err(_)) => Err(ValidityError::BadProof),
                // Unreachable under the capability contract, and refused if a
                // call implementation ever broke it.
                None => Err(ValidityError::BadProof),
            }
        } else {
            match signature {
                Some((address, _sig, extra)) => {
                    match resolver.lookup(&address) {
                        None => Err(ValidityError::CannotLookup),
                        Some(who) => Ok(
                            CheckedExtrinsic {
                                signed: CheckedSignature::Signed(who, extra),
                                function,
                            },
                        ),
                    }
                },
                None => Ok(CheckedExtrinsic { signed: CheckedSignature::Unsigned, function }),
            }
        }
    }
}

impl<Address, Call: GetDispatchInfo, Signature, Extra> UncheckedExtrinsic<
    Address,
    Call,
    Signature,
    Extra,
> {
    /// The wrapped call's dispatch descriptor, for fee estimation and block
    /// building. Never triggers checking.
    pub fn get_dispatch_info(&self) -> (r: DispatchInfo)
        ensures
            r == self.function.dispatch_info_spec(),
    {
        self.function.get_dispatch_info()
    }
}

} // verus!
