use vstd::prelude::*;

use crate::checked_extrinsic::{CheckedExtrinsic, CheckedSignature};
use crate::error::ValidityError;
use crate::traits::{AccountResolver, SelfContainedCall, SignatureScheme, SignedExtensionChain};
use crate::unchecked_extrinsic::{check_spec, dry_run_spec, UncheckedExtrinsic};

verus! {

/// For every non-self-contained call whose envelope carries a resolvable
/// address, a signature valid over the canonical payload, and extension data
/// the whole chain accepts, checking yields Signed provenance with the
/// resolved account identifier and the extension data unmodified.
pub proof fn lemma_classical_accepted<Address, Call, Signature, Extra, AccountId, L>(
    ext: UncheckedExtrinsic<Address, Call, Signature, Extra>,
    resolver: L,
    address: Address,
    sig: Signature,
    extra: Extra,
    who: AccountId,
) where
    Call: SelfContainedCall,
    Signature: SignatureScheme<Call, Extra, AccountId>,
    Extra: SignedExtensionChain<AccountId, Call>,
    L: AccountResolver<Address, AccountId>,

    requires
        !ext.function.self_contained(),
        ext.signature == Some((address, sig, extra)),
        resolver.resolve(address) == Some(who),
        sig.valid_over(ext.function, extra, who),
        extra.validate_result(who, ext.function) == Ok::<(), ValidityError>(()),
    ensures
        check_spec(ext, resolver) == Ok::<_, ValidityError>(
            (CheckedExtrinsic {
                signed: CheckedSignature::<AccountId, Extra, Call::SignedInfo>::Signed(who, extra),
                function: ext.function,
            }),
        ),
{
}

/// For every self-contained call, an envelope additionally carrying classical
/// signed data is rejected with `BadProof`, with no hypothesis on whether
/// that classical signature would itself have been valid.
pub proof fn lemma_self_contained_rejects_classical_data<
    Address,
    Call,
    Signature,
    Extra,
    AccountId,
    L,
>(ext: UncheckedExtrinsic<Address, Call, Signature, Extra>, resolver: L) where
    Call: SelfContainedCall,
    Signature: SignatureScheme<Call, Extra, AccountId>,
    Extra: SignedExtensionChain<AccountId, Call>,
    L: AccountResolver<Address, AccountId>,

    requires
        ext.function.self_contained(),
        ext.signature is Some,
    ensures
        check_spec::<Address, Call, Signature, Extra, AccountId, L>(ext, resolver) == Err::<
            CheckedExtrinsic<AccountId, Call, Extra, Call::SignedInfo>,
            _,
        >(ValidityError::BadProof),
{
}

/// For every self-contained call whose embedded verification fails — a
/// malformed or incorrect embedded signature — checking yields `BadProof`.
pub proof fn lemma_self_contained_bad_embedded<Address, Call, Signature, Extra, AccountId, L>(
    ext: UncheckedExtrinsic<Address, Call, Signature, Extra>,
    resolver: L,
) where
    Call: SelfContainedCall,
    Signature: SignatureScheme<Call, Extra, AccountId>,
    Extra: SignedExtensionChain<AccountId, Call>,
    L: AccountResolver<Address, AccountId>,

    requires
        ext.function.self_contained(),
        ext.function.self_check_result() is Err,
    ensures
        check_spec::<Address, Call, Signature, Extra, AccountId, L>(ext, resolver) == Err::<
            CheckedExtrinsic<AccountId, Call, Extra, Call::SignedInfo>,
            _,
        >(ValidityError::BadProof),
{
}

/// For every self-contained call whose embedded verification succeeds, and
/// whose envelope carries no classical signed data, checking yields
/// SelfContained provenance with exactly the info the call's own
/// verification produced.
pub proof fn lemma_self_contained_accepted<Address, Call, Signature, Extra, AccountId, L>(
    ext: UncheckedExtrinsic<Address, Call, Signature, Extra>,
    resolver: L,
    info: Call::SignedInfo,
) where
    Call: SelfContainedCall,
    Signature: SignatureScheme<Call, Extra, AccountId>,
    Extra: SignedExtensionChain<AccountId, Call>,
    L: AccountResolver<Address, AccountId>,

    requires
        ext.function.self_contained(),
        ext.signature is None,
        ext.function.self_check_result() == Ok::<Call::SignedInfo, ValidityError>(info),
    ensures
        check_spec(ext, resolver) == Ok::<_, ValidityError>(
            (CheckedExtrinsic {
                signed: CheckedSignature::<AccountId, Extra, Call::SignedInfo>::SelfContained(
                    info,
                ),
                function: ext.function,
            }),
        ),
{
}

/// For a self-contained call, provenance is never Unsigned and never Signed:
/// whenever checking succeeds at all, the record's provenance is
/// SelfContained — and the same holds of the dry-run conversion.
pub proof fn lemma_self_contained_provenance<Address, Call, Signature, Extra, AccountId, L>(
    ext: UncheckedExtrinsic<Address, Call, Signature, Extra>,
    resolver: L,
) where
    Call: SelfContainedCall,
    Signature: SignatureScheme<Call, Extra, AccountId>,
    Extra: SignedExtensionChain<AccountId, Call>,
    L: AccountResolver<Address, AccountId>,

    requires
        ext.function.self_contained(),
    ensures
        check_spec::<Address, Call, Signature, Extra, AccountId, L>(ext, resolver) matches Ok(c)
            ==> c.signed is SelfContained,
        dry_run_spec::<Address, Call, Signature, Extra, AccountId, L>(ext, resolver) matches Ok(c)
            ==> c.signed is SelfContained,
{
}

/// Checking is a pure function of the envelope and the pinned snapshot: in a
/// batch of independent envelopes checked against one shared immutable
/// resolver, each envelope's result is determined by that envelope alone, so
/// any evaluation order — concurrent or sequential — produces identical
/// per-envelope results.
pub open spec fn check_all_spec<Address, Call, Signature, Extra, AccountId, L>(
    exts: Seq<UncheckedExtrinsic<Address, Call, Signature, Extra>>,
    resolver: L,
) -> Seq<Result<CheckedExtrinsic<AccountId, Call, Extra, Call::SignedInfo>, ValidityError>> where
    Call: SelfContainedCall,
    Signature: SignatureScheme<Call, Extra, AccountId>,
    Extra: SignedExtensionChain<AccountId, Call>,
    L: AccountResolver<Address, AccountId>,
{
    exts.map(|i: int, e: UncheckedExtrinsic<Address, Call, Signature, Extra>| check_spec(e, resolver))
}

/// Checks a whole batch of independent envelopes against one shared resolver,
/// yielding exactly the per-envelope results that `check_all_spec` assigns —
/// the same results any other evaluation order would produce.
pub fn check_all<Address, Call, Signature, Extra, AccountId, L>(
    exts: &Vec<UncheckedExtrinsic<Address, Call, Signature, Extra>>,
    resolver: &L,
) -> (r: Vec<Result<CheckedExtrinsic<AccountId, Call, Extra, Call::SignedInfo>, ValidityError>>) where
    Address: Copy,
    Call: SelfContainedCall + Copy,
    Signature: SignatureScheme<Call, Extra, AccountId> + Copy,
    Extra: SignedExtensionChain<AccountId, Call> + Copy,
    L: AccountResolver<Address, AccountId>,

    ensures
        r@ == check_all_spec(exts@, *resolver),
{
    let mut out: Vec<Result<CheckedExtrinsic<AccountId, Call, Extra, Call::SignedInfo>, ValidityError>> =
        Vec::new();
    let n = exts.len();
    for i in 0..n
        invariant
            n == exts@.len(),
            out@.len() == i,
            forall|j: int|
                0 <= j < i ==> out@[j] == check_spec::<Address, Call, Signature, Extra, AccountId, L>(
                    exts@[j],
                    *resolver,
                ),
    {
        let e = exts[i];
        out.push(e.check(resolver));
    }
    assert(out@ =~= check_all_spec(exts@, *resolver));
    out
}

/// Each entry of a batch result depends only on its own envelope and the
/// shared resolver, never on its neighbours or on the order of evaluation.
pub proof fn lemma_check_batch_independent<Address, Call, Signature, Extra, AccountId, L>(
    exts: Seq<UncheckedExtrinsic<Address, Call, Signature, Extra>>,
    resolver: L,
    i: int,
) where
    Call: SelfContainedCall,
    Signature: SignatureScheme<Call, Extra, AccountId>,
    Extra: SignedExtensionChain<AccountId, Call>,
    L: AccountResolver<Address, AccountId>,

    requires
        0 <= i < exts.len(),
    ensures
        check_all_spec::<Address, Call, Signature, Extra, AccountId, L>(exts, resolver)[i]
            == check_spec::<Address, Call, Signature, Extra, AccountId, L>(exts[i], resolver),
{
}

} // verus!
