use self_contained::checked_extrinsic::{CheckedExtrinsic, CheckedSignature};
use self_contained::error::ValidityError;
use self_contained::laws::check_all;
use self_contained::model::{
    model_sign, payload_tag, seal_for, ModelCall, ModelExtra, ModelExtrinsic, ModelResolver,
    ModelSignature, MODEL_SPEC_VERSION,
};
use self_contained::traits::{DispatchClass, GetDispatchInfo};
use self_contained::unchecked_extrinsic::UncheckedExtrinsic;

fn good_extra() -> ModelExtra {
    ModelExtra {
        spec_version: MODEL_SPEC_VERSION,
        valid_until: 100,
        at_block: 50,
        expected_nonce: 3,
        nonce: 3,
        balance: 1_000,
        cost: 10,
    }
}

fn resolver() -> ModelResolver {
    ModelResolver { accounts: vec![(1, 11), (2, 22), (7, 70)] }
}

fn new_unsigned(call: ModelCall) -> ModelExtrinsic {
    UncheckedExtrinsic::new_unsigned(call)
}

#[test]
fn classical_signed_accepted() {
    let call = ModelCall::Transfer { dest: 2, value: 10 };
    let extra = good_extra();
    let sig = model_sign(&call, &extra, 70);
    let ext = UncheckedExtrinsic::new_signed(call, 7, sig, extra);
    let checked = ext.check(&resolver()).unwrap();
    assert_eq!(
        checked,
        CheckedExtrinsic { signed: CheckedSignature::Signed(70, extra), function: call }
    );
}

#[test]
fn self_contained_with_classical_data_rejected() {
    let call = ModelCall::Embedded { signer: 9, payload: 100, seal: seal_for(9, 100) };
    let extra = good_extra();
    // Even a signature that would verify classically does not help: dual
    // authorization is rejected outright.
    let sig = ModelSignature { signed_by: 70, tag: payload_tag(&call, &extra) };
    let ext = UncheckedExtrinsic::new_signed(call, 7, sig, extra);
    assert_eq!(ext.check(&resolver()), Err(ValidityError::BadProof));
    let garbage_sig = ModelSignature { signed_by: 0, tag: 0 };
    let ext2 = UncheckedExtrinsic::new_signed(call, 7, garbage_sig, good_extra());
    assert_eq!(ext2.check(&resolver()), Err(ValidityError::BadProof));
}

#[test]
fn self_contained_bad_seal_rejected() {
    let call = ModelCall::Embedded { signer: 9, payload: 100, seal: seal_for(9, 100) ^ 1 };
    let ext = new_unsigned(call);
    assert_eq!(ext.check(&resolver()), Err(ValidityError::BadProof));
}

#[test]
fn self_contained_accepted() {
    let call = ModelCall::Embedded { signer: 9, payload: 100, seal: seal_for(9, 100) };
    let ext = new_unsigned(call);
    let checked = ext.check(&resolver()).unwrap();
    assert_eq!(
        checked,
        CheckedExtrinsic { signed: CheckedSignature::SelfContained(9), function: call }
    );
}

#[test]
fn new_rejects_dual_authorization() {
    let embedded = ModelCall::Embedded { signer: 9, payload: 100, seal: seal_for(9, 100) };
    let transfer = ModelCall::Transfer { dest: 2, value: 10 };
    let extra = good_extra();
    let sig = ModelSignature { signed_by: 70, tag: 0 };
    assert!(UncheckedExtrinsic::new(embedded, Some((7, sig, extra))).is_none());
    let built = UncheckedExtrinsic::new(transfer, Some((7, sig, extra))).unwrap();
    assert_eq!(built, UncheckedExtrinsic { function: transfer, signature: Some((7, sig, extra)) });
    let inherent: ModelExtrinsic = UncheckedExtrinsic::new(embedded, None).unwrap();
    assert_eq!(inherent, UncheckedExtrinsic { function: embedded, signature: None });
}

#[test]
fn is_signed_true_for_self_contained() {
    let embedded = ModelCall::Embedded { signer: 9, payload: 100, seal: seal_for(9, 100) };
    let transfer = ModelCall::Transfer { dest: 2, value: 10 };
    let extra = good_extra();
    assert_eq!(new_unsigned(embedded).is_signed(), Some(true));
    assert_eq!(new_unsigned(transfer).is_signed(), Some(false));
    let sig = model_sign(&transfer, &extra, 70);
    assert_eq!(UncheckedExtrinsic::new_signed(transfer, 7, sig, extra).is_signed(), Some(true));
}

#[test]
fn unsigned_inherent_passes() {
    let call = ModelCall::Remark { note: 42 };
    let checked = new_unsigned(call).check(&resolver()).unwrap();
    assert_eq!(checked, CheckedExtrinsic { signed: CheckedSignature::Unsigned, function: call });
}

#[test]
fn unsigned_transfer_rejected() {
    let call = ModelCall::Transfer { dest: 2, value: 10 };
    assert_eq!(new_unsigned(call).check(&resolver()), Err(ValidityError::UnexpectedCall));
}

#[test]
fn lookup_failure_yields_cannot_lookup() {
    let call = ModelCall::Transfer { dest: 2, value: 10 };
    // Extension data that every chain entry would reject: the lookup failure
    // must surface first, showing no extension ever ran.
    let bad_extra = ModelExtra {
        spec_version: MODEL_SPEC_VERSION + 1,
        valid_until: 0,
        at_block: 50,
        expected_nonce: 9,
        nonce: 3,
        balance: 0,
        cost: 10,
    };
    let sig = model_sign(&call, &bad_extra, 70);
    let ext = UncheckedExtrinsic::new_signed(call, 99, sig, bad_extra);
    assert_eq!(ext.check(&resolver()), Err(ValidityError::CannotLookup));
}

#[test]
fn bad_signature_yields_bad_proof() {
    let call = ModelCall::Transfer { dest: 2, value: 10 };
    let extra = good_extra();
    let mut sig = model_sign(&call, &extra, 70);
    sig.tag ^= 1;
    let ext = UncheckedExtrinsic::new_signed(call, 7, sig, extra);
    assert_eq!(ext.check(&resolver()), Err(ValidityError::BadProof));
}

#[test]
fn wrong_signer_yields_bad_proof() {
    let call = ModelCall::Transfer { dest: 2, value: 10 };
    let extra = good_extra();
    // Signed with account 22's key but submitted under the address resolving
    // to account 70.
    let sig = model_sign(&call, &extra, 22);
    let ext = UncheckedExtrinsic::new_signed(call, 7, sig, extra);
    assert_eq!(ext.check(&resolver()), Err(ValidityError::BadProof));
}

fn check_with_extra(extra: ModelExtra) -> Result<CheckedExtrinsic<u64, ModelCall, ModelExtra, u64>, ValidityError> {
    let call = ModelCall::Transfer { dest: 2, value: 10 };
    let sig = model_sign(&call, &extra, 70);
    UncheckedExtrinsic::new_signed(call, 7, sig, extra).check(&resolver())
}

#[test]
fn extension_chain_first_rejection_wins() {
    // Version mismatch and a stale nonce together: the version check is
    // declared first, so its reason surfaces.
    let mut extra = good_extra();
    extra.spec_version += 1;
    extra.nonce = 0;
    assert_eq!(check_with_extra(extra), Err(ValidityError::VersionMismatch));
}

#[test]
fn extension_chain_named_rejections() {
    let mut extra = good_extra();
    extra.spec_version += 1;
    assert_eq!(check_with_extra(extra), Err(ValidityError::VersionMismatch));
    let mut extra = good_extra();
    extra.at_block = extra.valid_until + 1;
    assert_eq!(check_with_extra(extra), Err(ValidityError::MortalityExpired));
    let mut extra = good_extra();
    extra.nonce = extra.expected_nonce - 1;
    assert_eq!(check_with_extra(extra), Err(ValidityError::StaleNonce));
    let mut extra = good_extra();
    extra.nonce = extra.expected_nonce + 1;
    assert_eq!(check_with_extra(extra), Err(ValidityError::FutureNonce));
    let mut extra = good_extra();
    extra.cost = extra.balance + 1;
    assert_eq!(check_with_extra(extra), Err(ValidityError::InsufficientFee));
}

#[test]
fn extension_data_retained_unchanged() {
    let call = ModelCall::Transfer { dest: 2, value: 10 };
    let extra = good_extra();
    let sig = model_sign(&call, &extra, 70);
    let checked = UncheckedExtrinsic::new_signed(call, 7, sig, extra).check(&resolver()).unwrap();
    match checked.signed {
        CheckedSignature::Signed(who, kept) => {
            assert_eq!(who, 70);
            assert_eq!(kept, extra);
        }
        _ => panic!("expected classical provenance"),
    }
}

#[test]
fn batch_matches_individual_results() {
    let res = resolver();
    let extra = good_extra();
    let transfer = ModelCall::Transfer { dest: 2, value: 10 };
    let sig = model_sign(&transfer, &extra, 70);
    let exts: Vec<ModelExtrinsic> = vec![
        UncheckedExtrinsic::new_signed(transfer, 7, sig, extra),
        new_unsigned(ModelCall::Remark { note: 1 }),
        new_unsigned(ModelCall::Embedded { signer: 9, payload: 100, seal: seal_for(9, 100) }),
        new_unsigned(ModelCall::Embedded { signer: 9, payload: 100, seal: 0 }),
        new_unsigned(transfer),
    ];
    let batch = check_all(&exts, &res);
    let individual: Vec<_> = exts.iter().map(|e| (*e).check(&res)).collect();
    assert_eq!(batch, individual);
    // The shared snapshot is untouched, so a second pass agrees.
    assert_eq!(check_all(&exts, &res), batch);
}

#[test]
fn dry_run_skips_classical_verification() {
    let call = ModelCall::Transfer { dest: 2, value: 10 };
    let garbage_sig = ModelSignature { signed_by: 0, tag: 0 };
    let extra = good_extra();
    let ext = UncheckedExtrinsic::new_signed(call, 7, garbage_sig, extra);
    let checked = ext.unchecked_into_checked_i_know_what_i_am_doing(&resolver()).unwrap();
    assert_eq!(
        checked,
        CheckedExtrinsic { signed: CheckedSignature::Signed(70, extra), function: call }
    );
}

#[test]
fn dry_run_still_propagates_embedded_failure() {
    let bad = ModelCall::Embedded { signer: 9, payload: 100, seal: 0 };
    let ext = new_unsigned(bad);
    assert_eq!(
        ext.unchecked_into_checked_i_know_what_i_am_doing(&resolver()),
        Err(ValidityError::BadProof)
    );
    let good = ModelCall::Embedded { signer: 9, payload: 100, seal: seal_for(9, 100) };
    let checked = new_unsigned(good)
        .unchecked_into_checked_i_know_what_i_am_doing(&resolver())
        .unwrap();
    assert_eq!(checked.signed, CheckedSignature::SelfContained(9));
}

#[test]
fn dry_run_still_resolves_the_address() {
    let call = ModelCall::Transfer { dest: 2, value: 10 };
    let sig = ModelSignature { signed_by: 0, tag: 0 };
    let ext = UncheckedExtrinsic::new_signed(call, 99, sig, good_extra());
    assert_eq!(
        ext.unchecked_into_checked_i_know_what_i_am_doing(&resolver()),
        Err(ValidityError::CannotLookup)
    );
}

#[test]
fn dispatch_info_comes_from_the_call() {
    let transfer = ModelCall::Transfer { dest: 2, value: 10 };
    let info = new_unsigned(transfer).get_dispatch_info();
    assert_eq!(info, transfer.get_dispatch_info());
    assert_eq!(info.weight, 200_000);
    assert_eq!(info.class, DispatchClass::Normal);
    assert!(info.pays_fee);
    let remark_info = new_unsigned(ModelCall::Remark { note: 1 }).get_dispatch_info();
    assert_eq!(remark_info.weight, 10_000);
    assert_eq!(remark_info.class, DispatchClass::Mandatory);
    assert!(!remark_info.pays_fee);
}

#[test]
fn call_accessor_returns_the_wrapped_call() {
    let call = ModelCall::Remark { note: 5 };
    let ext = new_unsigned(call);
    assert_eq!(*ext.call(), call);
}

#[test]
fn seal_formula_exact_value() {
    assert_eq!(seal_for(9, 100), 0x5e8c);
    assert_eq!(seal_for(0, 0), 0x5ee1);
}

#[test]
fn signature_commits_to_call_and_extra() {
    let call = ModelCall::Transfer { dest: 2, value: 10 };
    let other_call = ModelCall::Transfer { dest: 2, value: 11 };
    let extra = good_extra();
    let mut other_extra = extra;
    other_extra.nonce += 1;
    let sig = model_sign(&call, &extra, 70);
    assert_ne!(sig.tag, payload_tag(&other_call, &extra));
    assert_ne!(sig.tag, payload_tag(&call, &other_extra));
    // A signature over one payload does not admit another call.
    let ext = UncheckedExtrinsic::new_signed(other_call, 7, sig, extra);
    assert_eq!(ext.check(&resolver()), Err(ValidityError::BadProof));
}

#[test]
fn resolver_first_match_wins() {
    let res = ModelResolver { accounts: vec![(1, 10), (1, 20)] };
    let call = ModelCall::Transfer { dest: 2, value: 1 };
    let extra = good_extra();
    let sig = model_sign(&call, &extra, 10);
    let checked = UncheckedExtrinsic::new_signed(call, 1, sig, extra).check(&res).unwrap();
    assert_eq!(checked.signed, CheckedSignature::Signed(10, extra));
}
