use vstd::prelude::*;

use crate::error::ValidityError;
use crate::traits::{
    AccountResolver, DispatchClass, DispatchInfo, GetDispatchInfo, SelfContainedCall,
    SignatureScheme, SignedExtensionChain,
};
use crate::unchecked_extrinsic::UncheckedExtrinsic;

verus! {

/// The runtime version the model chain's extension data must declare.
pub const MODEL_SPEC_VERSION: u64 = 7;

/// Salt mixed into the model's embedded authorization seal.
pub const MODEL_SEAL_SALT: u64 = 0x5ee1;

/// Salt mixed into the model's classical signing payload tag.
pub const MODEL_PAYLOAD_SALT: u64 = 0x7a6;

/// A small closed set of call variants for one concrete chain, enough to
/// exercise every path of the checking engine. `Embedded` is the
/// self-contained variant: it carries its own signer and a seal standing in
/// for an embedded signature.
#[derive(Clone, Copy, Debug, PartialEq, Eq, Structural)]
pub enum ModelCall {
    /// A classical value transfer; must arrive classically signed.
    Transfer { dest: u64, value: u64 },
    /// An inherent-style note; may arrive unsigned.
    Remark { note: u64 },
    /// A self-contained call riding a second chain's transaction format:
    /// its authorization is the seal over (signer, payload).
    Embedded { signer: u64, payload: u64, seal: u64 },
}

/// The seal the model's embedded scheme expects over a signer and payload.
/// A stand-in for an embedded signature, not cryptography.
pub open spec fn spec_seal(signer: u64, payload: u64) -> u64 {
    signer ^ payload ^ MODEL_SEAL_SALT
}

/// Computes the seal the model's embedded scheme expects, so a well-formed
/// `Embedded` call can be built.
pub fn seal_for(signer: u64, payload: u64) -> (r: u64)
    ensures
        r == spec_seal(signer, payload),
{
    signer ^ payload ^ MODEL_SEAL_SALT
}

impl SelfContainedCall for ModelCall {
    type SignedInfo = u64;

    open spec fn self_contained(&self) -> bool {
        self is Embedded
    }

    open spec fn self_check_result(&self) -> Result<u64, ValidityError> {
        match *self {
            ModelCall::Embedded { signer, payload, seal } => if seal == spec_seal(
                signer,
                payload,
            ) {
                Ok(signer)
            } else {
                Err(ValidityError::BadProof)
            },
            _ => Err(ValidityError::BadProof),
        }
    }

    fn is_self_contained(&self) -> (r: bool) {
        match self {
            ModelCall::Embedded { .. } => true,
            _ => false,
        }
    }

    fn check_self_contained(&self) -> (r: Option<Result<u64, ValidityError>>) {
        match self {
            ModelCall::Embedded { signer, payload, seal } => {
                if *seal == seal_for(*signer, *payload) {
                    Some(Ok(*signer))
                } else {
                    Some(Err(ValidityError::BadProof))
                }
            },
            _ => None,
        }
    }
}

impl GetDispatchInfo for ModelCall {
    open spec fn dispatch_info_spec(&self) -> DispatchInfo {
        match *self {
            ModelCall::Transfer { .. } => DispatchInfo {
                weight: 200000,
                class: DispatchClass::Normal,
                pays_fee: true,
            },
            ModelCall::Remark { .. } => DispatchInfo {
                weight: 10000,
                class: DispatchClass::Mandatory,
                pays_fee: false,
            },
            ModelCall::Embedded { .. } => DispatchInfo {
                weight: 1000000,
                class: DispatchClass::Normal,
                pays_fee: true,
            },
        }
    }

    fn get_dispatch_info(&self) -> (r: DispatchInfo) {
        match self {
            ModelCall::Transfer { .. } => DispatchInfo {
                weight: 200000,
                class: DispatchClass::Normal,
                pays_fee: true,
            },
            ModelCall::Remark { .. } => DispatchInfo {
                weight: 10000,
                class: DispatchClass::Mandatory,
                pays_fee: false,
            },
            ModelCall::Embedded { .. } => DispatchInfo {
                weight: 1000000,
                class: DispatchClass::Normal,
                pays_fee: true,
            },
        }
    }
}

/// The model chain's extension data: the declared context its four
/// pre-dispatch checks run against, baked in from the pinned snapshot when
/// the transaction was built, in the chain-declared order below.
#[derive(Clone, Copy, Debug, PartialEq, Eq, Structural)]
pub struct ModelExtra {
    /// Runtime version the transaction was built for.
    pub spec_version: u64,
    /// Last block height at which the transaction is still alive.
    pub valid_until: u64,
    /// Height of the pinned snapshot the transaction is checked against.
    pub at_block: u64,
    /// The account's next expected nonce in the snapshot.
    pub expected_nonce: u64,
    /// The nonce the transaction declares.
    pub nonce: u64,
    /// The account's balance in the snapshot.
    pub balance: u64,
    /// The declared cost the balance must cover.
    pub cost: u64,
}

/// The model chain's declared validation order: version, mortality, nonce,
/// fee. The first rejection wins and is surfaced verbatim.
pub open spec fn spec_extra_verdict(extra: ModelExtra) -> Result<(), ValidityError> {
    if extra.spec_version != MODEL_SPEC_VERSION {
        Err(ValidityError::VersionMismatch)
    } else if extra.at_block > extra.valid_until {
        Err(ValidityError::MortalityExpired)
    } else if extra.nonce < extra.expected_nonce {
        Err(ValidityError::StaleNonce)
    } else if extra.nonce > extra.expected_nonce {
        Err(ValidityError::FutureNonce)
    } else if extra.balance < extra.cost {
        Err(ValidityError::InsufficientFee)
    } else {
        Ok(())
    }
}

impl SignedExtensionChain<u64, ModelCall> for ModelExtra {
    open spec fn validate_result(&self, who: u64, call: ModelCall) -> Result<(), ValidityError> {
        spec_extra_verdict(*self)
    }

    open spec fn validate_unsigned_result(call: ModelCall) -> Result<(), ValidityError> {
        if call is Remark {
            Ok(())
        } else {
            Err(ValidityError::UnexpectedCall)
        }
    }

    fn validate(&self, who: &u64, call: &ModelCall) -> (r: Result<(), ValidityError>) {
        if self.spec_version != MODEL_SPEC_VERSION {
            Err(ValidityError::VersionMismatch)
        } else if self.at_block > self.valid_until {
            Err(ValidityError::MortalityExpired)
        } else if self.nonce < self.expected_nonce {
            Err(ValidityError::StaleNonce)
        } else if self.nonce > self.expected_nonce {
            Err(ValidityError::FutureNonce)
        } else if self.balance < self.cost {
            Err(ValidityError::InsufficientFee)
        } else {
            Ok(())
        }
    }

    fn validate_unsigned(call: &ModelCall) -> (r: Result<(), ValidityError>) {
        match call {
            ModelCall::Remark { .. } => Ok(()),
            _ => Err(ValidityError::UnexpectedCall),
        }
    }
}

/// The tag a model classical signature commits to: a digest stand-in over the
/// canonical signing payload, the call together with its extension data.
pub open spec fn spec_payload_tag(call: ModelCall, extra: ModelExtra) -> u64 {
    spec_call_mix(call) ^ spec_extra_mix(extra) ^ MODEL_PAYLOAD_SALT
}

/// Folds a call's fields into the payload tag.
pub open spec fn spec_call_mix(call: ModelCall) -> u64 {
    match call {
        ModelCall::Transfer { dest, value } => 0xa1 ^ dest ^ (value ^ 0x9e3779b9),
        ModelCall::Remark { note } => 0xa2 ^ note,
        ModelCall::Embedded { signer, payload, seal } => 0xa3 ^ signer ^ (payload ^ 0x85eb) ^ (
        seal ^ 0xc2b2),
    }
}

/// Folds the extension data's fields into the payload tag.
pub open spec fn spec_extra_mix(extra: ModelExtra) -> u64 {
    extra.spec_version ^ (extra.valid_until ^ 0x1b873593) ^ (extra.at_block ^ 0xcc9e2d51) ^ (
    extra.expected_nonce ^ 0xe6546b64) ^ (extra.nonce ^ 0x94d049bb) ^ (extra.balance ^ 0x27d4eb2f)
        ^ (extra.cost ^ 0x165667b1)
}

/// A model classical signature: the key it claims to sign with and the tag
/// over the payload it commits to. Valid exactly when the key matches the
/// resolved account and the tag matches the canonical payload.
#[derive(Clone, Copy, Debug, PartialEq, Eq, Structural)]
pub struct ModelSignature {
    /// The account the signature claims to come from.
    pub signed_by: u64,
    /// The payload digest the signature commits to.
    pub tag: u64,
}

impl SignatureScheme<ModelCall, ModelExtra, u64> for ModelSignature {
    open spec fn valid_over(&self, call: ModelCall, extra: ModelExtra, signer: u64) -> bool {
        self.signed_by == signer && self.tag == spec_payload_tag(call, extra)
    }

    fn verify(&self, call: &ModelCall, extra: &ModelExtra, signer: &u64) -> (r: bool) {
        self.signed_by == *signer && self.tag == payload_tag(call, extra)
    }
}

/// Computes the tag of the canonical signing payload, so a valid model
/// signature can be built.
pub fn payload_tag(call: &ModelCall, extra: &ModelExtra) -> (r: u64)
    ensures
        r == spec_payload_tag(*call, *extra),
{
    let call_mix: u64 = match call {
        ModelCall::Transfer { dest, value } => 0xa1 ^ *dest ^ (*value ^ 0x9e3779b9),
        ModelCall::Remark { note } => 0xa2 ^ *note,
        ModelCall::Embedded { signer, payload, seal } => 0xa3 ^ *signer ^ (*payload ^ 0x85eb) ^ (
        *seal ^ 0xc2b2),
    };
    let extra_mix: u64 = extra.spec_version ^ (extra.valid_until ^ 0x1b873593) ^ (extra.at_block
        ^ 0xcc9e2d51) ^ (extra.expected_nonce ^ 0xe6546b64) ^ (extra.nonce ^ 0x94d049bb) ^ (
    extra.balance ^ 0x27d4eb2f) ^ (extra.cost ^ 0x165667b1);
    call_mix ^ extra_mix ^ MODEL_PAYLOAD_SALT
}

/// Signs the canonical payload on behalf of `who`, yielding a signature that
/// `verify` accepts for that account.
pub fn model_sign(call: &ModelCall, extra: &ModelExtra, who: u64) -> (r: ModelSignature)
    ensures
        r.valid_over(*call, *extra, who),
{
    ModelSignature { signed_by: who, tag: payload_tag(call, extra) }
}

/// The model account resolver: a pinned snapshot of (address, account
/// identifier) pairs; the first pair matching an address wins.
#[derive(Clone, Debug)]
pub struct ModelResolver {
    /// The snapshot's address book, in lookup order.
    pub accounts: Vec<(u64, u64)>,
}

/// First-match lookup of an address in the snapshot's address book.
pub open spec fn spec_resolve_in(accounts: Seq<(u64, u64)>, address: u64) -> Option<u64>
    decreases accounts.len(),
{
    if accounts.len() == 0 {
        None
    } else if accounts[0].0 == address {
        Some(accounts[0].1)
    } else {
        spec_resolve_in(accounts.skip(1), address)
    }
}

proof fn lemma_resolve_in_step(accounts: Seq<(u64, u64)>, address: u64, i: int)
    requires
        0 <= i < accounts.len(),
        accounts[i].0 != address,
    ensures
        spec_resolve_in(accounts.skip(i), address) == spec_resolve_in(accounts.skip(i + 1), address),
{
    assert(accounts.skip(i).skip(1) =~= accounts.skip(i + 1));
}

impl AccountResolver<u64, u64> for ModelResolver {
    open spec fn resolve(&self, address: u64) -> Option<u64> {
        spec_resolve_in(self.accounts@, address)
    }

    fn lookup(&self, address: &u64) -> (r: Option<u64>) {
        let n = self.accounts.len();
        proof {
            assert(self.accounts@.skip(0) =~= self.accounts@);
        }
        for i in 0..n
            invariant
                n == self.accounts@.len(),
                spec_resolve_in(self.accounts@, *address) == spec_resolve_in(
                    self.accounts@.skip(i as int),
                    *address,
                ),
        {
            let (a, id) = self.accounts[i];
            if a == *address {
                assert(self.accounts@.skip(i as int)[0] == self.accounts@[i as int]);
                return Some(id);
            }
            proof {
                lemma_resolve_in_step(self.accounts@, *address, i as int);
            }
        }
        assert(self.accounts@.skip(n as int) =~= Seq::<(u64, u64)>::empty());
        None
    }
}

/// The fully concrete extrinsic of the model chain.
pub type ModelExtrinsic = UncheckedExtrinsic<u64, ModelCall, ModelSignature, ModelExtra>;

} // verus!

