use vstd::prelude::*;

use crate::model::{ModelCall, ModelExtra, ModelExtrinsic, ModelSignature};
use crate::unchecked_extrinsic::{UncheckedExtrinsic, EXTRINSIC_FORMAT_VERSION};

verus! {

// The deterministic wire form of a model extrinsic, in this field order:
// version discriminant, presence flag for classical authorization, address,
// call payload, signature, extension data. Every multi-byte integer is
// little-endian.

/// The little-endian bytes of a 64-bit integer.
pub open spec fn spec_encode_u64(x: u64) -> Seq<u8> {
    seq![
        (x & 0xff) as u8,
        ((x >> 8) & 0xff) as u8,
        ((x >> 16) & 0xff) as u8,
        ((x >> 24) & 0xff) as u8,
        ((x >> 32) & 0xff) as u8,
        ((x >> 40) & 0xff) as u8,
        ((x >> 48) & 0xff) as u8,
        ((x >> 56) & 0xff) as u8,
    ]
}

/// The 64-bit integer read little-endian from eight bytes of `s` starting
/// at `i`.
pub open spec fn spec_decode_u64_at(s: Seq<u8>, i: int) -> u64 {
    (s[i] as u64) | ((s[i + 1] as u64) << 8) | ((s[i + 2] as u64) << 16) | ((s[i + 3] as u64)
        << 24) | ((s[i + 4] as u64) << 32) | ((s[i + 5] as u64) << 40) | ((s[i + 6] as u64) << 48)
        | ((s[i + 7] as u64) << 56)
}

proof fn lemma_u64_le_roundtrip(x: u64)
    ensures
        spec_decode_u64_at(spec_encode_u64(x), 0) == x,
{
    let s = spec_encode_u64(x);
    assert(s[0] == (x & 0xff) as u8);
    assert(s[1] == ((x >> 8) & 0xff) as u8);
    assert(s[2] == ((x >> 16) & 0xff) as u8);
    assert(s[3] == ((x >> 24) & 0xff) as u8);
    assert(s[4] == ((x >> 32) & 0xff) as u8);
    assert(s[5] == ((x >> 40) & 0xff) as u8);
    assert(s[6] == ((x >> 48) & 0xff) as u8);
    assert(s[7] == ((x >> 56) & 0xff) as u8);
    assert((((x & 0xff) as u8) as u64) | (((((x >> 8) & 0xff) as u8) as u64) << 8) | (((((x >> 16)
        & 0xff) as u8) as u64) << 16) | (((((x >> 24) & 0xff) as u8) as u64) << 24) | (((((x >> 32)
        & 0xff) as u8) as u64) << 32) | (((((x >> 40) & 0xff) as u8) as u64) << 40) | (((((x >> 48)
        & 0xff) as u8) as u64) << 48) | (((((x >> 56) & 0xff) as u8) as u64) << 56) == x)
        by (bit_vector);
}

proof fn lemma_decode_u64_frame(s: Seq<u8>, i: int, x: u64)
    requires
        0 <= i,
        i + 8 <= s.len(),
        s.subrange(i, i + 8) == spec_encode_u64(x),
    ensures
        spec_decode_u64_at(s, i) == x,
{
    let sub = s.subrange(i, i + 8);
    assert(sub[0] == s[i]);
    assert(sub[1] == s[i + 1]);
    assert(sub[2] == s[i + 2]);
    assert(sub[3] == s[i + 3]);
    assert(sub[4] == s[i + 4]);
    assert(sub[5] == s[i + 5]);
    assert(sub[6] == s[i + 6]);
    assert(sub[7] == s[i + 7]);
    lemma_u64_le_roundtrip(x);
    assert(spec_decode_u64_at(s, i) == spec_decode_u64_at(sub, 0));
}

// Three small framing facts about concatenations, used to carve an encoded
// field back out of a longer buffer.

proof fn lemma_subrange_of_prefix(p: Seq<u8>, q: Seq<u8>, a: int, b: int)
    requires
        0 <= a <= b <= p.len(),
    ensures
        (p + q).subrange(a, b) == p.subrange(a, b),
{
    assert((p + q).subrange(a, b) =~= p.subrange(a, b));
}

proof fn lemma_subrange_at_suffix(p: Seq<u8>, q: Seq<u8>)
    ensures
        (p + q).subrange(p.len() as int, (p.len() + q.len()) as int) == q,
{
    assert((p + q).subrange(p.len() as int, (p.len() + q.len()) as int) =~= q);
}

proof fn lemma_subrange_in_suffix(p: Seq<u8>, q: Seq<u8>, a: int, b: int)
    requires
        0 <= a <= b <= q.len(),
    ensures
        (p + q).subrange(p.len() + a, p.len() + b) == q.subrange(a, b),
{
    assert((p + q).subrange(p.len() + a, p.len() + b) =~= q.subrange(a, b));
}

proof fn lemma_subrange_full(p: Seq<u8>)
    ensures
        p.subrange(0, p.len() as int) == p,
{
    assert(p.subrange(0, p.len() as int) =~= p);
}

proof fn lemma_index_of_frame(s: Seq<u8>, i: int, enc: Seq<u8>, j: int)
    requires
        0 <= i,
        i + enc.len() <= s.len(),
        s.subrange(i, i + enc.len() as int) == enc,
        0 <= j < enc.len(),
    ensures
        s[i + j] == enc[j],
{
    assert(s.subrange(i, i + enc.len() as int)[j] == s[j + i]);
}

proof fn lemma_subrange_of_frame(s: Seq<u8>, i: int, enc: Seq<u8>, a: int, b: int)
    requires
        0 <= i,
        i + enc.len() <= s.len(),
        s.subrange(i, i + enc.len() as int) == enc,
        0 <= a <= b <= enc.len(),
    ensures
        s.subrange(i + a, i + b) == enc.subrange(a, b),
{
    assert forall|k: int| 0 <= k < b - a implies s.subrange(i + a, i + b)[k] == enc.subrange(
        a,
        b,
    )[k] by {
        assert(s.subrange(i + a, i + b)[k] == s[k + (i + a)]);
        assert(enc.subrange(a, b)[k] == enc[k + a]);
        lemma_index_of_frame(s, i, enc, a + k);
    }
    assert(s.subrange(i + a, i + b) =~= enc.subrange(a, b));
}

proof fn lemma_split(s: Seq<u8>, a: int, b: int, c: int)
    requires
        0 <= a <= b <= c <= s.len(),
    ensures
        s.subrange(a, c) == s.subrange(a, b) + s.subrange(b, c),
{
    assert(s.subrange(a, c) =~= s.subrange(a, b) + s.subrange(b, c));
}

proof fn lemma_encode_decode_u64(s: Seq<u8>, i: int)
    requires
        0 <= i,
        i + 8 <= s.len(),
    ensures
        spec_encode_u64(spec_decode_u64_at(s, i)) == s.subrange(i, i + 8),
{
    let b0 = s[i];
    let b1 = s[i + 1];
    let b2 = s[i + 2];
    let b3 = s[i + 3];
    let b4 = s[i + 4];
    let b5 = s[i + 5];
    let b6 = s[i + 6];
    let b7 = s[i + 7];
    let x = spec_decode_u64_at(s, i);
    assert(x == (b0 as u64) | ((b1 as u64) << 8) | ((b2 as u64) << 16) | ((b3 as u64) << 24) | ((
    b4 as u64) << 32) | ((b5 as u64) << 40) | ((b6 as u64) << 48) | ((b7 as u64) << 56));
    assert((((b0 as u64) | ((b1 as u64) << 8) | ((b2 as u64) << 16) | ((b3 as u64) << 24) | ((
    b4 as u64) << 32) | ((b5 as u64) << 40) | ((b6 as u64) << 48) | ((b7 as u64) << 56)) & 0xff)
        as u8 == b0) by (bit_vector);
    assert(((((b0 as u64) | ((b1 as u64) << 8) | ((b2 as u64) << 16) | ((b3 as u64) << 24) | ((
    b4 as u64) << 32) | ((b5 as u64) << 40) | ((b6 as u64) << 48) | ((b7 as u64) << 56)) >> 8)
        & 0xff) as u8 == b1) by (bit_vector);
    assert(((((b0 as u64) | ((b1 as u64) << 8) | ((b2 as u64) << 16) | ((b3 as u64) << 24) | ((
    b4 as u64) << 32) | ((b5 as u64) << 40) | ((b6 as u64) << 48) | ((b7 as u64) << 56)) >> 16)
        & 0xff) as u8 == b2) by (bit_vector);
    assert(((((b0 as u64) | ((b1 as u64) << 8) | ((b2 as u64) << 16) | ((b3 as u64) << 24) | ((
    b4 as u64) << 32) | ((b5 as u64) << 40) | ((b6 as u64) << 48) | ((b7 as u64) << 56)) >> 24)
        & 0xff) as u8 == b3) by (bit_vector);
    assert(((((b0 as u64) | ((b1 as u64) << 8) | ((b2 as u64) << 16) | ((b3 as u64) << 24) | ((
    b4 as u64) << 32) | ((b5 as u64) << 40) | ((b6 as u64) << 48) | ((b7 as u64) << 56)) >> 32)
        & 0xff) as u8 == b4) by (bit_vector);
    assert(((((b0 as u64) | ((b1 as u64) << 8) | ((b2 as u64) << 16) | ((b3 as u64) << 24) | ((
    b4 as u64) << 32) | ((b5 as u64) << 40) | ((b6 as u64) << 48) | ((b7 as u64) << 56)) >> 40)
        & 0xff) as u8 == b5) by (bit_vector);
    assert(((((b0 as u64) | ((b1 as u64) << 8) | ((b2 as u64) << 16) | ((b3 as u64) << 24) | ((
    b4 as u64) << 32) | ((b5 as u64) << 40) | ((b6 as u64) << 48) | ((b7 as u64) << 56)) >> 48)
        & 0xff) as u8 == b6) by (bit_vector);
    assert(((((b0 as u64) | ((b1 as u64) << 8) | ((b2 as u64) << 16) | ((b3 as u64) << 24) | ((
    b4 as u64) << 32) | ((b5 as u64) << 40) | ((b6 as u64) << 48) | ((b7 as u64) << 56)) >> 56)
        & 0xff) as u8 == b7) by (bit_vector);
    assert(spec_encode_u64(x) =~= s.subrange(i, i + 8));
}

/// The wire form of a call: a variant discriminant followed by the variant's
/// fields.
pub open spec fn spec_encode_call(c: ModelCall) -> Seq<u8> {
    match c {
        ModelCall::Transfer { dest, value } => seq![0u8] + spec_encode_u64(dest)
            + spec_encode_u64(value),
        ModelCall::Remark { note } => seq![1u8] + spec_encode_u64(note),
        ModelCall::Embedded { signer, payload, seal } => seq![2u8] + spec_encode_u64(signer)
            + spec_encode_u64(payload) + spec_encode_u64(seal),
    }
}

/// Reads a call from `s` at `i`; yields the call and the position just past
/// it, or nothing when the bytes there are not a call.
pub open spec fn spec_decode_call_at(s: Seq<u8>, i: int) -> Option<(ModelCall, int)> {
    if i < 0 || i + 1 > s.len() {
        None
    } else if s[i] == 0u8 {
        if i + 17 <= s.len() {
            Some(
                (
                    ModelCall::Transfer {
                        dest: spec_decode_u64_at(s, i + 1),
                        value: spec_decode_u64_at(s, i + 9),
                    },
                    i + 17,
                ),
            )
        } else {
            None
        }
    } else if s[i] == 1u8 {
        if i + 9 <= s.len() {
            Some((ModelCall::Remark { note: spec_decode_u64_at(s, i + 1) }, i + 9))
        } else {
            None
        }
    } else if s[i] == 2u8 {
        if i + 25 <= s.len() {
            Some(
                (
                    ModelCall::Embedded {
                        signer: spec_decode_u64_at(s, i + 1),
                        payload: spec_decode_u64_at(s, i + 9),
                        seal: spec_decode_u64_at(s, i + 17),
                    },
                    i + 25,
                ),
            )
        } else {
            None
        }
    } else {
        None
    }
}

proof fn lemma_decode_call_frame(s: Seq<u8>, i: int, c: ModelCall)
    requires
        0 <= i,
        i + spec_encode_call(c).len() <= s.len(),
        s.subrange(i, i + spec_encode_call(c).len() as int) == spec_encode_call(c),
    ensures
        spec_decode_call_at(s, i) == Some((c, i + spec_encode_call(c).len() as int)),
{
    let enc = spec_encode_call(c);
    match c {
        ModelCall::Transfer { dest, value } => {
            let e1 = spec_encode_u64(dest);
            let e2 = spec_encode_u64(value);
            let p1 = seq![0u8] + e1;
            assert(enc == p1 + e2);
            assert(enc.len() == 17);
            lemma_index_of_frame(s, i, enc, 0);
            assert(enc[0] == 0u8);
            lemma_subrange_of_frame(s, i, enc, 1, 9);
            lemma_subrange_of_prefix(p1, e2, 1, 9);
            lemma_subrange_in_suffix(seq![0u8], e1, 0, 8);
            lemma_subrange_full(e1);
            lemma_decode_u64_frame(s, i + 1, dest);
            lemma_subrange_of_frame(s, i, enc, 9, 17);
            lemma_subrange_at_suffix(p1, e2);
            lemma_decode_u64_frame(s, i + 9, value);
        },
        ModelCall::Remark { note } => {
            let e1 = spec_encode_u64(note);
            assert(enc == seq![1u8] + e1);
            assert(enc.len() == 9);
            lemma_index_of_frame(s, i, enc, 0);
            assert(enc[0] == 1u8);
            lemma_subrange_of_frame(s, i, enc, 1, 9);
            lemma_subrange_at_suffix(seq![1u8], e1);
            lemma_decode_u64_frame(s, i + 1, note);
        },
        ModelCall::Embedded { signer, payload, seal } => {
            let e1 = spec_encode_u64(signer);
            let e2 = spec_encode_u64(payload);
            let e3 = spec_encode_u64(seal);
            let p1 = seq![2u8] + e1;
            let p2 = p1 + e2;
            assert(enc == p2 + e3);
            assert(enc.len() == 25);
            lemma_index_of_frame(s, i, enc, 0);
            assert(enc[0] == 2u8);
            lemma_subrange_of_frame(s, i, enc, 1, 9);
            lemma_subrange_of_prefix(p2, e3, 1, 9);
            lemma_subrange_of_prefix(p1, e2, 1, 9);
            lemma_subrange_in_suffix(seq![2u8], e1, 0, 8);
            lemma_subrange_full(e1);
            lemma_decode_u64_frame(s, i + 1, signer);
            lemma_subrange_of_frame(s, i, enc, 9, 17);
            lemma_subrange_of_prefix(p2, e3, 9, 17);
            lemma_subrange_at_suffix(p1, e2);
            lemma_decode_u64_frame(s, i + 9, payload);
            lemma_subrange_of_frame(s, i, enc, 17, 25);
            lemma_subrange_at_suffix(p2, e3);
            lemma_decode_u64_frame(s, i + 17, seal);
        },
    }
}

proof fn lemma_decode_call_sound(s: Seq<u8>, i: int, c: ModelCall, end: int)
    requires
        spec_decode_call_at(s, i) == Some((c, end)),
    ensures
        0 <= i <= end <= s.len(),
        end == i + spec_encode_call(c).len(),
        s.subrange(i, end) == spec_encode_call(c),
{
    if s[i] == 0u8 {
        let dest = spec_decode_u64_at(s, i + 1);
        let value = spec_decode_u64_at(s, i + 9);
        lemma_encode_decode_u64(s, i + 1);
        lemma_encode_decode_u64(s, i + 9);
        assert(s.subrange(i, i + 1) =~= seq![0u8]);
        lemma_split(s, i, i + 1, i + 9);
        lemma_split(s, i, i + 9, i + 17);
        assert(s.subrange(i, i + 17) == seq![0u8] + spec_encode_u64(dest) + spec_encode_u64(
            value,
        ));
    } else if s[i] == 1u8 {
        let note = spec_decode_u64_at(s, i + 1);
        lemma_encode_decode_u64(s, i + 1);
        assert(s.subrange(i, i + 1) =~= seq![1u8]);
        lemma_split(s, i, i + 1, i + 9);
        assert(s.subrange(i, i + 9) == seq![1u8] + spec_encode_u64(note));
    } else {
        let signer = spec_decode_u64_at(s, i + 1);
        let payload = spec_decode_u64_at(s, i + 9);
        let seal = spec_decode_u64_at(s, i + 17);
        lemma_encode_decode_u64(s, i + 1);
        lemma_encode_decode_u64(s, i + 9);
        lemma_encode_decode_u64(s, i + 17);
        assert(s.subrange(i, i + 1) =~= seq![2u8]);
        lemma_split(s, i, i + 1, i + 9);
        lemma_split(s, i, i + 9, i + 17);
        lemma_split(s, i, i + 17, i + 25);
        assert(s.subrange(i, i + 25) == seq![2u8] + spec_encode_u64(signer) + spec_encode_u64(
            payload,
        ) + spec_encode_u64(seal));
    }
}

/// The converse of the round trip: the decoder accepts nothing but the exact
/// wire form of the extrinsic it yields, so each extrinsic has one canonical
/// encoding and a buffer cannot be malleated without changing what it decodes
/// to.
#[verifier::rlimit(100)]
pub proof fn lemma_codec_canonical(s: Seq<u8>)
    ensures
        spec_decode_extrinsic(s) matches Some(ext) ==> spec_encode_extrinsic(ext) == s,
{
    if spec_decode_extrinsic(s) is Some {
        assert(s.subrange(0, 2) =~= seq![s[0], s[1]]);
        if s[1] == 0u8 {
            let decoded_call = spec_decode_call_at(s, 2);
            assert(decoded_call is Some);
            let (c, end) = decoded_call->Some_0;
            lemma_decode_call_sound(s, 2, c, end);
            lemma_split(s, 0, 2, end);
            lemma_subrange_full(s);
            assert(s == seq![EXTRINSIC_FORMAT_VERSION, 0u8] + spec_encode_call(c));
        } else {
            let decoded_call = spec_decode_call_at(s, 10);
            assert(decoded_call is Some);
            let (c, end) = decoded_call->Some_0;
            lemma_decode_call_sound(s, 10, c, end);
            let address = spec_decode_u64_at(s, 2);
            let sig = ModelSignature {
                signed_by: spec_decode_u64_at(s, end),
                tag: spec_decode_u64_at(s, end + 8),
            };
            let extra = ModelExtra {
                spec_version: spec_decode_u64_at(s, end + 16),
                valid_until: spec_decode_u64_at(s, end + 24),
                at_block: spec_decode_u64_at(s, end + 32),
                expected_nonce: spec_decode_u64_at(s, end + 40),
                nonce: spec_decode_u64_at(s, end + 48),
                balance: spec_decode_u64_at(s, end + 56),
                cost: spec_decode_u64_at(s, end + 64),
            };
            lemma_encode_decode_u64(s, 2);
            lemma_encode_decode_u64(s, end);
            lemma_encode_decode_u64(s, end + 8);
            lemma_encode_decode_u64(s, end + 16);
            lemma_encode_decode_u64(s, end + 24);
            lemma_encode_decode_u64(s, end + 32);
            lemma_encode_decode_u64(s, end + 40);
            lemma_encode_decode_u64(s, end + 48);
            lemma_encode_decode_u64(s, end + 56);
            lemma_encode_decode_u64(s, end + 64);
            // The signature region is its two fields side by side.
            lemma_split(s, end, end + 8, end + 16);
            assert(s.subrange(end, end + 16) == spec_encode_signature(sig));
            // The extension region is its seven fields side by side.
            lemma_split(s, end + 16, end + 24, end + 32);
            lemma_split(s, end + 16, end + 32, end + 40);
            lemma_split(s, end + 16, end + 40, end + 48);
            lemma_split(s, end + 16, end + 48, end + 56);
            lemma_split(s, end + 16, end + 56, end + 64);
            lemma_split(s, end + 16, end + 64, end + 72);
            assert(s.subrange(end + 16, end + 72) == spec_encode_extra(extra));
            // Assemble the whole buffer left to right.
            lemma_split(s, 0, 2, 10);
            lemma_split(s, 0, 10, end);
            lemma_split(s, 0, end, end + 16);
            lemma_split(s, 0, end + 16, end + 72);
            lemma_subrange_full(s);
            assert(s == seq![EXTRINSIC_FORMAT_VERSION, 1u8] + spec_encode_u64(address)
                + spec_encode_call(c) + spec_encode_signature(sig) + spec_encode_extra(extra));
        }
    }
}

/// The wire form of a classical signature: its key, then its payload tag.
pub open spec fn spec_encode_signature(sig: ModelSignature) -> Seq<u8> {
    spec_encode_u64(sig.signed_by) + spec_encode_u64(sig.tag)
}

/// The wire form of the extension data: its seven fields in declared order.
pub open spec fn spec_encode_extra(extra: ModelExtra) -> Seq<u8> {
    spec_encode_u64(extra.spec_version) + spec_encode_u64(extra.valid_until) + spec_encode_u64(
        extra.at_block,
    ) + spec_encode_u64(extra.expected_nonce) + spec_encode_u64(extra.nonce) + spec_encode_u64(
        extra.balance,
    ) + spec_encode_u64(extra.cost)
}

/// The full wire form of a model extrinsic.
pub open spec fn spec_encode_extrinsic(ext: ModelExtrinsic) -> Seq<u8> {
    match ext.signature {
        Some((address, sig, extra)) => seq![EXTRINSIC_FORMAT_VERSION, 1u8] + spec_encode_u64(
            address,
        ) + spec_encode_call(ext.function) + spec_encode_signature(sig) + spec_encode_extra(extra),
        None => seq![EXTRINSIC_FORMAT_VERSION, 0u8] + spec_encode_call(ext.function),
    }
}

/// Reads a whole extrinsic back from its wire form; nothing is yielded when
/// the bytes are not exactly one well-formed extrinsic.
pub open spec fn spec_decode_extrinsic(s: Seq<u8>) -> Option<ModelExtrinsic> {
    if s.len() < 2 || s[0] != EXTRINSIC_FORMAT_VERSION {
        None
    } else if s[1] == 0u8 {
        match spec_decode_call_at(s, 2) {
            Some((c, end)) => if end == s.len() {
                Some(UncheckedExtrinsic { function: c, signature: None })
            } else {
                None
            },
            None => None,
        }
    } else if s[1] == 1u8 {
        if s.len() < 10 {
            None
        } else {
            match spec_decode_call_at(s, 10) {
                Some((c, end)) => if end + 72 == s.len() {
                    Some(
                        UncheckedExtrinsic {
                            function: c,
                            signature: Some(
                                (
                                    spec_decode_u64_at(s, 2),
                                    ModelSignature {
                                        signed_by: spec_decode_u64_at(s, end),
                                        tag: spec_decode_u64_at(s, end + 8),
                                    },
                                    ModelExtra {
                                        spec_version: spec_decode_u64_at(s, end + 16),
                                        valid_until: spec_decode_u64_at(s, end + 24),
                                        at_block: spec_decode_u64_at(s, end + 32),
                                        expected_nonce: spec_decode_u64_at(s, end + 40),
                                        nonce: spec_decode_u64_at(s, end + 48),
                                        balance: spec_decode_u64_at(s, end + 56),
                                        cost: spec_decode_u64_at(s, end + 64),
                                    },
                                ),
                            ),
                        },
                    )
                } else {
                    None
                },
                None => None,
            }
        }
    } else {
        None
    }
}

/// Decoding the encoding of any well-formed extrinsic — any combination of
/// address, call, signature and extension data — reproduces an equal
/// extrinsic.
proof fn lemma_decode_signature_frame(s: Seq<u8>, o: int, sig: ModelSignature)
    requires
        0 <= o,
        o + 16 <= s.len(),
        s.subrange(o, o + 16) == spec_encode_signature(sig),
    ensures
        spec_decode_u64_at(s, o) == sig.signed_by,
        spec_decode_u64_at(s, o + 8) == sig.tag,
{
    let e_sb = spec_encode_u64(sig.signed_by);
    let e_tag = spec_encode_u64(sig.tag);
    let enc = spec_encode_signature(sig);
    assert(enc == e_sb + e_tag);
    assert(enc.len() == 16);
    lemma_subrange_of_frame(s, o, enc, 0, 8);
    lemma_subrange_of_prefix(e_sb, e_tag, 0, 8);
    lemma_subrange_full(e_sb);
    assert(s.subrange(o, o + 8) == e_sb);
    lemma_decode_u64_frame(s, o, sig.signed_by);
    lemma_subrange_of_frame(s, o, enc, 8, 16);
    lemma_subrange_at_suffix(e_sb, e_tag);
    lemma_decode_u64_frame(s, o + 8, sig.tag);
}

proof fn lemma_decode_extra_frame(s: Seq<u8>, o: int, extra: ModelExtra)
    requires
        0 <= o,
        o + 56 <= s.len(),
        s.subrange(o, o + 56) == spec_encode_extra(extra),
    ensures
        spec_decode_u64_at(s, o) == extra.spec_version,
        spec_decode_u64_at(s, o + 8) == extra.valid_until,
        spec_decode_u64_at(s, o + 16) == extra.at_block,
        spec_decode_u64_at(s, o + 24) == extra.expected_nonce,
        spec_decode_u64_at(s, o + 32) == extra.nonce,
        spec_decode_u64_at(s, o + 40) == extra.balance,
        spec_decode_u64_at(s, o + 48) == extra.cost,
{
    let x1 = spec_encode_u64(extra.spec_version);
    let x2 = spec_encode_u64(extra.valid_until);
    let x3 = spec_encode_u64(extra.at_block);
    let x4 = spec_encode_u64(extra.expected_nonce);
    let x5 = spec_encode_u64(extra.nonce);
    let x6 = spec_encode_u64(extra.balance);
    let x7 = spec_encode_u64(extra.cost);
    let g1 = x1 + x2;
    let g2 = g1 + x3;
    let g3 = g2 + x4;
    let g4 = g3 + x5;
    let g5 = g4 + x6;
    let enc = spec_encode_extra(extra);
    assert(enc == g5 + x7);
    assert(enc.len() == 56);
    lemma_subrange_of_frame(s, o, enc, 0, 8);
    lemma_subrange_of_prefix(g5, x7, 0, 8);
    lemma_subrange_of_prefix(g4, x6, 0, 8);
    lemma_subrange_of_prefix(g3, x5, 0, 8);
    lemma_subrange_of_prefix(g2, x4, 0, 8);
    lemma_subrange_of_prefix(g1, x3, 0, 8);
    lemma_subrange_of_prefix(x1, x2, 0, 8);
    lemma_subrange_full(x1);
    lemma_decode_u64_frame(s, o, extra.spec_version);
    lemma_subrange_of_frame(s, o, enc, 8, 16);
    lemma_subrange_of_prefix(g5, x7, 8, 16);
    lemma_subrange_of_prefix(g4, x6, 8, 16);
    lemma_subrange_of_prefix(g3, x5, 8, 16);
    lemma_subrange_of_prefix(g2, x4, 8, 16);
    lemma_subrange_of_prefix(g1, x3, 8, 16);
    lemma_subrange_at_suffix(x1, x2);
    lemma_decode_u64_frame(s, o + 8, extra.valid_until);
    lemma_subrange_of_frame(s, o, enc, 16, 24);
    lemma_subrange_of_prefix(g5, x7, 16, 24);
    lemma_subrange_of_prefix(g4, x6, 16, 24);
    lemma_subrange_of_prefix(g3, x5, 16, 24);
    lemma_subrange_of_prefix(g2, x4, 16, 24);
    lemma_subrange_at_suffix(g1, x3);
    lemma_decode_u64_frame(s, o + 16, extra.at_block);
    lemma_subrange_of_frame(s, o, enc, 24, 32);
    lemma_subrange_of_prefix(g5, x7, 24, 32);
    lemma_subrange_of_prefix(g4, x6, 24, 32);
    lemma_subrange_of_prefix(g3, x5, 24, 32);
    lemma_subrange_at_suffix(g2, x4);
    lemma_decode_u64_frame(s, o + 24, extra.expected_nonce);
    lemma_subrange_of_frame(s, o, enc, 32, 40);
    lemma_subrange_of_prefix(g5, x7, 32, 40);
    lemma_subrange_of_prefix(g4, x6, 32, 40);
    lemma_subrange_at_suffix(g3, x5);
    lemma_decode_u64_frame(s, o + 32, extra.nonce);
    lemma_subrange_of_frame(s, o, enc, 40, 48);
    lemma_subrange_of_prefix(g5, x7, 40, 48);
    lemma_subrange_at_suffix(g4, x6);
    lemma_decode_u64_frame(s, o + 40, extra.balance);
    lemma_subrange_of_frame(s, o, enc, 48, 56);
    lemma_subrange_at_suffix(g5, x7);
    lemma_decode_u64_frame(s, o + 48, extra.cost);
}

proof fn lemma_codec_roundtrip_unsigned(ext: ModelExtrinsic)
    requires
        ext.signature is None,
    ensures
        spec_decode_extrinsic(spec_encode_extrinsic(ext)) == Some(ext),
{
    let s = spec_encode_extrinsic(ext);
    let e_call = spec_encode_call(ext.function);
    let call_len = e_call.len() as int;
    let h = seq![EXTRINSIC_FORMAT_VERSION, 0u8];
    assert(s == h + e_call);
    assert(h.len() == 2);
    assert(s.len() == 2 + call_len);
    assert(s[0] == h[0]);
    assert(s[1] == h[1]);
    lemma_subrange_at_suffix(h, e_call);
    lemma_subrange_full(e_call);
    lemma_decode_call_frame(s, 2, ext.function);
    assert(spec_decode_extrinsic(s) == Some(
        (UncheckedExtrinsic {
            function: ext.function,
            signature: None::<(u64, ModelSignature, ModelExtra)>,
        }),
    ));
}

#[verifier::rlimit(100)]
proof fn lemma_codec_roundtrip_signed(ext: ModelExtrinsic)
    requires
        ext.signature is Some,
    ensures
        spec_decode_extrinsic(spec_encode_extrinsic(ext)) == Some(ext),
{
    let s = spec_encode_extrinsic(ext);
    let e_call = spec_encode_call(ext.function);
    let call_len = e_call.len() as int;
    match ext.signature {
        None => {
            assert(false);
        },
        Some((address, sig, extra)) => {
            let h = seq![EXTRINSIC_FORMAT_VERSION, 1u8];
            let e_addr = spec_encode_u64(address);
            let e_sig = spec_encode_signature(sig);
            let e_extra = spec_encode_extra(extra);
            let p1 = h + e_addr;
            let p2 = p1 + e_call;
            let p3 = p2 + e_sig;
            assert(s == p3 + e_extra);
            let end = 10 + call_len;
            assert(h.len() == 2);
            assert(p1.len() == 10);
            assert(p2.len() == end);
            assert(e_sig.len() == 16);
            assert(e_extra.len() == 56);
            assert(p3.len() == end + 16);
            assert(s.len() == end + 72);
            // Version and presence bytes.
            assert(s[0] == p3[0]);
            assert(p3[0] == p2[0]);
            assert(p2[0] == p1[0]);
            assert(p1[0] == h[0]);
            assert(s[1] == p3[1]);
            assert(p3[1] == p2[1]);
            assert(p2[1] == p1[1]);
            assert(p1[1] == h[1]);
            // The address sits at [2, 10).
            lemma_subrange_of_prefix(p3, e_extra, 2, 10);
            lemma_subrange_of_prefix(p2, e_sig, 2, 10);
            lemma_subrange_of_prefix(p1, e_call, 2, 10);
            lemma_subrange_at_suffix(h, e_addr);
            lemma_decode_u64_frame(s, 2, address);
            // The call sits at [10, end).
            lemma_subrange_of_prefix(p3, e_extra, 10, end);
            lemma_subrange_of_prefix(p2, e_sig, 10, end);
            lemma_subrange_at_suffix(p1, e_call);
            lemma_decode_call_frame(s, 10, ext.function);
            // The signature sits at [end, end + 16).
            lemma_subrange_of_prefix(p3, e_extra, end, end + 16);
            lemma_subrange_at_suffix(p2, e_sig);
            lemma_decode_signature_frame(s, end, sig);
            // The extension data sits at [end + 16, end + 72).
            lemma_subrange_at_suffix(p3, e_extra);
            lemma_decode_extra_frame(s, end + 16, extra);
            assert(spec_decode_extrinsic(s) == Some(
                (UncheckedExtrinsic {
                    function: ext.function,
                    signature: Some((address, sig, extra)),
                }),
            ));
        },
    }
}

/// Decoding the encoding of any well-formed extrinsic — any combination of
/// address, call, signature and extension data — reproduces an equal
/// extrinsic.
pub proof fn lemma_codec_roundtrip(ext: ModelExtrinsic)
    ensures
        spec_decode_extrinsic(spec_encode_extrinsic(ext)) == Some(ext),
{
    if ext.signature is Some {
        lemma_codec_roundtrip_signed(ext);
    } else {
        lemma_codec_roundtrip_unsigned(ext);
    }
}

/// Appends the little-endian bytes of `x`.
fn encode_u64_into(buf: &mut Vec<u8>, x: u64)
    ensures
        final(buf)@ == old(buf)@ + spec_encode_u64(x),
{
    buf.push((x & 0xff) as u8);
    buf.push(((x >> 8) & 0xff) as u8);
    buf.push(((x >> 16) & 0xff) as u8);
    buf.push(((x >> 24) & 0xff) as u8);
    buf.push(((x >> 32) & 0xff) as u8);
    buf.push(((x >> 40) & 0xff) as u8);
    buf.push(((x >> 48) & 0xff) as u8);
    buf.push(((x >> 56) & 0xff) as u8);
    proof {
        assert(buf@ =~= old(buf)@ + spec_encode_u64(x));
    }
}

/// Reads the 64-bit integer stored little-endian at `i`.
fn decode_u64_at(bytes: &Vec<u8>, i: usize) -> (r: u64)
    requires
        i + 8 <= bytes@.len(),
    ensures
        r == spec_decode_u64_at(bytes@, i as int),
{
    let n = bytes.len();
    (bytes[i] as u64) | ((bytes[i + 1] as u64) << 8) | ((bytes[i + 2] as u64) << 16) | ((bytes[i
        + 3] as u64) << 24) | ((bytes[i + 4] as u64) << 32) | ((bytes[i + 5] as u64) << 40) | ((
    bytes[i + 6] as u64) << 48) | ((bytes[i + 7] as u64) << 56)
}

/// Appends the wire form of a call.
fn encode_call_into(buf: &mut Vec<u8>, call: &ModelCall)
    ensures
        final(buf)@ == old(buf)@ + spec_encode_call(*call),
{
    match call {
        ModelCall::Transfer { dest, value } => {
            buf.push(0u8);
            encode_u64_into(buf, *dest);
            encode_u64_into(buf, *value);
        },
        ModelCall::Remark { note } => {
            buf.push(1u8);
            encode_u64_into(buf, *note);
        },
        ModelCall::Embedded { signer, payload, seal } => {
            buf.push(2u8);
            encode_u64_into(buf, *signer);
            encode_u64_into(buf, *payload);
            encode_u64_into(buf, *seal);
        },
    }
    proof {
        assert(buf@ =~= old(buf)@ + spec_encode_call(*call));
    }
}

/// Reads a call at `pos`, yielding it with the position just past it.
fn decode_call_at(bytes: &Vec<u8>, pos: usize) -> (r: Option<(ModelCall, usize)>)
    ensures
        (r is Some) == (spec_decode_call_at(bytes@, pos as int) is Some),
        r matches Some((c, end)) ==> spec_decode_call_at(bytes@, pos as int) == Some(
            (c, end as int),
        ),
{
    if pos >= bytes.len() {
        return None;
    }
    let d = bytes[pos];
    if d == 0 {
        if bytes.len() - pos >= 17 {
            let dest = decode_u64_at(bytes, pos + 1);
            let value = decode_u64_at(bytes, pos + 9);
            Some((ModelCall::Transfer { dest, value }, pos + 17))
        } else {
            None
        }
    } else if d == 1 {
        if bytes.len() - pos >= 9 {
            let note = decode_u64_at(bytes, pos + 1);
            Some((ModelCall::Remark { note }, pos + 9))
        } else {
            None
        }
    } else if d == 2 {
        if bytes.len() - pos >= 25 {
            let signer = decode_u64_at(bytes, pos + 1);
            let payload = decode_u64_at(bytes, pos + 9);
            let seal = decode_u64_at(bytes, pos + 17);
            Some((ModelCall::Embedded { signer, payload, seal }, pos + 25))
        } else {
            None
        }
    } else {
        None
    }
}

/// Writes an extrinsic into its wire form.
pub fn encode_extrinsic(ext: &ModelExtrinsic) -> (r: Vec<u8>)
    ensures
        r@ == spec_encode_extrinsic(*ext),
{
    let mut buf: Vec<u8> = Vec::new();
    buf.push(EXTRINSIC_FORMAT_VERSION);
    match &ext.signature {
        Some(parts) => {
            let (address, sig, extra) = *parts;
            buf.push(1u8);
            encode_u64_into(&mut buf, address);
            encode_call_into(&mut buf, &ext.function);
            encode_u64_into(&mut buf, sig.signed_by);
            encode_u64_into(&mut buf, sig.tag);
            encode_u64_into(&mut buf, extra.spec_version);
            encode_u64_into(&mut buf, extra.valid_until);
            encode_u64_into(&mut buf, extra.at_block);
            encode_u64_into(&mut buf, extra.expected_nonce);
            encode_u64_into(&mut buf, extra.nonce);
            encode_u64_into(&mut buf, extra.balance);
            encode_u64_into(&mut buf, extra.cost);
            proof {
                assert(buf@ =~= spec_encode_extrinsic(*ext));
            }
        },
        None => {
            buf.push(0u8);
            encode_call_into(&mut buf, &ext.function);
            proof {
                assert(buf@ =~= spec_encode_extrinsic(*ext));
            }
        },
    }
    buf
}

/// Reads an extrinsic back from its wire form; nothing comes back unless the
/// buffer is exactly one well-formed extrinsic.
pub fn decode_extrinsic(bytes: &Vec<u8>) -> (r: Option<ModelExtrinsic>)
    ensures
        r == spec_decode_extrinsic(bytes@),
{
    if bytes.len() < 2 {
        return None;
    }
    if bytes[0] != EXTRINSIC_FORMAT_VERSION {
        return None;
    }
    if bytes[1] == 0 {
        match decode_call_at(bytes, 2) {
            Some((c, end)) => {
                if end == bytes.len() {
                    Some(UncheckedExtrinsic { function: c, signature: None })
                } else {
                    None
                }
            },
            None => None,
        }
    } else if bytes[1] == 1 {
        if bytes.len() < 10 {
            return None;
        }
        let address = decode_u64_at(bytes, 2);
        match decode_call_at(bytes, 10) {
            Some((c, end)) => {
                if bytes.len() - end == 72 {
                    let sig = ModelSignature {
                        signed_by: decode_u64_at(bytes, end),
                        tag: decode_u64_at(bytes, end + 8),
                    };
                    let extra = ModelExtra {
                        spec_version: decode_u64_at(bytes, end + 16),
                        valid_until: decode_u64_at(bytes, end + 24),
                        at_block: decode_u64_at(bytes, end + 32),
                        expected_nonce: decode_u64_at(bytes, end + 40),
                        nonce: decode_u64_at(bytes, end + 48),
                        balance: decode_u64_at(bytes, end + 56),
                        cost: decode_u64_at(bytes, end + 64),
                    };
                    Some(UncheckedExtrinsic { function: c, signature: Some((address, sig, extra)) })
                } else {
                    None
                }
            },
            None => None,
        }
    } else {
        None
    }
}

/// A lossy, type-agnostic byte-blob projection of an extrinsic, for code that
/// relays envelopes without interpreting them.
#[derive(Clone, Debug, PartialEq, Eq)]
pub struct OpaqueExtrinsic(pub Vec<u8>);

impl UncheckedExtrinsic<u64, ModelCall, ModelSignature, ModelExtra> {
    /// Projects the extrinsic onto its opaque wire form.
    pub fn into_opaque(self) -> (r: OpaqueExtrinsic)
        ensures
            r.0@ == spec_encode_extrinsic(self),
    {
        OpaqueExtrinsic(encode_extrinsic(&self))
    }
}

} // verus!
