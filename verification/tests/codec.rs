use self_contained::codec::{decode_extrinsic, encode_extrinsic};
use self_contained::model::{
    model_sign, seal_for, ModelCall, ModelExtra, ModelExtrinsic, MODEL_SPEC_VERSION,
};
use self_contained::unchecked_extrinsic::{UncheckedExtrinsic, EXTRINSIC_FORMAT_VERSION};

fn sample_extra() -> ModelExtra {
    ModelExtra {
        spec_version: MODEL_SPEC_VERSION,
        valid_until: 0xdead_beef_0102_0304,
        at_block: 77,
        expected_nonce: 5,
        nonce: 5,
        balance: u64::MAX,
        cost: 0,
    }
}

fn signed_sample() -> ModelExtrinsic {
    let call = ModelCall::Transfer { dest: 0x0102_0304_0506_0708, value: 9 };
    let extra = sample_extra();
    let sig = model_sign(&call, &extra, 70);
    UncheckedExtrinsic::new_signed(call, 7, sig, extra)
}

#[test]
fn roundtrip_signed() {
    let ext = signed_sample();
    let bytes = encode_extrinsic(&ext);
    assert_eq!(decode_extrinsic(&bytes), Some(ext));
}

#[test]
fn roundtrip_unsigned_each_call_kind() {
    let calls = [
        ModelCall::Transfer { dest: 0, value: u64::MAX },
        ModelCall::Remark { note: 1 },
        ModelCall::Embedded { signer: 9, payload: 100, seal: seal_for(9, 100) },
    ];
    for call in calls {
        let ext: ModelExtrinsic = UncheckedExtrinsic::new_unsigned(call);
        let bytes = encode_extrinsic(&ext);
        assert_eq!(decode_extrinsic(&bytes), Some(ext));
    }
}

#[test]
fn layout_starts_with_version_and_presence_flag() {
    let unsigned: ModelExtrinsic = UncheckedExtrinsic::new_unsigned(ModelCall::Remark { note: 1 });
    let bytes = encode_extrinsic(&unsigned);
    assert_eq!(bytes[0], EXTRINSIC_FORMAT_VERSION);
    assert_eq!(bytes[1], 0);
    // version + flag + discriminant + one 64-bit field
    assert_eq!(bytes.len(), 11);
    let signed = signed_sample();
    let bytes = encode_extrinsic(&signed);
    assert_eq!(bytes[0], EXTRINSIC_FORMAT_VERSION);
    assert_eq!(bytes[1], 1);
    // version + flag + address + (discriminant + two fields) + signature + extra
    assert_eq!(bytes.len(), 2 + 8 + 17 + 16 + 56);
}

#[test]
fn exact_wire_form_of_a_small_inherent() {
    let ext: ModelExtrinsic = UncheckedExtrinsic::new_unsigned(ModelCall::Remark { note: 1 });
    assert_eq!(encode_extrinsic(&ext), vec![4, 0, 1, 1, 0, 0, 0, 0, 0, 0, 0]);
}

#[test]
fn integers_are_little_endian() {
    let ext: ModelExtrinsic =
        UncheckedExtrinsic::new_unsigned(ModelCall::Remark { note: 0x0102_0304_0506_0708 });
    let bytes = encode_extrinsic(&ext);
    assert_eq!(&bytes[3..11], &[0x08, 0x07, 0x06, 0x05, 0x04, 0x03, 0x02, 0x01]);
}

#[test]
fn decode_rejects_malformed_input() {
    assert_eq!(decode_extrinsic(&vec![]), None);
    assert_eq!(decode_extrinsic(&vec![EXTRINSIC_FORMAT_VERSION]), None);
    // Wrong version discriminant.
    let mut bytes = encode_extrinsic(&signed_sample());
    bytes[0] ^= 1;
    assert_eq!(decode_extrinsic(&bytes), None);
    // Unknown presence flag.
    let mut bytes = encode_extrinsic(&signed_sample());
    bytes[1] = 2;
    assert_eq!(decode_extrinsic(&bytes), None);
    // Unknown call discriminant.
    let mut bytes = encode_extrinsic(&signed_sample());
    bytes[10] = 9;
    assert_eq!(decode_extrinsic(&bytes), None);
    // Truncated buffer.
    let mut bytes = encode_extrinsic(&signed_sample());
    bytes.pop();
    assert_eq!(decode_extrinsic(&bytes), None);
    // Trailing garbage.
    let mut bytes = encode_extrinsic(&signed_sample());
    bytes.push(0);
    assert_eq!(decode_extrinsic(&bytes), None);
}

#[test]
fn opaque_projection_is_the_wire_form() {
    let ext = signed_sample();
    let bytes = encode_extrinsic(&ext);
    let opaque = ext.into_opaque();
    assert_eq!(opaque.0, bytes);
}
