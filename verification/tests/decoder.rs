use blockstats::errors::StatsError;
use blockstats::loader::load_weight_limits;
use blockstats::scale::{
    decode_compact_u64, decode_option_weight, decode_weight, decode_weight_aggregate,
    decode_weight_limits,
};
use parity_scale_codec::{Compact, Encode};

/// Compact-encode a `u64` with the chain's own codec.
fn compact(v: u64) -> Vec<u8> {
    Compact(v).encode()
}

/// Encode a `Weight` as the chain does: two compact `u64` fields.
fn weight_bytes(ref_time: u64, proof_size: u64) -> Vec<u8> {
    let mut out = compact(ref_time);
    out.extend(compact(proof_size));
    out
}

/// Encode an `Option<Weight>`: a tag byte, then the value if present.
fn option_weight_bytes(w: Option<(u64, u64)>) -> Vec<u8> {
    match w {
        None => vec![0u8],
        Some((rt, ps)) => {
            let mut out = vec![1u8];
            out.extend(weight_bytes(rt, ps));
            out
        }
    }
}

/// Encode one class's limits: base_extrinsic, max_extrinsic, max_total, reserved.
fn per_class_bytes(base: (u64, u64)) -> Vec<u8> {
    let mut out = weight_bytes(base.0, base.1);
    out.extend(option_weight_bytes(Some((base.0 * 2, base.1 * 2))));
    out.extend(option_weight_bytes(None));
    out.extend(option_weight_bytes(Some((7, 8))));
    out
}

/// Encode a whole block-weight-limits constant.
fn limits_bytes(max_block: (u64, u64)) -> Vec<u8> {
    let mut out = weight_bytes(5_000_000_000, 1024);
    out.extend(weight_bytes(max_block.0, max_block.1));
    out.extend(per_class_bytes((100, 10)));
    out.extend(per_class_bytes((200, 20)));
    out.extend(per_class_bytes((300, 30)));
    out
}

#[test]
fn compact_round_trips_against_chain_codec() {
    let cases: Vec<u64> = vec![
        0,
        1,
        63,
        64,
        69,
        16_383,
        16_384,
        (1u64 << 30) - 1,
        1u64 << 30,
        u32::MAX as u64,
        1u64 << 32,
        (1u64 << 40) - 1,
        1u64 << 40,
        (1u64 << 48) - 1,
        1u64 << 48,
        (1u64 << 56) - 1,
        1u64 << 56,
        u64::MAX,
    ];
    for v in cases {
        let enc = compact(v);
        let got = decode_compact_u64(&enc, 0);
        assert_eq!(got, Some((v, enc.len())), "value {v}");
    }
}

#[test]
fn compact_rejects_non_minimal_encodings() {
    // 0 in two-byte mode: (0 << 2) | 1.
    assert_eq!(decode_compact_u64(&vec![0x01, 0x00], 0), None);
    // 100 in four-byte mode: (100 << 2) | 2.
    assert_eq!(decode_compact_u64(&vec![0x92, 0x01, 0x00, 0x00], 0), None);
    // 1 in big-integer mode with four data bytes.
    assert_eq!(decode_compact_u64(&vec![0x03, 0x01, 0x00, 0x00, 0x00], 0), None);
}

#[test]
fn compact_rejects_truncated_input() {
    assert_eq!(decode_compact_u64(&vec![], 0), None);
    // Two-byte mode with only the prefix.
    assert_eq!(decode_compact_u64(&vec![0x01], 0), None);
    // Big-integer mode promising eight data bytes but holding one.
    assert_eq!(decode_compact_u64(&vec![0x13, 0xff], 0), None);
    // A prefix promising more than eight data bytes is invalid outright.
    assert_eq!(
        decode_compact_u64(&vec![0x17, 1, 2, 3, 4, 5, 6, 7, 8, 9], 0),
        None
    );
}

#[test]
fn compact_decodes_mid_buffer() {
    let mut buf = vec![0xaa, 0xbb];
    buf.extend(compact(1_000_000));
    buf.push(0xcc);
    let got = decode_compact_u64(&buf, 2);
    assert_eq!(got, Some((1_000_000, 4)));
}

#[test]
fn weight_decodes_both_fields() {
    let enc = weight_bytes(510_000_000_000, 204_800);
    let (w, used) = decode_weight(&enc, 0).expect("valid weight");
    assert_eq!(w.ref_time, 510_000_000_000);
    assert_eq!(w.proof_size, 204_800);
    assert_eq!(used, enc.len());
}

#[test]
fn option_weight_decodes_tags() {
    let absent = option_weight_bytes(None);
    let (w, used) = decode_option_weight(&absent, 0).expect("valid tag");
    assert!(w.is_none());
    assert_eq!(used, 1);

    let present = option_weight_bytes(Some((3, 4)));
    let (w, used) = decode_option_weight(&present, 0).expect("valid tag");
    let w = w.expect("present");
    assert_eq!(w.ref_time, 3);
    assert_eq!(w.proof_size, 4);
    assert_eq!(used, present.len());

    // Tag 2 is invalid.
    assert_eq!(decode_option_weight(&vec![2u8, 0, 0], 0), None);
}

#[test]
fn weight_aggregate_decodes_three_classes() {
    let mut enc = weight_bytes(10, 20);
    enc.extend(weight_bytes(1, 2));
    enc.extend(weight_bytes(100, 200));
    let (agg, used) = decode_weight_aggregate(&enc, 0).expect("valid aggregate");
    assert_eq!(used, enc.len());
    assert_eq!(agg.normal.ref_time, 10);
    assert_eq!(agg.operational.proof_size, 2);
    assert_eq!(agg.mandatory.ref_time, 100);
    let total = agg.total();
    assert_eq!(total.ref_time, 111);
    assert_eq!(total.proof_size, 222);

    // A truncated aggregate does not decode.
    assert!(decode_weight_aggregate(&enc[..enc.len() - 1].to_vec(), 0).is_none());
}

#[test]
fn whole_constant_decodes() {
    let enc = limits_bytes((2_000_000_000_000, 5_242_880));
    let (limits, used) = decode_weight_limits(&enc, 0).expect("valid constant");
    assert_eq!(used, enc.len());
    assert_eq!(limits.base_block.ref_time, 5_000_000_000);
    assert_eq!(limits.base_block.proof_size, 1024);
    assert_eq!(limits.max_block.ref_time, 2_000_000_000_000);
    assert_eq!(limits.max_block.proof_size, 5_242_880);
    assert_eq!(limits.per_class.normal.base_extrinsic.ref_time, 100);
    assert_eq!(limits.per_class.normal.max_extrinsic.unwrap().ref_time, 200);
    assert!(limits.per_class.normal.max_total.is_none());
    assert_eq!(limits.per_class.normal.reserved.unwrap().proof_size, 8);
    assert_eq!(limits.per_class.operational.base_extrinsic.ref_time, 200);
    assert_eq!(limits.per_class.mandatory.base_extrinsic.proof_size, 30);
}

#[test]
fn trailing_bytes_are_ignored() {
    let mut enc = limits_bytes((1_000, 2_000));
    let used_clean = decode_weight_limits(&enc, 0).expect("valid").1;
    enc.extend(vec![0xde, 0xad, 0xbe, 0xef]);
    let (limits, used) = decode_weight_limits(&enc, 0).expect("still valid");
    assert_eq!(used, used_clean);
    assert_eq!(limits.max_block.ref_time, 1_000);
}

#[test]
fn loader_decodes_valid_constant() {
    let enc = limits_bytes((2_000_000_000_000, 5_242_880));
    let limits = load_weight_limits(Some(enc)).expect("valid constant");
    assert_eq!(limits.max_block.ref_time, 2_000_000_000_000);
}

#[test]
fn loader_reports_missing_constant() {
    assert!(matches!(
        load_weight_limits(None),
        Err(StatsError::ConfigurationMissing)
    ));
}

#[test]
fn loader_reports_undecodable_constant() {
    // An Option tag of 2 deep inside the per-class section.
    let mut enc = limits_bytes((1, 2));
    let truncated = enc.split_off(enc.len() - 3);
    drop(truncated);
    assert!(matches!(
        load_weight_limits(Some(enc)),
        Err(StatsError::DecodeFailure)
    ));
    assert!(matches!(
        load_weight_limits(Some(vec![0x01])),
        Err(StatsError::DecodeFailure)
    ));
}
