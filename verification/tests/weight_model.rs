use blockstats::stats::{enrich, pct, BlockNote, RawBlockStats};
use blockstats::weight::{DispatchClassAggregate, Weight};

#[test]
fn total_is_field_wise_sum() {
    let agg = DispatchClassAggregate {
        normal: Weight { ref_time: 1, proof_size: 10 },
        operational: Weight { ref_time: 2, proof_size: 20 },
        mandatory: Weight { ref_time: 3, proof_size: 30 },
    };
    let total = agg.total();
    assert_eq!(total.ref_time, 6);
    assert_eq!(total.proof_size, 60);
}

#[test]
fn add_is_commutative_on_values() {
    let a = Weight { ref_time: 7, proof_size: 11 };
    let b = Weight { ref_time: 13, proof_size: 17 };
    let ab = a.add(b);
    let ba = b.add(a);
    assert_eq!(ab.ref_time, ba.ref_time);
    assert_eq!(ab.proof_size, ba.proof_size);
    assert_eq!(ab.ref_time, 20);
    assert_eq!(ab.proof_size, 28);
}

#[test]
fn add_is_associative_on_values() {
    let a = Weight { ref_time: 1, proof_size: 2 };
    let b = Weight { ref_time: 3, proof_size: 4 };
    let c = Weight { ref_time: 5, proof_size: 6 };
    let left = a.add(b).add(c);
    let right = a.add(b.add(c));
    assert_eq!(left.ref_time, right.ref_time);
    assert_eq!(left.proof_size, right.proof_size);
}

#[test]
fn add_saturates_instead_of_wrapping() {
    let a = Weight { ref_time: u64::MAX - 1, proof_size: 5 };
    let b = Weight { ref_time: 10, proof_size: 7 };
    let s = a.add(b);
    assert_eq!(s.ref_time, u64::MAX);
    assert_eq!(s.proof_size, 12);
}

#[test]
fn zero_aggregate_totals_to_zero() {
    let total = DispatchClassAggregate::zero().total();
    assert_eq!(total.ref_time, 0);
    assert_eq!(total.proof_size, 0);
}

#[test]
fn pov_len_is_witness_plus_body() {
    let note = BlockNote { hash: [7u8; 32], number: 42 };
    let stats = RawBlockStats { witness_len: 1000, block_len: 234, num_extrinsics: 3 };
    let agg = DispatchClassAggregate::zero();
    let record = enrich(
        note,
        stats,
        agg,
        2_621_440,
        Weight { ref_time: 2_000_000_000_000, proof_size: 5_242_880 },
    );
    assert_eq!(record.pov_len, 1234);
    assert_eq!(record.witness_len, 1000);
    assert_eq!(record.len, 234);
    assert_eq!(record.num_extrinsics, 3);
    assert_eq!(record.hash, [7u8; 32]);
    assert_eq!(record.number, 42);
}

#[test]
fn pct_truncates() {
    // 1 MiB of a 2.5 MiB ceiling is 40%, not 40.0 or 41.
    assert_eq!(pct(1_048_576, 2_621_440), 40);
    // 99.9% truncates to 99.
    assert_eq!(pct(999, 1000), 99);
    // Over-100 percentages are reported as they are, not clamped.
    assert_eq!(pct(3000, 1000), 300);
}

#[test]
fn end_to_end_enrichment_figures() {
    let note = BlockNote { hash: [1u8; 32], number: 1 };
    let stats = RawBlockStats { witness_len: 102_400, block_len: 51_200, num_extrinsics: 12 };
    let agg = DispatchClassAggregate {
        normal: Weight { ref_time: 500_000_000_000, proof_size: 0 },
        operational: Weight { ref_time: 0, proof_size: 0 },
        mandatory: Weight { ref_time: 10_000_000_000, proof_size: 0 },
    };
    let max_weight = Weight { ref_time: 2_000_000_000_000, proof_size: 5_242_880 };
    let record = enrich(note, stats, agg, 2_621_440, max_weight);
    assert_eq!(record.pov_len, 153_600);
    assert_eq!(record.weight.ref_time, 510_000_000_000);
    assert_eq!(record.ref_time_pct(), 25);
    assert_eq!(record.num_extrinsics, 12);
}

#[test]
fn display_derivations() {
    let note = BlockNote { hash: [0u8; 32], number: 9 };
    let stats = RawBlockStats { witness_len: 102_400, block_len: 51_200, num_extrinsics: 2 };
    let agg = DispatchClassAggregate {
        normal: Weight { ref_time: 3_500_000_000, proof_size: 2048 },
        operational: Weight { ref_time: 0, proof_size: 0 },
        mandatory: Weight { ref_time: 0, proof_size: 0 },
    };
    let max_weight = Weight { ref_time: 2_000_000_000_000, proof_size: 5_242_880 };
    let record = enrich(note, stats, agg, 2_621_440, max_weight);
    assert_eq!(record.pov_kib(), 150);
    assert_eq!(record.witness_kib(), 100);
    assert_eq!(record.len_kib(), 50);
    assert_eq!(record.ref_time_ms(), 3);
    assert_eq!(record.pov_pct(), 5);
    assert_eq!(record.proof_size_pct(), 0);
}
