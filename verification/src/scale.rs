//! Verified decoder for the wire layout of the chain's block-weight-limits
//! constant.
//!
//! The constant is encoded with the chain's compact/LE codec: each `Weight`
//! field is a compact-encoded `u64`, optional fields carry a one-byte tag, and
//! records are the plain concatenation of their fields. The spec functions
//! here state that grammar directly over byte sequences; the executable
//! decoders are proved to return exactly what the grammar assigns to the
//! input, and to reject exactly the inputs the grammar rejects (including
//! non-minimal compact encodings, which the chain's codec treats as errors).

use vstd::prelude::*;
use crate::weight::{ChainWeightLimits, DispatchClassAggregate, Weight, WeightsPerClass};

verus! {

/// Little-endian value of `n` bytes of `s` starting at `off`.
pub open spec fn le_val(s: Seq<u8>, off: int, n: int) -> int
    decreases n,
{
    if n <= 0 {
        0
    } else {
        s[off] + 256 * le_val(s, off + 1, n - 1)
    }
}

/// `256 ^ n`.
pub open spec fn pow256(n: int) -> int
    decreases n,
{
    if n <= 0 {
        1
    } else {
        256 * pow256(n - 1)
    }
}

proof fn lemma_le_val_bound(s: Seq<u8>, off: int, n: int)
    requires
        0 <= off,
        off + n <= s.len(),
    ensures
        0 <= le_val(s, off, n) < pow256(n),
    decreases n,
{
    if n > 0 {
        lemma_le_val_bound(s, off + 1, n - 1);
    }
}

/// Smallest value that a compact encoding in big-integer mode with `n` data
/// bytes may carry: smaller values must use a shorter mode, and the codec
/// rejects the longer form.
pub open spec fn compact_big_min(n: int) -> int {
    if n == 4 {
        0x4000_0000
    } else {
        pow256(n - 1)
    }
}

/// Compact-`u64` decoding at position `i` of `s`: the decoded value and the
/// number of bytes consumed, or `None` where no valid, minimal compact
/// encoding starts at `i`.
///
/// The first byte's low two bits select the mode: the value in the remaining
/// six bits (mode 0), a two- or four-byte little-endian value shifted by the
/// mode bits (modes 1 and 2), or a length-prefixed little-endian big integer
/// of 4 to 8 data bytes (mode 3). Each mode is valid only for values too
/// large for every shorter mode.
pub open spec fn spec_decode_compact_u64(s: Seq<u8>, i: int) -> Option<(u64, int)> {
    if i < 0 || i >= s.len() {
        None
    } else {
        let p = s[i] as int;
        if p % 4 == 0 {
            Some(((p / 4) as u64, 1))
        } else if p % 4 == 1 {
            if i + 2 <= s.len() {
                let v = p / 4 + (s[i + 1] as int) * 64;
                if v >= 64 {
                    Some((v as u64, 2))
                } else {
                    None
                }
            } else {
                None
            }
        } else if p % 4 == 2 {
            if i + 4 <= s.len() {
                let v = p / 4 + (s[i + 1] as int) * 64 + (s[i + 2] as int) * 16384 + (s[i + 3]
                    as int) * 4194304;
                if v >= 16384 {
                    Some((v as u64, 4))
                } else {
                    None
                }
            } else {
                None
            }
        } else {
            let n = p / 4 + 4;
            if n <= 8 && i + 1 + n <= s.len() {
                let v = le_val(s, i + 1, n);
                if v >= compact_big_min(n) {
                    Some((v as u64, 1 + n))
                } else {
                    None
                }
            } else {
                None
            }
        }
    }
}

/// Decode a compact-encoded `u64` at `pos`, returning the value and the
/// number of bytes consumed.
pub fn decode_compact_u64(bytes: &Vec<u8>, pos: usize) -> (r: Option<(u64, usize)>)
    ensures
        match r {
            Some(p) => {
                &&& spec_decode_compact_u64(bytes@, pos as int) == Some((p.0, p.1 as int))
                &&& pos + p.1 <= bytes.len()
                &&& p.1 >= 1
            },
            None => spec_decode_compact_u64(bytes@, pos as int) is None,
        },
{
    if pos >= bytes.len() {
        return None;
    }
    let p = bytes[pos];
    let mode = p % 4;
    if mode == 0 {
        Some(((p / 4) as u64, 1))
    } else if mode == 1 {
        if bytes.len() - pos >= 2 {
            let v: u64 = (p / 4) as u64 + (bytes[pos + 1] as u64) * 64;
            if v >= 64 {
                Some((v, 2))
            } else {
                None
            }
        } else {
            None
        }
    } else if mode == 2 {
        if bytes.len() - pos >= 4 {
            let v: u64 = (p / 4) as u64 + (bytes[pos + 1] as u64) * 64 + (bytes[pos + 2] as u64)
                * 16384 + (bytes[pos + 3] as u64) * 4194304;
            if v >= 16384 {
                Some((v, 4))
            } else {
                None
            }
        } else {
            None
        }
    } else {
        let n: usize = (p / 4) as usize + 4;
        if n <= 8 && bytes.len() - pos >= n + 1 {
            let mut v: u64 = 0;
            let mut j: usize = n;
            while j > 0
                invariant
                    j <= n <= 8,
                    pos + 1 + n <= bytes.len(),
                    v == le_val(bytes@, pos + 1 + j, n - j),
                decreases j,
            {
                proof {
                    reveal_with_fuel(pow256, 8);
                    lemma_le_val_bound(bytes@, pos + 1 + j, n - j);
                    lemma_pow256_mono(n - j, 7);
                }
                j = j - 1;
                v = v * 256 + bytes[pos + 1 + j] as u64;
            }
            let min: u64 = compact_big_min_exec(n);
            proof {
                lemma_le_val_bound(bytes@, pos + 1 + n as int, 0);
            }
            if v >= min {
                Some((v, 1 + n))
            } else {
                None
            }
        } else {
            None
        }
    }
}

proof fn lemma_pow256_pos(n: int)
    ensures
        pow256(n) >= 1,
    decreases n,
{
    if n > 0 {
        lemma_pow256_pos(n - 1);
    }
}

proof fn lemma_pow256_mono(a: int, b: int)
    requires
        a <= b,
    ensures
        pow256(a) <= pow256(b),
    decreases b,
{
    if a < b && b > 0 {
        lemma_pow256_mono(a, b - 1);
        lemma_pow256_pos(b - 1);
    }
}

fn compact_big_min_exec(n: usize) -> (r: u64)
    requires
        4 <= n <= 8,
    ensures
        r == compact_big_min(n as int),
{
    proof {
        reveal_with_fuel(pow256, 8);
    }
    if n == 4 {
        0x4000_0000
    } else if n == 5 {
        0x1_0000_0000
    } else if n == 6 {
        0x100_0000_0000
    } else if n == 7 {
        0x1_0000_0000_0000
    } else {
        0x100_0000_0000_0000
    }
}

/// The number of data bytes of `v`'s big-integer-mode encoding: the fewest
/// that hold it, never fewer than four.
pub open spec fn compact_data_len(v: u64) -> int {
    if v < 0x1_0000_0000 {
        4
    } else if v < 0x100_0000_0000 {
        5
    } else if v < 0x1_0000_0000_0000 {
        6
    } else if v < 0x100_0000_0000_0000 {
        7
    } else {
        8
    }
}

/// The canonical compact encoding of `v`: the shortest mode that holds it.
pub open spec fn spec_encode_compact_u64(v: u64) -> Seq<u8> {
    if v < 64 {
        seq![(v * 4) as u8]
    } else if v < 16384 {
        seq![((v % 64) * 4 + 1) as u8, (v / 64) as u8]
    } else if v < 0x4000_0000 {
        seq![
            ((v % 64) * 4 + 2) as u8,
            ((v / 64) % 256) as u8,
            ((v / 16384) % 256) as u8,
            (v / 4194304) as u8,
        ]
    } else {
        let n = compact_data_len(v);
        seq![((n - 4) * 4 + 3) as u8] + Seq::new(
            n as nat,
            |j: int| ((v as int / pow256(j)) % 256) as u8,
        )
    }
}

/// A sequence whose bytes from `off` on are the base-256 digits of `v`,
/// least significant first, reads back as `v`.
proof fn lemma_le_val_from_digits(s: Seq<u8>, off: int, v: int, n: int)
    requires
        0 <= off,
        off + n <= s.len(),
        0 <= v < pow256(n),
        forall|j: int| 0 <= j < n ==> (#[trigger] s[off + j]) as int == (v / pow256(j)) % 256,
    ensures
        le_val(s, off, n) == v,
    decreases n,
{
    if n <= 0 {
    } else {
        assert(s[off + 0] as int == (v / pow256(0)) % 256);
        assert forall|j: int| 0 <= j < n - 1 implies (#[trigger] s[off + 1 + j]) as int == ((v
            / 256) / pow256(j)) % 256 by {
            assert(s[off + (j + 1)] as int == (v / pow256(j + 1)) % 256);
            lemma_pow256_pos(j);
            vstd::arithmetic::div_mod::lemma_div_denominator(v, 256, pow256(j));
            assert(256 * pow256(j) == pow256(j + 1));
        }
        vstd::arithmetic::div_mod::lemma_fundamental_div_mod(v, 256);
        lemma_pow256_pos(n - 1);
        assert(v / 256 < pow256(n - 1));
        lemma_le_val_from_digits(s, off + 1, v / 256, n - 1);
    }
}

/// Decoding is a left inverse of canonical encoding: the encoding of `v`,
/// followed by anything at all, decodes to exactly `v` and consumes exactly
/// the encoding's bytes.
pub proof fn lemma_compact_round_trip(v: u64, rest: Seq<u8>)
    ensures
        ({
            let enc = spec_encode_compact_u64(v);
            spec_decode_compact_u64(enc + rest, 0) == Some((v, enc.len() as int))
        }),
{
    let enc = spec_encode_compact_u64(v);
    let s = enc + rest;
    if v < 64 {
        assert(s[0] == enc[0]);
    } else if v < 16384 {
        assert(s[0] == enc[0] && s[1] == enc[1]);
        vstd::arithmetic::div_mod::lemma_fundamental_div_mod(v as int, 64);
    } else if v < 0x4000_0000 {
        assert(s[0] == enc[0] && s[1] == enc[1] && s[2] == enc[2] && s[3] == enc[3]);
        vstd::arithmetic::div_mod::lemma_fundamental_div_mod(v as int, 64);
        vstd::arithmetic::div_mod::lemma_fundamental_div_mod(v as int / 64, 256);
        vstd::arithmetic::div_mod::lemma_div_denominator(v as int, 64, 256);
        vstd::arithmetic::div_mod::lemma_fundamental_div_mod(v as int / 16384, 256);
        vstd::arithmetic::div_mod::lemma_div_denominator(v as int, 16384, 256);
        vstd::arithmetic::div_mod::lemma_fundamental_div_mod(v as int, 4194304);
    } else {
        reveal_with_fuel(pow256, 9);
        let n = compact_data_len(v);
        assert(s[0] == enc[0]);
        assert(enc[0] as int % 4 == 3 && enc[0] as int / 4 + 4 == n);
        assert(v < pow256(n));
        assert forall|j: int| 0 <= j < n implies (#[trigger] s[1 + j]) as int == (v as int
            / pow256(j)) % 256 by {
            assert(s[1 + j] == enc[1 + j]);
            lemma_pow256_pos(j);
            vstd::arithmetic::div_mod::lemma_div_pos_is_pos(v as int, pow256(j));
        }
        lemma_le_val_from_digits(s, 1, v as int, n);
    }
}

/// A `Weight` is two compact-encoded `u64` fields in order: `ref_time`, then
/// `proof_size`.
pub open spec fn spec_decode_weight(s: Seq<u8>, i: int) -> Option<(Weight, int)> {
    match spec_decode_compact_u64(s, i) {
        Some((rt, n1)) => match spec_decode_compact_u64(s, i + n1) {
            Some((ps, n2)) => Some((Weight { ref_time: rt, proof_size: ps }, n1 + n2)),
            None => None,
        },
        None => None,
    }
}

/// Decode a `Weight` at `pos`.
pub fn decode_weight(bytes: &Vec<u8>, pos: usize) -> (r: Option<(Weight, usize)>)
    ensures
        match r {
            Some(p) => {
                &&& spec_decode_weight(bytes@, pos as int) == Some((p.0, p.1 as int))
                &&& pos + p.1 <= bytes.len()
                &&& p.1 >= 1
            },
            None => spec_decode_weight(bytes@, pos as int) is None,
        },
{
    match decode_compact_u64(bytes, pos) {
        Some((rt, n1)) => match decode_compact_u64(bytes, pos + n1) {
            Some((ps, n2)) => Some((Weight { ref_time: rt, proof_size: ps }, n1 + n2)),
            None => None,
        },
        None => None,
    }
}

/// An optional `Weight` is a one-byte tag, `0` for absent and `1` followed by
/// the value for present; any other tag is invalid.
pub open spec fn spec_decode_option_weight(s: Seq<u8>, i: int) -> Option<(Option<Weight>, int)> {
    if i < 0 || i >= s.len() {
        None
    } else if s[i] == 0 {
        Some((None, 1))
    } else if s[i] == 1 {
        match spec_decode_weight(s, i + 1) {
            Some((w, n)) => Some((Some(w), 1 + n)),
            None => None,
        }
    } else {
        None
    }
}

/// Decode an `Option<Weight>` at `pos`.
pub fn decode_option_weight(bytes: &Vec<u8>, pos: usize) -> (r: Option<(Option<Weight>, usize)>)
    ensures
        match r {
            Some(p) => {
                &&& spec_decode_option_weight(bytes@, pos as int) == Some((p.0, p.1 as int))
                &&& pos + p.1 <= bytes.len()
                &&& p.1 >= 1
            },
            None => spec_decode_option_weight(bytes@, pos as int) is None,
        },
{
    if pos >= bytes.len() {
        return None;
    }
    let tag = bytes[pos];
    if tag == 0 {
        Some((None, 1))
    } else if tag == 1 {
        match decode_weight(bytes, pos + 1) {
            Some((w, n)) => Some((Some(w), 1 + n)),
            None => None,
        }
    } else {
        None
    }
}

/// A consumed-weight aggregate is one `Weight` per dispatch class in order:
/// `normal`, `operational`, `mandatory`.
pub open spec fn spec_decode_weight_aggregate(s: Seq<u8>, i: int) -> Option<(
    DispatchClassAggregate<Weight>,
    int,
)> {
    match spec_decode_weight(s, i) {
        Some((normal, n1)) => match spec_decode_weight(s, i + n1) {
            Some((operational, n2)) => match spec_decode_weight(s, i + n1 + n2) {
                Some((mandatory, n3)) => Some(
                    (DispatchClassAggregate { normal, operational, mandatory }, n1 + n2 + n3),
                ),
                None => None,
            },
            None => None,
        },
        None => None,
    }
}

/// Decode a consumed-weight aggregate at `pos`.
pub fn decode_weight_aggregate(bytes: &Vec<u8>, pos: usize) -> (r: Option<(
    DispatchClassAggregate<Weight>,
    usize,
)>)
    ensures
        match r {
            Some(p) => {
                &&& spec_decode_weight_aggregate(bytes@, pos as int) == Some((p.0, p.1 as int))
                &&& pos + p.1 <= bytes.len()
                &&& p.1 >= 1
            },
            None => spec_decode_weight_aggregate(bytes@, pos as int) is None,
        },
{
    match decode_weight(bytes, pos) {
        Some((normal, n1)) => match decode_weight(bytes, pos + n1) {
            Some((operational, n2)) => match decode_weight(bytes, pos + n1 + n2) {
                Some((mandatory, n3)) => Some(
                    (DispatchClassAggregate { normal, operational, mandatory }, n1 + n2 + n3),
                ),
                None => None,
            },
            None => None,
        },
        None => None,
    }
}

/// Per-class limits are four fields in order: `base_extrinsic`,
/// `max_extrinsic`, `max_total`, `reserved`.
pub open spec fn spec_decode_weights_per_class(s: Seq<u8>, i: int) -> Option<(
    WeightsPerClass,
    int,
)> {
    match spec_decode_weight(s, i) {
        Some((base_extrinsic, n1)) => match spec_decode_option_weight(s, i + n1) {
            Some((max_extrinsic, n2)) => match spec_decode_option_weight(s, i + n1 + n2) {
                Some((max_total, n3)) => match spec_decode_option_weight(s, i + n1 + n2 + n3) {
                    Some((reserved, n4)) => Some(
                        (
                            WeightsPerClass { base_extrinsic, max_extrinsic, max_total, reserved },
                            n1 + n2 + n3 + n4,
                        ),
                    ),
                    None => None,
                },
                None => None,
            },
            None => None,
        },
        None => None,
    }
}

/// Decode one class's limits at `pos`.
pub fn decode_weights_per_class(bytes: &Vec<u8>, pos: usize) -> (r: Option<(
    WeightsPerClass,
    usize,
)>)
    ensures
        match r {
            Some(p) => {
                &&& spec_decode_weights_per_class(bytes@, pos as int) == Some((p.0, p.1 as int))
                &&& pos + p.1 <= bytes.len()
                &&& p.1 >= 1
            },
            None => spec_decode_weights_per_class(bytes@, pos as int) is None,
        },
{
    match decode_weight(bytes, pos) {
        Some((base_extrinsic, n1)) => match decode_option_weight(bytes, pos + n1) {
            Some((max_extrinsic, n2)) => match decode_option_weight(bytes, pos + n1 + n2) {
                Some((max_total, n3)) => match decode_option_weight(bytes, pos + n1 + n2 + n3) {
                    Some((reserved, n4)) => Some(
                        (
                            WeightsPerClass { base_extrinsic, max_extrinsic, max_total, reserved },
                            n1 + n2 + n3 + n4,
                        ),
                    ),
                    None => None,
                },
                None => None,
            },
            None => None,
        },
        None => None,
    }
}

/// A per-dispatch-class record is its three class entries in order:
/// `normal`, `operational`, `mandatory`.
pub open spec fn spec_decode_per_class(s: Seq<u8>, i: int) -> Option<(
    DispatchClassAggregate<WeightsPerClass>,
    int,
)> {
    match spec_decode_weights_per_class(s, i) {
        Some((normal, n1)) => match spec_decode_weights_per_class(s, i + n1) {
            Some((operational, n2)) => match spec_decode_weights_per_class(s, i + n1 + n2) {
                Some((mandatory, n3)) => Some(
                    (DispatchClassAggregate { normal, operational, mandatory }, n1 + n2 + n3),
                ),
                None => None,
            },
            None => None,
        },
        None => None,
    }
}

/// Decode the per-class limits block at `pos`.
pub fn decode_per_class(bytes: &Vec<u8>, pos: usize) -> (r: Option<(
    DispatchClassAggregate<WeightsPerClass>,
    usize,
)>)
    ensures
        match r {
            Some(p) => {
                &&& spec_decode_per_class(bytes@, pos as int) == Some((p.0, p.1 as int))
                &&& pos + p.1 <= bytes.len()
                &&& p.1 >= 1
            },
            None => spec_decode_per_class(bytes@, pos as int) is None,
        },
{
    match decode_weights_per_class(bytes, pos) {
        Some((normal, n1)) => match decode_weights_per_class(bytes, pos + n1) {
            Some((operational, n2)) => match decode_weights_per_class(bytes, pos + n1 + n2) {
                Some((mandatory, n3)) => Some(
                    (DispatchClassAggregate { normal, operational, mandatory }, n1 + n2 + n3),
                ),
                None => None,
            },
            None => None,
        },
        None => None,
    }
}

/// The block-weight-limits constant is three fields in order: `base_block`,
/// `max_block`, `per_class`. Trailing bytes after the record are ignored,
/// as the chain's codec ignores them.
pub open spec fn spec_decode_weight_limits(s: Seq<u8>, i: int) -> Option<(ChainWeightLimits, int)> {
    match spec_decode_weight(s, i) {
        Some((base_block, n1)) => match spec_decode_weight(s, i + n1) {
            Some((max_block, n2)) => match spec_decode_per_class(s, i + n1 + n2) {
                Some((per_class, n3)) => Some(
                    (ChainWeightLimits { base_block, max_block, per_class }, n1 + n2 + n3),
                ),
                None => None,
            },
            None => None,
        },
        None => None,
    }
}

/// Decode the whole block-weight-limits constant at `pos`.
pub fn decode_weight_limits(bytes: &Vec<u8>, pos: usize) -> (r: Option<(ChainWeightLimits, usize)>)
    ensures
        match r {
            Some(p) => {
                &&& spec_decode_weight_limits(bytes@, pos as int) == Some((p.0, p.1 as int))
                &&& pos + p.1 <= bytes.len()
                &&& p.1 >= 1
            },
            None => spec_decode_weight_limits(bytes@, pos as int) is None,
        },
{
    match decode_weight(bytes, pos) {
        Some((base_block, n1)) => match decode_weight(bytes, pos + n1) {
            Some((max_block, n2)) => match decode_per_class(bytes, pos + n1 + n2) {
                Some((per_class, n3)) => Some(
                    (ChainWeightLimits { base_block, max_block, per_class }, n1 + n2 + n3),
                ),
                None => None,
            },
            None => None,
        },
        None => None,
    }
}

} // verus!
