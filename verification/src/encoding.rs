//! Packing and unpacking of identifiers under an [`IdStructure`].
//!
//! An identifier is `[masked_timestamp | generator_id | sequence]`, most
//! significant field first, with the widths the structure fixes. The spec
//! functions here say what each field of an identifier is, in plain
//! arithmetic; the lemmas prove that packing bounded fields is exact and
//! injective, and the executable functions compute the same values with
//! shifts and masks.

use vstd::prelude::*;
use vstd::arithmetic::power2::{
    pow2,
    lemma2_to64_rest,
    lemma_pow2_adds,
    lemma_pow2_pos,
    lemma_pow2_strictly_increases,
};
use vstd::arithmetic::mul::{
    lemma_mul_inequality,
    lemma_mul_is_associative,
    lemma_mul_is_commutative,
    lemma_mul_is_distributive_add,
    lemma_mul_is_distributive_sub,
    lemma_mul_nonnegative,
};
use vstd::arithmetic::div_mod::lemma_fundamental_div_mod_converse;
use vstd::bits::{
    lemma_u64_low_bits_mask_is_mod,
    lemma_u64_pow2_no_overflow,
    lemma_u64_shl_is_mul,
    lemma_u64_shr_is_div,
};

use crate::structure::IdStructure;

verus! {

/// The identifier that packs the masked timestamp `ts`, the generator
/// identity `gid` and the sequence `sq` under the layout `s`.
pub open spec fn spec_encode(s: IdStructure, ts: u64, gid: u64, sq: u64) -> u64 {
    (ts * pow2(s.spec_time_shift()) + gid * pow2(s.spec_gen_shift()) + sq) as u64
}

/// The timestamp field of `id`: shift right past the lower fields, keep the
/// configured width.
pub open spec fn spec_time_field(s: IdStructure, id: u64) -> int {
    ((id as int) / (pow2(s.spec_time_shift()) as int)) % (pow2(
        s.spec_timestamp_bits() as nat,
    ) as int)
}

/// The generator-identity field of `id`.
pub open spec fn spec_gen_field(s: IdStructure, id: u64) -> int {
    ((id as int) / (pow2(s.spec_gen_shift()) as int)) % (pow2(s.spec_gen_id_bits() as nat) as int)
}

/// The sequence field of `id`: its low bits.
pub open spec fn spec_seq_field(s: IdStructure, id: u64) -> int {
    (id as int) % (pow2(s.spec_sequence_bits() as nat) as int)
}

/// Under the invariant, each mask is exactly `2^width - 1` and the widths'
/// powers multiply out to `2^64`.
pub proof fn lemma_masks_exact(s: IdStructure)
    requires
        s.wf(),
    ensures
        s.spec_time_mask() == pow2(s.spec_timestamp_bits() as nat) - 1,
        s.spec_gen_id_mask() == pow2(s.spec_gen_id_bits() as nat) - 1,
        s.spec_sequence_mask() == pow2(s.spec_sequence_bits() as nat) - 1,
        pow2(s.spec_timestamp_bits() as nat) * pow2(s.spec_time_shift()) == pow2(64),
        pow2(s.spec_gen_id_bits() as nat) * pow2(s.spec_gen_shift()) == pow2(s.spec_time_shift()),
        pow2(64) == 0x1_0000_0000_0000_0000,
{
    let t = s.spec_timestamp_bits() as nat;
    let g = s.spec_gen_id_bits() as nat;
    let q = s.spec_sequence_bits() as nat;
    lemma2_to64_rest();
    lemma_pow2_pos(t);
    lemma_pow2_pos(g);
    lemma_pow2_pos(q);
    lemma_cast_exact(t);
    lemma_cast_exact(g);
    lemma_cast_exact(q);
    lemma_pow2_adds(t, (g + q) as nat);
    lemma_pow2_adds(g, q);
}

/// `2^w - 1` survives the cast to `u64` for any width up to 64.
proof fn lemma_cast_exact(w: nat)
    requires
        w <= 64,
    ensures
        (pow2(w) - 1) as u64 == pow2(w) - 1,
        pow2(w) >= 1,
{
    lemma_pow2_pos(w);
    lemma2_to64_rest();
    if w < 64 {
        lemma_pow2_strictly_increases(w, 64);
    }
}

/// Packing bounded fields is exact: the sum fits in 64 bits, and dividing
/// and masking recover each field.
pub proof fn lemma_encode_fields(s: IdStructure, ts: u64, gid: u64, sq: u64)
    requires
        s.wf(),
        ts <= s.spec_time_mask(),
        gid <= s.spec_gen_id_mask(),
        sq <= s.spec_sequence_mask(),
    ensures
        spec_encode(s, ts, gid, sq) == ts * pow2(s.spec_time_shift()) + gid * pow2(
            s.spec_gen_shift(),
        ) + sq,
        spec_time_field(s, spec_encode(s, ts, gid, sq)) == ts,
        spec_gen_field(s, spec_encode(s, ts, gid, sq)) == gid,
        spec_seq_field(s, spec_encode(s, ts, gid, sq)) == sq,
        0 <= ts * pow2(s.spec_time_shift()),
        0 <= gid * pow2(s.spec_gen_shift()),
        gid * pow2(s.spec_gen_shift()) + sq < pow2(s.spec_time_shift()),
{
    let t = s.spec_timestamp_bits() as nat;
    let g = s.spec_gen_id_bits() as nat;
    let q = s.spec_sequence_bits() as nat;
    lemma_masks_exact(s);
    let pt = pow2(t) as int;
    let pg = pow2(g) as int;
    let pq = pow2(q) as int;
    let pgq = pow2((g + q) as nat) as int;
    lemma_pow2_pos((g + q) as nat);
    let tsi = ts as int;
    let gi = gid as int;
    let si = sq as int;

    // The lower two fields together stay below the timestamp field's place value.
    let a = gi * pq + si;
    lemma_mul_nonnegative(gi, pq);
    lemma_mul_inequality(gi, pg - 1, pq);
    lemma_mul_is_commutative(gi, pq);
    lemma_mul_is_commutative(pg - 1, pq);
    lemma_mul_is_distributive_sub(pq, pg, 1);
    lemma_mul_is_commutative(pq, pg);
    assert(a < pgq);

    // The whole sum stays below 2^64.
    let e = tsi * pgq + a;
    lemma_mul_nonnegative(tsi, pgq);
    lemma_mul_inequality(tsi, pt - 1, pgq);
    lemma_mul_is_commutative(tsi, pgq);
    lemma_mul_is_commutative(pt - 1, pgq);
    lemma_mul_is_distributive_sub(pgq, pt, 1);
    lemma_mul_is_commutative(pgq, pt);
    assert(e <= pow2(64) - 1);
    assert(spec_encode(s, ts, gid, sq) == e);

    // e == (ts * 2^g + gid) * 2^q + sq, which pins the low field.
    lemma_mul_is_associative(tsi, pg, pq);
    lemma_mul_is_distributive_add(pq, tsi * pg, gi);
    lemma_mul_is_commutative(pq, tsi * pg + gi);
    lemma_mul_is_commutative(pq, tsi * pg);
    lemma_mul_is_commutative(pq, gi);
    assert(e == (tsi * pg + gi) * pq + si);
    lemma_mul_nonnegative(tsi, pg);
    lemma_fundamental_div_mod_converse(e, pq, tsi * pg + gi, si);

    // The quotient pins the generator field ...
    lemma_fundamental_div_mod_converse(tsi * pg + gi, pg, tsi, gi);

    // ... and dividing past both lower fields pins the timestamp field.
    lemma_fundamental_div_mod_converse(e, pgq, tsi, a);
    lemma_fundamental_div_mod_converse(tsi, pt, 0, tsi);
}

/// Identifiers from one generator grow strictly with the (timestamp,
/// sequence) pair: a later tick, or a later sequence number in the same
/// tick, gives a strictly larger identifier.
pub proof fn lemma_encode_increases(
    s: IdStructure,
    ts1: u64,
    sq1: u64,
    ts2: u64,
    sq2: u64,
    gid: u64,
)
    requires
        s.wf(),
        ts1 <= s.spec_time_mask(),
        ts2 <= s.spec_time_mask(),
        gid <= s.spec_gen_id_mask(),
        sq1 <= s.spec_sequence_mask(),
        sq2 <= s.spec_sequence_mask(),
        ts1 < ts2 || (ts1 == ts2 && sq1 < sq2),
    ensures
        spec_encode(s, ts1, gid, sq1) < spec_encode(s, ts2, gid, sq2),
{
    lemma_encode_fields(s, ts1, gid, sq1);
    lemma_encode_fields(s, ts2, gid, sq2);
    let pgq = pow2(s.spec_time_shift()) as int;
    if ts1 < ts2 {
        let d = ts2 - ts1;
        lemma_mul_inequality(1, d, pgq);
        lemma_mul_is_distributive_sub(pgq, ts2 as int, ts1 as int);
        lemma_mul_is_commutative(pgq, ts2 as int);
        lemma_mul_is_commutative(pgq, ts1 as int);
        lemma_mul_is_commutative(d, pgq);
    }
}

/// `x * 2^k` as a 64-bit word, total over every shift the layouts allow.
pub fn shift_left_64(x: u64, k: u64) -> (r: u64)
    requires
        k <= 64,
        (x as int) * (pow2(k as nat) as int) < pow2(64),
    ensures
        r == (x as int) * (pow2(k as nat) as int),
{
    proof {
        lemma2_to64_rest();
    }
    if k == 64 {
        proof {
            assert(x == 0) by {
                if x >= 1 {
                    lemma_mul_inequality(1, x as int, pow2(64) as int);
                }
            }
        }
        0
    } else {
        proof {
            lemma_u64_pow2_no_overflow(k as nat);
            lemma_u64_shl_is_mul(x, k);
        }
        x << k
    }
}

/// `x / 2^k` as a 64-bit word, total over every shift the layouts allow.
pub fn shift_right_64(x: u64, k: u64) -> (r: u64)
    requires
        k <= 64,
    ensures
        r == (x as int) / (pow2(k as nat) as int),
{
    if k == 64 {
        proof {
            lemma2_to64_rest();
            lemma_fundamental_div_mod_converse(x as int, pow2(64) as int, 0, x as int);
        }
        0
    } else {
        proof {
            lemma_u64_shr_is_div(x, k);
        }
        x >> k
    }
}

/// Masking with the low `w` bits is reduction modulo `2^w`, total over every
/// width the layouts allow.
proof fn lemma_mask_is_mod(x: u64, w: nat)
    requires
        w <= 64,
    ensures
        (x & ((pow2(w) - 1) as u64)) == (x as int) % (pow2(w) as int),
{
    lemma_cast_exact(w);
    if w < 64 {
        lemma_u64_low_bits_mask_is_mod(x, w);
        lemma_u64_pow2_no_overflow(w);
        assert(vstd::bits::low_bits_mask(w) as u64 == (pow2(w) - 1) as u64);
        assert(x % ((pow2(w) as u64)) == (x as int) % (pow2(w) as int));
    } else {
        lemma2_to64_rest();
        assert(x & 0xffff_ffff_ffff_ffffu64 == x) by (bit_vector);
        lemma_fundamental_div_mod_converse(x as int, pow2(64) as int, 0, x as int);
    }
}

/// Packs bounded fields into an identifier, by shifts and addition as the
/// layout documents.
pub fn encode_id(s: &IdStructure, ts: u64, gid: u64, sq: u64) -> (r: u64)
    requires
        s.wf(),
        ts <= s.spec_time_mask(),
        gid <= s.spec_gen_id_mask(),
        sq <= s.spec_sequence_mask(),
    ensures
        r == spec_encode(*s, ts, gid, sq),
{
    proof {
        lemma_encode_fields(*s, ts, gid, sq);
        lemma_masks_exact(*s);
    }
    let time_shift = s.get_time_shift();
    let gen_shift = s.get_gen_shift();
    let high = shift_left_64(ts, time_shift);
    let mid = shift_left_64(gid, gen_shift);
    high + mid + sq
}

/// The timestamp field of `id`, by the documented shift and mask.
pub fn decode_time_field(s: &IdStructure, id: u64) -> (r: u64)
    requires
        s.wf(),
    ensures
        r == spec_time_field(*s, id),
{
    let shifted = shift_right_64(id, s.get_time_shift());
    proof {
        lemma_masks_exact(*s);
        lemma_mask_is_mod(shifted, s.spec_timestamp_bits() as nat);
    }
    shifted & s.get_time_mask()
}

/// The generator-identity field of `id`, by the documented shift and mask.
pub fn decode_gen_field(s: &IdStructure, id: u64) -> (r: u64)
    requires
        s.wf(),
    ensures
        r == spec_gen_field(*s, id),
{
    let shifted = shift_right_64(id, s.get_gen_shift());
    proof {
        lemma_masks_exact(*s);
        lemma_mask_is_mod(shifted, s.spec_gen_id_bits() as nat);
    }
    shifted & s.get_gen_id_mask()
}

/// The sequence field of `id`, by the documented mask.
pub fn decode_seq_field(s: &IdStructure, id: u64) -> (r: u64)
    requires
        s.wf(),
    ensures
        r == spec_seq_field(*s, id),
{
    proof {
        lemma_masks_exact(*s);
        lemma_mask_is_mod(id, s.spec_sequence_bits() as nat);
    }
    id & s.get_sequence_mask()
}

} // verus!
