//! The MARS block cipher: a 32-bit-word block cipher over 128-bit blocks
//! (four words), with 4- to 14-word keys expanded once at construction
//! into a 40-word schedule.
//!
//! Encryption adds the first four schedule words, runs 8 rounds of
//! forward mixing, 16 rounds of the keyed cryptographic core and 8 rounds
//! of backward mixing, and subtracts the last four schedule words.
//! Decryption is the exact algebraic inverse. Every add, subtract,
//! multiply and rotate is the 32-bit wrapping variant.
//!
//! The spec model gives one function per round kind and its inverse;
//! `mars_encrypt_block` and `mars_decrypt_block` compose them, and
//! `lemma_mars_round_trip` proves that decryption undoes encryption for
//! every schedule and every block.

use vstd::prelude::*;

use crate::sbox::{s, s0, s1, s_spec, s0_spec, s1_spec};
use crate::wordops::{
    w_add, w_sub, w_mul, rotl, rotl32, lemma_add_sub, lemma_sub_add, lemma_xor_cancel,
    lemma_rotl_cancel,
};

verus! {

/// One forward-mixing round: S-box substitutions folded into b, c and d,
/// a rotated left by 8, conditional additions at rounds 1/5 and 0/4, and
/// the cyclic word shift.
pub open spec fn fwd_mix_round(i: int, st: (u32, u32, u32, u32)) -> (u32, u32, u32, u32) {
    let (a, b, c, d) = st;
    let b1 = w_add(b ^ s0_spec(a), s1_spec(rotl(a, 24)));
    let c1 = w_add(c, s0_spec(rotl(a, 16)));
    let d1 = d ^ s1_spec(rotl(a, 8));
    let a1 = rotl(a, 8);
    let a2 = if i == 1 || i == 5 {
        w_add(a1, b1)
    } else {
        a1
    };
    let a3 = if i == 0 || i == 4 {
        w_add(a2, d1)
    } else {
        a2
    };
    (b1, c1, d1, a3)
}

/// Forward-mixing rounds 0 to `n - 1`, applied in ascending order.
pub open spec fn fwd_mix(n: int, st: (u32, u32, u32, u32)) -> (u32, u32, u32, u32)
    decreases n,
{
    if n <= 0 {
        st
    } else {
        fwd_mix_round(n - 1, fwd_mix(n - 1, st))
    }
}

/// The inverse of one forward-mixing round, as decryption runs it.
pub open spec fn inv_fwd_mix_round(i: int, st: (u32, u32, u32, u32)) -> (u32, u32, u32, u32) {
    let (a0, b0, c0, d0) = st;
    let a = d0;
    let b = a0;
    let c = b0;
    let d = c0;
    let a1 = if i == 0 || i == 4 {
        w_sub(a, d)
    } else {
        a
    };
    let a2 = if i == 1 || i == 5 {
        w_sub(a1, b)
    } else {
        a1
    };
    let a3 = rotl(a2, 24);
    let d1 = d ^ s1_spec(rotl(a3, 8));
    let c1 = w_sub(c, s0_spec(rotl(a3, 16)));
    let b1 = w_sub(b, s1_spec(rotl(a3, 24))) ^ s0_spec(a3);
    (a3, b1, c1, d1)
}

/// Inverse forward-mixing rounds `n - 1` down to 0, in descending order.
pub open spec fn inv_fwd_mix(n: int, st: (u32, u32, u32, u32)) -> (u32, u32, u32, u32)
    decreases n,
{
    if n <= 0 {
        st
    } else {
        inv_fwd_mix(n - 1, inv_fwd_mix_round(n - 1, st))
    }
}

/// One round of the keyed cryptographic core: `r`, `m` and `l` are
/// derived from `a` and two schedule words, and folded into b, c and d
/// with an 8/16 split deciding add versus XOR.
pub open spec fn core_round(k: Seq<u32>, i: int, st: (u32, u32, u32, u32)) -> (u32, u32, u32, u32)
    recommends
        0 <= i < 16,
        k.len() == 40,
{
    let (a, b, c, d) = st;
    let r = rotl(w_mul(rotl(a, 13), k[2 * i + 5]), 10);
    let m = rotl(w_add(a, k[2 * i + 4]), (rotl(r, 27) % 32) as u32);
    let l = rotl(s_spec(m) ^ rotl(r, 27) ^ r, (r % 32) as u32);
    let b1 = if i < 8 {
        w_add(b, l)
    } else {
        b ^ r
    };
    let c1 = w_add(c, m);
    let d1 = if i < 8 {
        d ^ r
    } else {
        w_add(d, l)
    };
    (b1, c1, d1, rotl(a, 13))
}

/// Core rounds 0 to `n - 1`, applied in ascending order.
pub open spec fn core_rounds(k: Seq<u32>, n: int, st: (u32, u32, u32, u32)) -> (u32, u32, u32, u32)
    decreases n,
{
    if n <= 0 {
        st
    } else {
        core_round(k, n - 1, core_rounds(k, n - 1, st))
    }
}

/// The inverse of one core round, as decryption runs it: `a` is
/// recovered first, `r`, `m` and `l` are recomputed from it, and the
/// additions and XORs are undone.
pub open spec fn inv_core_round(k: Seq<u32>, i: int, st: (u32, u32, u32, u32)) -> (u32, u32, u32, u32)
    recommends
        0 <= i < 16,
        k.len() == 40,
{
    let (a0, b0, c0, d0) = st;
    let a = rotl(d0, 19);
    let b = a0;
    let c = b0;
    let d = c0;
    let r = rotl(w_mul(rotl(a, 13), k[2 * i + 5]), 10);
    let m = rotl(w_add(a, k[2 * i + 4]), (rotl(r, 27) % 32) as u32);
    let l = rotl(s_spec(m) ^ rotl(r, 27) ^ r, (r % 32) as u32);
    let b1 = if i < 8 {
        w_sub(b, l)
    } else {
        b ^ r
    };
    let c1 = w_sub(c, m);
    let d1 = if i < 8 {
        d ^ r
    } else {
        w_sub(d, l)
    };
    (a, b1, c1, d1)
}

/// Inverse core rounds `n - 1` down to 0, in descending order.
pub open spec fn inv_core(k: Seq<u32>, n: int, st: (u32, u32, u32, u32)) -> (u32, u32, u32, u32)
    decreases n,
{
    if n <= 0 {
        st
    } else {
        inv_core(k, n - 1, inv_core_round(k, n - 1, st))
    }
}

/// One backward-mixing round: the mirror of forward mixing with
/// subtraction.
pub open spec fn back_mix_round(i: int, st: (u32, u32, u32, u32)) -> (u32, u32, u32, u32) {
    let (a, b, c, d) = st;
    let a1 = if i == 3 || i == 7 {
        w_sub(a, b)
    } else {
        a
    };
    let a2 = if i == 2 || i == 6 {
        w_sub(a1, d)
    } else {
        a1
    };
    let b1 = b ^ s1_spec(a2);
    let c1 = w_sub(c, s0_spec(rotl(a2, 8)));
    let d1 = w_sub(d, s1_spec(rotl(a2, 16))) ^ s0_spec(rotl(a2, 24));
    (b1, c1, d1, rotl(a2, 24))
}

/// Backward-mixing rounds 0 to `n - 1`, applied in ascending order.
pub open spec fn back_mix(n: int, st: (u32, u32, u32, u32)) -> (u32, u32, u32, u32)
    decreases n,
{
    if n <= 0 {
        st
    } else {
        back_mix_round(n - 1, back_mix(n - 1, st))
    }
}

/// The inverse of one backward-mixing round, as decryption runs it.
pub open spec fn inv_back_mix_round(i: int, st: (u32, u32, u32, u32)) -> (u32, u32, u32, u32) {
    let (a0, b0, c0, d0) = st;
    let a = rotl(d0, 8);
    let b = a0;
    let c = b0;
    let d = c0;
    let d1 = w_add(d ^ s0_spec(rotl(a, 24)), s1_spec(rotl(a, 16)));
    let c1 = w_add(c, s0_spec(rotl(a, 8)));
    let b1 = b ^ s1_spec(a);
    let a1 = if i == 2 || i == 6 {
        w_add(a, d1)
    } else {
        a
    };
    let a2 = if i == 3 || i == 7 {
        w_add(a1, b1)
    } else {
        a1
    };
    (a2, b1, c1, d1)
}

/// Inverse backward-mixing rounds `n - 1` down to 0, in descending order.
pub open spec fn inv_back_mix(n: int, st: (u32, u32, u32, u32)) -> (u32, u32, u32, u32)
    decreases n,
{
    if n <= 0 {
        st
    } else {
        inv_back_mix(n - 1, inv_back_mix_round(n - 1, st))
    }
}

/// What `encrypt` returns: add schedule words 0-3, run the three round
/// phases, subtract schedule words 36-39.
pub open spec fn mars_encrypt_block(k: Seq<u32>, st: (u32, u32, u32, u32)) -> (u32, u32, u32, u32)
    recommends
        k.len() == 40,
{
    let (a, b, c, d) = st;
    let st0 = (w_add(a, k[0]), w_add(b, k[1]), w_add(c, k[2]), w_add(d, k[3]));
    let st3 = back_mix(8, core_rounds(k, 16, fwd_mix(8, st0)));
    let (x, y, z, u) = st3;
    (w_sub(x, k[36]), w_sub(y, k[37]), w_sub(z, k[38]), w_sub(u, k[39]))
}

/// What `decrypt` returns: the three phases run in reverse with
/// additions and subtractions swapped.
pub open spec fn mars_decrypt_block(k: Seq<u32>, st: (u32, u32, u32, u32)) -> (u32, u32, u32, u32)
    recommends
        k.len() == 40,
{
    let (a, b, c, d) = st;
    let st0 = (w_add(a, k[36]), w_add(b, k[37]), w_add(c, k[38]), w_add(d, k[39]));
    let st3 = inv_fwd_mix(8, inv_core(k, 16, inv_back_mix(8, st0)));
    let (x, y, z, u) = st3;
    (w_sub(x, k[0]), w_sub(y, k[1]), w_sub(z, k[2]), w_sub(u, k[3]))
}

/// One inverse forward-mixing round undoes the matching forward-mixing
/// round.
proof fn lemma_fwd_mix_round_inverse(i: int, st: (u32, u32, u32, u32))
    ensures
        inv_fwd_mix_round(i, fwd_mix_round(i, st)) == st,
{
    let (a, b, c, d) = st;
    let b1 = w_add(b ^ s0_spec(a), s1_spec(rotl(a, 24)));
    let c1 = w_add(c, s0_spec(rotl(a, 16)));
    let d1 = d ^ s1_spec(rotl(a, 8));
    let a1 = rotl(a, 8);
    let a2 = if i == 1 || i == 5 {
        w_add(a1, b1)
    } else {
        a1
    };
    let a3 = if i == 0 || i == 4 {
        w_add(a2, d1)
    } else {
        a2
    };
    lemma_add_sub(a2, d1);
    lemma_add_sub(a1, b1);
    lemma_rotl_cancel(a, 8, 24);
    lemma_xor_cancel(d, s1_spec(rotl(a, 8)));
    lemma_add_sub(c, s0_spec(rotl(a, 16)));
    lemma_add_sub(b ^ s0_spec(a), s1_spec(rotl(a, 24)));
    lemma_xor_cancel(b, s0_spec(a));
}

/// One inverse core round undoes the matching core round.
proof fn lemma_core_round_inverse(k: Seq<u32>, i: int, st: (u32, u32, u32, u32))
    ensures
        inv_core_round(k, i, core_round(k, i, st)) == st,
{
    let (a, b, c, d) = st;
    lemma_rotl_cancel(a, 13, 19);
    let r = rotl(w_mul(rotl(a, 13), k[2 * i + 5]), 10);
    let m = rotl(w_add(a, k[2 * i + 4]), (rotl(r, 27) % 32) as u32);
    let l = rotl(s_spec(m) ^ rotl(r, 27) ^ r, (r % 32) as u32);
    if i < 8 {
        lemma_add_sub(b, l);
        lemma_xor_cancel(d, r);
    } else {
        lemma_xor_cancel(b, r);
        lemma_add_sub(d, l);
    }
    lemma_add_sub(c, m);
}

/// One inverse backward-mixing round undoes the matching backward-mixing
/// round.
proof fn lemma_back_mix_round_inverse(i: int, st: (u32, u32, u32, u32))
    ensures
        inv_back_mix_round(i, back_mix_round(i, st)) == st,
{
    let (a, b, c, d) = st;
    let a1 = if i == 3 || i == 7 {
        w_sub(a, b)
    } else {
        a
    };
    let a2 = if i == 2 || i == 6 {
        w_sub(a1, d)
    } else {
        a1
    };
    lemma_rotl_cancel(a2, 24, 8);
    lemma_sub_add(d, s1_spec(rotl(a2, 16)));
    lemma_xor_cancel(w_sub(d, s1_spec(rotl(a2, 16))), s0_spec(rotl(a2, 24)));
    lemma_sub_add(c, s0_spec(rotl(a2, 8)));
    lemma_xor_cancel(b, s1_spec(a2));
    lemma_sub_add(a1, d);
    lemma_sub_add(a, b);
}

/// The inverse forward-mixing phase undoes the forward-mixing phase.
proof fn lemma_fwd_mix_phase_inverse(n: int, st: (u32, u32, u32, u32))
    requires
        0 <= n,
    ensures
        inv_fwd_mix(n, fwd_mix(n, st)) == st,
    decreases n,
{
    if n > 0 {
        lemma_fwd_mix_phase_inverse(n - 1, st);
        lemma_fwd_mix_round_inverse(n - 1, fwd_mix(n - 1, st));
    }
}

/// The inverse core phase undoes the core phase.
proof fn lemma_core_phase_inverse(k: Seq<u32>, n: int, st: (u32, u32, u32, u32))
    requires
        0 <= n,
    ensures
        inv_core(k, n, core_rounds(k, n, st)) == st,
    decreases n,
{
    if n > 0 {
        lemma_core_phase_inverse(k, n - 1, st);
        lemma_core_round_inverse(k, n - 1, core_rounds(k, n - 1, st));
    }
}

/// The inverse backward-mixing phase undoes the backward-mixing phase.
proof fn lemma_back_mix_phase_inverse(n: int, st: (u32, u32, u32, u32))
    requires
        0 <= n,
    ensures
        inv_back_mix(n, back_mix(n, st)) == st,
    decreases n,
{
    if n > 0 {
        lemma_back_mix_phase_inverse(n - 1, st);
        lemma_back_mix_round_inverse(n - 1, back_mix(n - 1, st));
    }
}

/// Round trip: for every 40-word schedule and every block,
/// `mars_decrypt_block(k, mars_encrypt_block(k, st)) == st`. Since
/// `encrypt` and `decrypt` compute exactly these models, decrypting an
/// encrypted block with the same cipher restores the block.
pub proof fn lemma_mars_round_trip(k: Seq<u32>, st: (u32, u32, u32, u32))
    ensures
        mars_decrypt_block(k, mars_encrypt_block(k, st)) == st,
{
    let (a, b, c, d) = st;
    let st0 = (w_add(a, k[0]), w_add(b, k[1]), w_add(c, k[2]), w_add(d, k[3]));
    let st1 = fwd_mix(8, st0);
    let st2 = core_rounds(k, 16, st1);
    let st3 = back_mix(8, st2);
    lemma_sub_add(st3.0, k[36]);
    lemma_sub_add(st3.1, k[37]);
    lemma_sub_add(st3.2, k[38]);
    lemma_sub_add(st3.3, k[39]);
    lemma_back_mix_phase_inverse(8, st2);
    lemma_core_phase_inverse(k, 16, st1);
    lemma_fwd_mix_phase_inverse(8, st0);
    lemma_add_sub(a, k[0]);
    lemma_add_sub(b, k[1]);
    lemma_add_sub(c, k[2]);
    lemma_add_sub(d, k[3]);
}

/// Bit `i` of a word, as 0 or 1.
pub open spec fn w_bit(w: u32, i: int) -> u32
    recommends
        0 <= i < 32,
{
    (w >> i) % 2
}

/// How many bits directly below bit `i` equal bit `i`, consecutively.
pub open spec fn run_below(w: u32, i: int) -> int
    recommends
        0 <= i < 32,
    decreases i,
{
    if i <= 0 {
        0
    } else if w_bit(w, i - 1) == w_bit(w, i) {
        1 + run_below(w, i - 1)
    } else {
        0
    }
}

/// How many bits directly above bit `i` equal bit `i`, consecutively.
pub open spec fn run_above(w: u32, i: int) -> int
    recommends
        0 <= i < 32,
    decreases 31 - i,
{
    if i >= 31 {
        0
    } else if w_bit(w, i + 1) == w_bit(w, i) {
        1 + run_above(w, i + 1)
    } else {
        0
    }
}

/// Whether mask bit `n` is set: `n` lies in 2..=30, its two neighbours
/// equal it, and it belongs to a run of at least 10 consecutive equal
/// bits.
pub open spec fn mask_bit(w: u32, n: int) -> bool {
    &&& 2 <= n <= 30
    &&& w_bit(w, n - 1) == w_bit(w, n)
    &&& w_bit(w, n + 1) == w_bit(w, n)
    &&& 1 + run_below(w, n) + run_above(w, n) >= 10
}

/// The mask restricted to bits below `n`.
pub open spec fn mask_acc(w: u32, n: int) -> u32
    decreases n,
{
    if n <= 0 {
        0
    } else if mask_bit(w, n - 1) {
        mask_acc(w, n - 1) | (1u32 << ((n - 1) as u32))
    } else {
        mask_acc(w, n - 1)
    }
}

/// What `compute_key_mask` returns: the word whose bit `n` is set
/// exactly when `mask_bit(w, n)` holds.
pub open spec fn key_mask(w: u32) -> u32 {
    mask_acc(w, 32)
}

/// The 15-word working buffer the key expansion starts from: the key
/// words, then the key length, then zeros.
pub open spec fn initial_buffer(key: Seq<u32>) -> Seq<u32>
    recommends
        key.len() <= 14,
{
    Seq::new(
        15,
        |i: int|
            if i < key.len() {
                key[i]
            } else if i == key.len() {
                key.len() as u32
            } else {
                0u32
            },
    )
}

/// One step of the linear diffusion pass over the working buffer.
pub open spec fn linear_step(j: int, i: int, t: Seq<u32>) -> Seq<u32>
    recommends
        t.len() == 15,
        0 <= i < 15,
{
    t.update(i, t[i] ^ rotl(t[(i + 8) % 15] ^ t[(i + 13) % 15], 3) ^ ((4 * i + j) as u32))
}

/// The linear diffusion pass from position `i` to the end of the buffer.
pub open spec fn linear_pass(j: int, i: int, t: Seq<u32>) -> Seq<u32>
    recommends
        t.len() == 15,
        0 <= i <= 15,
    decreases 15 - i,
{
    if i < 0 || i >= 15 {
        t
    } else {
        linear_pass(j, i + 1, linear_step(j, i, t))
    }
}

/// One step of the S-box stirring pass over the working buffer.
pub open spec fn stir_step(i: int, t: Seq<u32>) -> Seq<u32>
    recommends
        t.len() == 15,
        0 <= i < 15,
{
    t.update(i, rotl(w_add(t[i], s_spec(t[(i + 14) % 15])), 9))
}

/// The S-box stirring pass from position `i` to the end of the buffer.
pub open spec fn stir_pass(i: int, t: Seq<u32>) -> Seq<u32>
    recommends
        t.len() == 15,
        0 <= i <= 15,
    decreases 15 - i,
{
    if i < 0 || i >= 15 {
        t
    } else {
        stir_pass(i + 1, stir_step(i, t))
    }
}

/// `n` whole stirring passes over the working buffer.
pub open spec fn stir_rounds(n: int, t: Seq<u32>) -> Seq<u32>
    recommends
        t.len() == 15,
    decreases n,
{
    if n <= 0 {
        t
    } else {
        stir_pass(0, stir_rounds(n - 1, t))
    }
}

/// Extraction of ten buffer words (every 4th position modulo 15) into
/// schedule slots `10j + i` onward.
pub open spec fn extract(j: int, i: int, t: Seq<u32>, k: Seq<u32>) -> Seq<u32>
    recommends
        t.len() == 15,
        k.len() == 40,
        0 <= j < 4,
        0 <= i <= 10,
    decreases 10 - i,
{
    if i < 0 || i >= 10 {
        k
    } else {
        extract(j, i + 1, t, k.update(10 * j + i, t[(4 * i) % 15]))
    }
}

/// The first `n` rounds of key expansion: each round runs the linear
/// pass, four stirring passes, and the extraction of ten schedule words.
pub open spec fn schedule_rounds(n: int, t: Seq<u32>, k: Seq<u32>) -> (Seq<u32>, Seq<u32>)
    recommends
        t.len() == 15,
        k.len() == 40,
    decreases n,
{
    if n <= 0 {
        (t, k)
    } else {
        let (t1, k1) = schedule_rounds(n - 1, t, k);
        let t2 = linear_pass(n - 1, 0, t1);
        let t3 = stir_rounds(4, t2);
        (t3, extract(n - 1, 0, t3, k1))
    }
}

/// The fixed 4-entry constant table used when modifying the
/// multiplication key-words.
pub open spec fn mult_const(j: int) -> u32
    recommends
        0 <= j < 4,
{
    if j == 0 {
        0xa4a8d57b
    } else if j == 1 {
        0x5b5d193b
    } else if j == 2 {
        0xc8a8309b
    } else {
        0x73f9a978
    }
}

/// One modification of a multiplication key-word: force the two low bits
/// to 1, and XOR in a rotated table constant under the computed mask.
pub open spec fn fix_step(i: int, k: Seq<u32>) -> Seq<u32>
    recommends
        k.len() == 40,
        2 <= i < 18,
{
    let ii = 2 * i + 1;
    let w = k[ii] | 3;
    let m = key_mask(w);
    let r = k[ii - 1] % 32;
    let p = rotl(mult_const((k[ii] % 4) as int), r);
    k.update(ii, w ^ (p & m))
}

/// The modification pass over the multiplication key-words at odd
/// schedule positions 5 to 35, from index `i` on.
pub open spec fn fix_pass(i: int, k: Seq<u32>) -> Seq<u32>
    recommends
        k.len() == 40,
        2 <= i <= 18,
    decreases 18 - i,
{
    if i < 2 || i >= 18 {
        k
    } else {
        fix_pass(i + 1, fix_step(i, k))
    }
}

/// What key expansion produces: four rounds over the initial buffer,
/// then the multiplication key-word modification.
pub open spec fn mars_key_schedule(key: Seq<u32>) -> Seq<u32>
    recommends
        4 <= key.len() <= 14,
{
    let rounds = schedule_rounds(4, initial_buffer(key), Seq::new(40, |i: int| 0u32));
    fix_pass(2, rounds.1)
}

/// The error returned when a MARS key has an invalid length.
#[derive(Clone, Copy, Debug, PartialEq, Eq, Structural)]
pub struct ConstructionError;

/// A MARS block cipher holding its 40-word expanded key schedule.
pub struct Mars {
    key: [u32; 40],
}

impl View for Mars {
    type V = Seq<u32>;

    /// A cipher is viewed as its 40-word schedule.
    closed spec fn view(&self) -> Seq<u32> {
        self.key@
    }
}

/// The entry of the fixed 4-entry constant table at index `j`.
fn mult_key_word_constant(j: u32) -> (r: u32)
    requires
        j < 4,
    ensures
        r == mult_const(j as int),
{
    if j == 0 {
        0xa4a8d57b
    } else if j == 1 {
        0x5b5d193b
    } else if j == 2 {
        0xc8a8309b
    } else {
        0x73f9a978
    }
}

/// A run length is never negative.
proof fn lemma_run_below_nonneg(w: u32, i: int)
    ensures
        run_below(w, i) >= 0,
    decreases i,
{
    if i > 0 && w_bit(w, i - 1) == w_bit(w, i) {
        lemma_run_below_nonneg(w, i - 1);
    }
}

/// A run length is never negative.
proof fn lemma_run_above_nonneg(w: u32, i: int)
    ensures
        run_above(w, i) >= 0,
    decreases 31 - i,
{
    if i < 31 && w_bit(w, i + 1) == w_bit(w, i) {
        lemma_run_above_nonneg(w, i + 1);
    }
}

/// Whether mask bit `i` is set: scan outward from the candidate center
/// bit until the run of equal bits breaks or length 10 is reached.
fn mask_bit_at(w: u32, i: usize) -> (b: bool)
    requires
        i < 32,
    ensures
        b == mask_bit(w, i as int),
{
    if i < 2 || i > 30 {
        return false;
    }

    let cur: u32 = (w >> i) % 2;
    let prev: u32 = (w >> (i - 1)) % 2;
    let next: u32 = (w >> (i + 1)) % 2;

    if cur != prev || cur != next {
        return false;
    }

    // Scan downward while the run continues, up to run length 10.
    let mut j: usize = i;
    while j > 0 && i - j < 10 && (w >> (j - 1)) % 2 == cur
        invariant
            j <= i,
            i <= 30,
            cur == w_bit(w, i as int),
            w_bit(w, j as int) == cur,
            run_below(w, i as int) == (i - j) + run_below(w, j as int),
        decreases j,
    {
        j -= 1;
    }
    let below: usize = i - j;
    proof {
        if j > 0 && below < 10 {
            assert(run_below(w, j as int) == 0);
        }
    }

    // Scan upward while the run continues, until total length 10.
    let mut j2: usize = i;
    while j2 < 31 && 1 + below + (j2 - i) < 10 && (w >> (j2 + 1)) % 2 == cur
        invariant
            i <= j2 <= 31,
            i <= 30,
            below <= 30,
            cur == w_bit(w, i as int),
            w_bit(w, j2 as int) == cur,
            run_above(w, i as int) == (j2 - i) + run_above(w, j2 as int),
        decreases 31 - j2,
    {
        j2 += 1;
    }
    let above: usize = j2 - i;
    proof {
        if j2 < 31 && 1 + below + above < 10 {
            assert(run_above(w, j2 as int) == 0);
        }
        lemma_run_below_nonneg(w, j as int);
        lemma_run_above_nonneg(w, j2 as int);
        // The scans are capped at total run length 10; beyond the cap the
        // full runs can only be longer, so the comparison agrees with the
        // run lengths themselves.
        if 1 + below + above < 10 {
            assert(run_below(w, i as int) == below);
            assert(run_above(w, i as int) == above);
        }
    }

    1 + below + above >= 10
}

impl Mars {
    /// new creates a mars cipher with the given key.
    /// The key needs to contain between 4 and 14 words; any other length
    /// is rejected.
    pub fn new(key: &[u32]) -> (res: Result<Mars, ConstructionError>)
        ensures
            res is Ok <==> 4 <= key@.len() <= 14,
            res is Ok ==> res->Ok_0@ == mars_key_schedule(key@),
    {
        if key.len() < 4 || key.len() > 14 {
            return Err(ConstructionError);
        }

        let mut instance = Mars { key: [0u32; 40] };
        proof {
            assert(instance.key@ =~= Seq::new(40, |i: int| 0u32));
        }

        instance.expand_key(key);

        Ok(instance)
    }

    /// Apply the key expansion algorithm, filling the zeroed schedule.
    fn expand_key(&mut self, key: &[u32])
        requires
            4 <= key@.len() <= 14,
            old(self).key@ == Seq::new(40, |i: int| 0u32),
        ensures
            final(self).key@ == mars_key_schedule(key@),
    {
        let ghost t0 = initial_buffer(key@);
        let ghost k0 = Seq::new(40, |i: int| 0u32);

        let mut t: [u32; 15] = [0u32; 15];
        for i in 0..key.len()
            invariant
                key@.len() <= 14,
                self.key@ == k0,
                k0 == Seq::new(40, |q: int| 0u32),
                forall|q: int| 0 <= q < i ==> t@[q] == key@[q],
                forall|q: int| i <= q < 15 ==> t@[q] == 0u32,
        {
            t[i] = key[i];
        }

        t[key.len()] = key.len() as u32;
        proof {
            assert(t@ =~= t0);
        }

        for j in 0..4usize
            invariant
                t0 == initial_buffer(key@),
                k0 == Seq::new(40, |q: int| 0u32),
                (t@, self.key@) == schedule_rounds(j as int, t0, k0),
        {
            // Linear Key-Word Expansion.
            let ghost t_in = t@;
            for i in 0..15usize
                invariant
                    j < 4,
                    linear_pass(j as int, i as int, t@) == linear_pass(j as int, 0, t_in),
            {
                let c1: u32 = rotl32(t[(i + 8) % 15] ^ t[(i + 13) % 15], 3);
                let c2: u32 = (4 * i + j) as u32;
                t[i] = t[i] ^ c1 ^ c2;
            }

            // S-box Based Stirring of Key-Words.
            let ghost t_lin = t@;
            for p in 0..4usize
                invariant
                    t@ == stir_rounds(p as int, t_lin),
            {
                let ghost t_p = t@;
                for i in 0..15usize
                    invariant
                        stir_pass(i as int, t@) == stir_pass(0, t_p),
                {
                    t[i] = rotl32(t[i].wrapping_add(s(t[(i + 14) % 15])), 9);
                }
            }

            // Store Next 10 Key-Words into K[].
            let ghost t_st = t@;
            let ghost k_mid = self.key@;
            for i in 0..10usize
                invariant
                    j < 4,
                    t@ == t_st,
                    extract(j as int, i as int, t@, self.key@) == extract(
                        j as int,
                        0,
                        t_st,
                        k_mid,
                    ),
            {
                self.key[10 * j + i] = t[(4 * i) % 15];
            }
        }

        // Modifying Multiplication Key-Words.
        let ghost k_sched = self.key@;
        for i in 2..18usize
            invariant
                fix_pass(i as int, self.key@) == fix_pass(2, k_sched),
        {
            let ii: usize = 2 * i + 1;
            let sel: u32 = self.key[ii] % 4;
            let w: u32 = self.key[ii] | 3;
            let m: u32 = Mars::compute_key_mask(w);
            let r: u32 = self.key[ii - 1] % 32;
            let p: u32 = rotl32(mult_key_word_constant(sel), r);
            self.key[ii] = w ^ (p & m);
        }
    }

    /// Compute the word mask used in the key expansion algorithm: bit
    /// `n` is set exactly when bit `n` of `w` lies in 2..=30, equals
    /// both its neighbours, and belongs to a run of at least 10
    /// consecutive equal bits.
    pub fn compute_key_mask(w: u32) -> (m: u32)
        ensures
            m == key_mask(w),
    {
        let mut res: u32 = 0;
        for i in 0..32usize
            invariant
                res == mask_acc(w, i as int),
        {
            if mask_bit_at(w, i) {
                res = res | (1u32 << i);
            }
        }
        res
    }

    /// Schedule word `i`, for inspection.
    pub fn schedule_word(&self, i: usize) -> (w: u32)
        requires
            i < 40,
        ensures
            w == self@[i as int],
    {
        self.key[i]
    }

    /// encrypt a block of data.
    pub fn encrypt(&self, a: u32, b: u32, c: u32, d: u32) -> (res: (u32, u32, u32, u32))
        ensures
            res == mars_encrypt_block(self@, (a, b, c, d)),
    {
        let ghost k = self@;

        // Forward Mixing.
        let mut a = a.wrapping_add(self.key[0]);
        let mut b = b.wrapping_add(self.key[1]);
        let mut c = c.wrapping_add(self.key[2]);
        let mut d = d.wrapping_add(self.key[3]);
        let ghost st0 = (a, b, c, d);

        for i in 0..8usize
            invariant
                (a, b, c, d) == fwd_mix(i as int, st0),
        {
            b = (b ^ s0(a)).wrapping_add(s1(rotl32(a, 24)));
            c = c.wrapping_add(s0(rotl32(a, 16)));
            d = d ^ s1(rotl32(a, 8));
            a = rotl32(a, 8);

            if i == 1 || i == 5 {
                a = a.wrapping_add(b);
            }

            if i == 0 || i == 4 {
                a = a.wrapping_add(d);
            }

            let aa: u32 = a;
            a = b;
            b = c;
            c = d;
            d = aa;
        }

        // Cryptographic core.
        let ghost st1 = (a, b, c, d);
        for i in 0..16usize
            invariant
                k == self@,
                (a, b, c, d) == core_rounds(k, i as int, st1),
        {
            let r: u32 = rotl32(rotl32(a, 13).wrapping_mul(self.key[2 * i + 5]), 10);
            let m: u32 = rotl32(a.wrapping_add(self.key[2 * i + 4]), rotl32(r, 27) % 32);
            let l: u32 = rotl32(s(m) ^ rotl32(r, 27) ^ r, r % 32);

            if i < 8 {
                b = b.wrapping_add(l);
            } else {
                b = b ^ r;
            }

            c = c.wrapping_add(m);

            if i < 8 {
                d = d ^ r;
            } else {
                d = d.wrapping_add(l);
            }

            let aa: u32 = a;
            a = b;
            b = c;
            c = d;
            d = rotl32(aa, 13);
        }

        // Backwards Mixing.
        let ghost st2 = (a, b, c, d);
        for i in 0..8usize
            invariant
                (a, b, c, d) == back_mix(i as int, st2),
        {
            if i == 3 || i == 7 {
                a = a.wrapping_sub(b);
            }

            if i == 2 || i == 6 {
                a = a.wrapping_sub(d);
            }

            b = b ^ s1(a);
            c = c.wrapping_sub(s0(rotl32(a, 8)));
            d = d.wrapping_sub(s1(rotl32(a, 16))) ^ s0(rotl32(a, 24));
            let aa: u32 = a;
            a = b;
            b = c;
            c = d;
            d = rotl32(aa, 24);
        }

        a = a.wrapping_sub(self.key[36]);
        b = b.wrapping_sub(self.key[37]);
        c = c.wrapping_sub(self.key[38]);
        d = d.wrapping_sub(self.key[39]);

        (a, b, c, d)
    }

    /// decrypt a block of data.
    pub fn decrypt(&self, a: u32, b: u32, c: u32, d: u32) -> (res: (u32, u32, u32, u32))
        ensures
            res == mars_decrypt_block(self@, (a, b, c, d)),
    {
        let ghost k = self@;

        let mut a = a.wrapping_add(self.key[36]);
        let mut b = b.wrapping_add(self.key[37]);
        let mut c = c.wrapping_add(self.key[38]);
        let mut d = d.wrapping_add(self.key[39]);
        let ghost st0 = (a, b, c, d);

        // Undo the backwards mixing, rounds 7 down to 0.
        let mut i: usize = 8;
        while i > 0
            invariant
                i <= 8,
                inv_back_mix(i as int, (a, b, c, d)) == inv_back_mix(8, st0),
            decreases i,
        {
            i -= 1;

            let dd: u32 = d;
            d = c;
            c = b;
            b = a;
            a = dd;

            a = rotl32(a, 8);
            d = (d ^ s0(rotl32(a, 24))).wrapping_add(s1(rotl32(a, 16)));
            c = c.wrapping_add(s0(rotl32(a, 8)));
            b = b ^ s1(a);

            if i == 2 || i == 6 {
                a = a.wrapping_add(d);
            }

            if i == 3 || i == 7 {
                a = a.wrapping_add(b);
            }
        }

        // Undo the cryptographic core, rounds 15 down to 0.
        let ghost st1 = (a, b, c, d);
        let mut i: usize = 16;
        while i > 0
            invariant
                i <= 16,
                k == self@,
                inv_core(k, i as int, (a, b, c, d)) == inv_core(k, 16, st1),
            decreases i,
        {
            i -= 1;

            let dd: u32 = d;
            d = c;
            c = b;
            b = a;
            a = dd;

            a = rotl32(a, 19);

            let r: u32 = rotl32(rotl32(a, 13).wrapping_mul(self.key[2 * i + 5]), 10);
            let m: u32 = rotl32(a.wrapping_add(self.key[2 * i + 4]), rotl32(r, 27) % 32);
            let l: u32 = rotl32(s(m) ^ rotl32(r, 27) ^ r, r % 32);

            if i < 8 {
                b = b.wrapping_sub(l);
            } else {
                b = b ^ r;
            }

            c = c.wrapping_sub(m);

            if i < 8 {
                d = d ^ r;
            } else {
                d = d.wrapping_sub(l);
            }
        }

        // Undo the forward mixing, rounds 7 down to 0.
        let ghost st2 = (a, b, c, d);
        let mut i: usize = 8;
        while i > 0
            invariant
                i <= 8,
                inv_fwd_mix(i as int, (a, b, c, d)) == inv_fwd_mix(8, st2),
            decreases i,
        {
            i -= 1;

            let dd: u32 = d;
            d = c;
            c = b;
            b = a;
            a = dd;

            if i == 0 || i == 4 {
                a = a.wrapping_sub(d);
            }

            if i == 1 || i == 5 {
                a = a.wrapping_sub(b);
            }

            a = rotl32(a, 24);
            d = d ^ s1(rotl32(a, 8));
            c = c.wrapping_sub(s0(rotl32(a, 16)));
            b = b.wrapping_sub(s1(rotl32(a, 24))) ^ s0(a);
        }

        a = a.wrapping_sub(self.key[0]);
        b = b.wrapping_sub(self.key[1]);
        c = c.wrapping_sub(self.key[2]);
        d = d.wrapping_sub(self.key[3]);

        (a, b, c, d)
    }
}

} // verus!
