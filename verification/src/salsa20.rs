//! The Salsa20 stream cipher: an add-rotate-xor hash function used in
//! counter mode. A 64-byte keystream block is produced for each 64-byte
//! window of the message from the key, the caller-supplied nonce and the
//! block counter, and the message is XORed with the keystream.
//!
//! The spec model mirrors the published construction: `qr` is the quarter
//! round, `hash_spec` the 20-round hash, `keystream_block` the expansion
//! of (key, nonce, counter), and `stream_xor` the whole cipher. Every
//! executable function is proved to compute its model, and
//! `lemma_stream_xor_round_trip` proves that encrypting twice with the
//! same key and nonce restores the message.

use vstd::prelude::*;

use crate::wordops::{w_add, rotl, rotl32, lemma_xor_cancel_byte};

verus! {

/// The quarter round on four words: the fundamental ARX mixing step.
pub open spec fn qr(y0: u32, y1: u32, y2: u32, y3: u32) -> (u32, u32, u32, u32) {
    let z1 = y1 ^ rotl(w_add(y0, y3), 7);
    let z2 = y2 ^ rotl(w_add(z1, y0), 9);
    let z3 = y3 ^ rotl(w_add(z2, z1), 13);
    let z0 = y0 ^ rotl(w_add(z3, z2), 18);
    (z0, z1, z2, z3)
}

/// The row round: a quarter round over each row of the 4x4 word grid.
pub open spec fn row_round_spec(y: Seq<u32>) -> Seq<u32>
    recommends
        y.len() == 16,
{
    let (z0, z1, z2, z3) = qr(y[0], y[1], y[2], y[3]);
    let (z5, z6, z7, z4) = qr(y[5], y[6], y[7], y[4]);
    let (z10, z11, z8, z9) = qr(y[10], y[11], y[8], y[9]);
    let (z15, z12, z13, z14) = qr(y[15], y[12], y[13], y[14]);
    seq![z0, z1, z2, z3, z4, z5, z6, z7, z8, z9, z10, z11, z12, z13, z14, z15]
}

/// The column round: a quarter round over each column of the grid.
pub open spec fn column_round_spec(x: Seq<u32>) -> Seq<u32>
    recommends
        x.len() == 16,
{
    let (y0, y4, y8, y12) = qr(x[0], x[4], x[8], x[12]);
    let (y5, y9, y13, y1) = qr(x[5], x[9], x[13], x[1]);
    let (y10, y14, y2, y6) = qr(x[10], x[14], x[2], x[6]);
    let (y15, y3, y7, y11) = qr(x[15], x[3], x[7], x[11]);
    seq![y0, y1, y2, y3, y4, y5, y6, y7, y8, y9, y10, y11, y12, y13, y14, y15]
}

/// One double round: a column round followed by a row round.
pub open spec fn double_round_spec(x: Seq<u32>) -> Seq<u32>
    recommends
        x.len() == 16,
{
    row_round_spec(column_round_spec(x))
}

/// `n` double rounds applied in order.
pub open spec fn iter_double_round(n: int, x: Seq<u32>) -> Seq<u32>
    decreases n,
{
    if n <= 0 {
        x
    } else {
        double_round_spec(iter_double_round(n - 1, x))
    }
}

/// The 32-bit word read from four bytes in little-endian order.
pub open spec fn le_word(b0: u8, b1: u8, b2: u8, b3: u8) -> u32 {
    (b0 + b1 * 0x100 + b2 * 0x10000 + b3 * 0x1000000) as u32
}

/// A 64-byte buffer reinterpreted as sixteen little-endian words.
pub open spec fn le_words(b: Seq<u8>) -> Seq<u32>
    recommends
        b.len() == 64,
{
    Seq::new(16, |i: int| le_word(b[4 * i], b[4 * i + 1], b[4 * i + 2], b[4 * i + 3]))
}

/// Byte `k` (0 to 3, low first) of a word written in little-endian order.
pub open spec fn word_byte(v: u32, k: int) -> u8
    recommends
        0 <= k < 4,
{
    if k == 0 {
        v as u8
    } else if k == 1 {
        (v >> 8) as u8
    } else if k == 2 {
        (v >> 16) as u8
    } else {
        (v >> 24) as u8
    }
}

/// The Salsa20 hash: read sixteen words, apply ten double rounds, add the
/// original words back in, and write the result little-endian.
pub open spec fn hash_spec(b: Seq<u8>) -> Seq<u8>
    recommends
        b.len() == 64,
{
    let x = le_words(b);
    let z = iter_double_round(10, x);
    Seq::new(64, |i: int| word_byte(w_add(z[i / 4], x[i / 4]), i % 4))
}

/// The 64-byte expansion input: the four fixed sigma constants
/// interleaved with the two key halves and the 16-byte nonce block.
pub open spec fn expansion_input(k0: Seq<u8>, k1: Seq<u8>, n: Seq<u8>) -> Seq<u8>
    recommends
        k0.len() == 16,
        k1.len() == 16,
        n.len() == 16,
{
    Seq::new(
        64,
        |i: int|
            {
                if i == 0 {
                    101u8
                } else if i == 1 {
                    120u8
                } else if i == 2 {
                    112u8
                } else if i == 3 {
                    97u8
                } else if i < 20 {
                    k0[i - 4]
                } else if i == 20 {
                    110u8
                } else if i == 21 {
                    100u8
                } else if i == 22 {
                    32u8
                } else if i == 23 {
                    51u8
                } else if i < 40 {
                    n[i - 24]
                } else if i == 40 {
                    50u8
                } else if i == 41 {
                    45u8
                } else if i == 42 {
                    98u8
                } else if i == 43 {
                    121u8
                } else if i < 60 {
                    k1[i - 44]
                } else if i == 60 {
                    116u8
                } else if i == 61 {
                    101u8
                } else if i == 62 {
                    32u8
                } else {
                    107u8
                }
            },
    )
}

/// What `key_expansion` returns: the hash of the expansion input.
pub open spec fn key_expansion_spec(k0: Seq<u8>, k1: Seq<u8>, n: Seq<u8>) -> Seq<u8>
    recommends
        k0.len() == 16,
        k1.len() == 16,
        n.len() == 16,
{
    hash_spec(expansion_input(k0, k1, n))
}

/// Byte `j` of the 64-bit block counter, low byte first.
pub open spec fn counter_byte(q: u64, j: int) -> u8
    recommends
        0 <= j < 8,
{
    (q >> ((8 * j) as u64)) as u8
}

/// The 16-byte per-block input: nonce followed by the counter bytes.
pub open spec fn block_input(nonce: Seq<u8>, q: u64) -> Seq<u8>
    recommends
        nonce.len() == 8,
{
    Seq::new(16, |i: int| if i < 8 { nonce[i] } else { counter_byte(q, i - 8) })
}

/// The 64-byte keystream block for block counter `q`.
pub open spec fn keystream_block(k0: Seq<u8>, k1: Seq<u8>, nonce: Seq<u8>, q: u64) -> Seq<u8>
    recommends
        k0.len() == 16,
        k1.len() == 16,
        nonce.len() == 8,
{
    key_expansion_spec(k0, k1, block_input(nonce, q))
}

/// Keystream byte `i`: byte `i % 64` of keystream block `i / 64`.
pub open spec fn keystream_byte(k0: Seq<u8>, k1: Seq<u8>, nonce: Seq<u8>, i: int) -> u8
    recommends
        k0.len() == 16,
        k1.len() == 16,
        nonce.len() == 8,
        0 <= i,
{
    keystream_block(k0, k1, nonce, (i / 64) as u64)[i % 64]
}

/// The whole cipher: every message byte XORed with its keystream byte.
/// Encryption and decryption are both exactly this function.
pub open spec fn stream_xor(k0: Seq<u8>, k1: Seq<u8>, nonce: Seq<u8>, m: Seq<u8>) -> Seq<u8>
    recommends
        k0.len() == 16,
        k1.len() == 16,
        nonce.len() == 8,
{
    Seq::new(m.len(), |i: int| m[i] ^ keystream_byte(k0, k1, nonce, i))
}

/// Round trip: applying the cipher twice with the same key halves and the
/// same nonce restores the message, whatever the message is. Since
/// `encrypt` and `decrypt` both compute `stream_xor`, decrypting an
/// encrypted message yields the original.
pub proof fn lemma_stream_xor_round_trip(k0: Seq<u8>, k1: Seq<u8>, nonce: Seq<u8>, m: Seq<u8>)
    ensures
        stream_xor(k0, k1, nonce, stream_xor(k0, k1, nonce, m)) == m,
{
    let c = stream_xor(k0, k1, nonce, m);
    let m2 = stream_xor(k0, k1, nonce, c);
    assert forall|i: int| 0 <= i < m.len() implies m2[i] == m[i] by {
        lemma_xor_cancel_byte(m[i], keystream_byte(k0, k1, nonce, i));
    }
    assert(m2 =~= m);
}

/// A Salsa20 stream cipher, keyed once at construction with a 32-byte key
/// split into two 16-byte halves.
pub struct Salsa20 {
    k0: [u8; 16],
    k1: [u8; 16],
}

impl Salsa20 {
    /// The first half of the key, as the contracts speak of it.
    pub closed spec fn key_half0(&self) -> Seq<u8> {
        self.k0@
    }

    /// The second half of the key, as the contracts speak of it.
    pub closed spec fn key_half1(&self) -> Seq<u8> {
        self.k1@
    }

    /// new creates a new Salsa20 cipher with the given key.
    pub fn new(key: [u8; 32]) -> (c: Salsa20)
        ensures
            c.key_half0() == key@.subrange(0, 16),
            c.key_half1() == key@.subrange(16, 32),
    {
        let mut k0: [u8; 16] = [0u8; 16];
        let mut k1: [u8; 16] = [0u8; 16];
        for i in 0..16usize
            invariant
                forall|j: int| 0 <= j < i ==> k0@[j] == key@[j],
                forall|j: int| 0 <= j < i ==> k1@[j] == key@[16 + j],
        {
            k0[i] = key[i];
            k1[i] = key[16 + i];
        }
        proof {
            assert(k0@ =~= key@.subrange(0, 16));
            assert(k1@ =~= key@.subrange(16, 32));
        }
        Salsa20 { k0, k1 }
    }

    /// encrypt a message with a given nonce.
    /// You must make sure you never reuse the same nonce.
    pub fn encrypt(&self, message: &[u8], nonce: [u8; 8]) -> (res: Vec<u8>)
        ensures
            res@ == stream_xor(self.key_half0(), self.key_half1(), nonce@, message@),
    {
        let l = message.len();
        let mut res: Vec<u8> = Vec::new();
        let mut current: [u8; 64] = [0u8; 64];
        let mut i: usize = 0;
        while i < l
            invariant
                i <= l,
                l == message@.len(),
                res@.len() == i,
                forall|j: int|
                    0 <= j < i ==> res@[j] == stream_xor(
                        self.key_half0(),
                        self.key_half1(),
                        nonce@,
                        message@,
                    )[j],
                i % 64 != 0 ==> current@ == keystream_block(
                    self.key_half0(),
                    self.key_half1(),
                    nonce@,
                    (i / 64) as u64,
                ),
            decreases l - i,
        {
            if i % 64 == 0 {
                let q: u64 = (i / 64) as u64;
                let mut n: [u8; 16] = [0u8; 16];
                for t in 0..8usize
                    invariant
                        forall|j: int| 0 <= j < t ==> n@[j] == nonce@[j],
                        forall|j: int| 0 <= j < t ==> n@[8 + j] == counter_byte(q, j),
                {
                    n[t] = nonce[t];
                    n[8 + t] = (q >> ((8 * t) as u64)) as u8;
                }
                proof {
                    assert(n@ =~= block_input(nonce@, q));
                }
                current = key_expansion(self.k0, self.k1, n);
            }
            res.push(message[i] ^ current[i % 64]);
            i += 1;
        }
        res
    }

    /// decrypt a cipher with a given nonce.
    /// You must make sure you never reuse the same nonce.
    pub fn decrypt(&self, cipher: &[u8], nonce: [u8; 8]) -> (res: Vec<u8>)
        ensures
            res@ == stream_xor(self.key_half0(), self.key_half1(), nonce@, cipher@),
    {
        self.encrypt(cipher, nonce)
    }
}

/// The quarter round on an array of four words.
pub fn quarter_round(y: [u32; 4]) -> (z: [u32; 4])
    ensures
        (z[0], z[1], z[2], z[3]) == qr(y[0], y[1], y[2], y[3]),
{
    let z1 = y[1] ^ rotl32(y[0].wrapping_add(y[3]), 7);
    let z2 = y[2] ^ rotl32(z1.wrapping_add(y[0]), 9);
    let z3 = y[3] ^ rotl32(z2.wrapping_add(z1), 13);
    let z0 = y[0] ^ rotl32(z3.wrapping_add(z2), 18);
    [z0, z1, z2, z3]
}

/// The row round on an array of sixteen words.
pub fn row_round(y: [u32; 16]) -> (z: [u32; 16])
    ensures
        z@ == row_round_spec(y@),
{
    let q0 = quarter_round([y[0], y[1], y[2], y[3]]);
    let q1 = quarter_round([y[5], y[6], y[7], y[4]]);
    let q2 = quarter_round([y[10], y[11], y[8], y[9]]);
    let q3 = quarter_round([y[15], y[12], y[13], y[14]]);
    let z = [
        q0[0], q0[1], q0[2], q0[3],
        q1[3], q1[0], q1[1], q1[2],
        q2[2], q2[3], q2[0], q2[1],
        q3[1], q3[2], q3[3], q3[0],
    ];
    proof {
        assert(z@ =~= row_round_spec(y@));
    }
    z
}

/// The column round on an array of sixteen words.
pub fn column_round(x: [u32; 16]) -> (z: [u32; 16])
    ensures
        z@ == column_round_spec(x@),
{
    let c0 = quarter_round([x[0], x[4], x[8], x[12]]);
    let c1 = quarter_round([x[5], x[9], x[13], x[1]]);
    let c2 = quarter_round([x[10], x[14], x[2], x[6]]);
    let c3 = quarter_round([x[15], x[3], x[7], x[11]]);
    let z = [
        c0[0], c1[3], c2[2], c3[1],
        c0[1], c1[0], c2[3], c3[2],
        c0[2], c1[1], c2[0], c3[3],
        c0[3], c1[2], c2[1], c3[0],
    ];
    proof {
        assert(z@ =~= column_round_spec(x@));
    }
    z
}

/// One double round: a column round followed by a row round.
pub fn double_round(x: [u32; 16]) -> (z: [u32; 16])
    ensures
        z@ == double_round_spec(x@),
{
    row_round(column_round(x))
}

/// The 32-bit word read from four bytes in little-endian order.
pub fn little_endian(b: [u8; 4]) -> (w: u32)
    ensures
        w == le_word(b[0], b[1], b[2], b[3]),
{
    (b[0] as u32) + (b[1] as u32) * 0x100 + (b[2] as u32) * 0x10000 + (b[3] as u32) * 0x1000000
}

/// The Salsa20 hash of a 64-byte buffer.
pub fn hash(b: [u8; 64]) -> (res: [u8; 64])
    ensures
        res@ == hash_spec(b@),
{
    let mut x: [u32; 16] = [0u32; 16];
    for i in 0..16usize
        invariant
            forall|j: int| 0 <= j < i ==> x@[j] == le_words(b@)[j],
    {
        x[i] = little_endian([b[4 * i], b[4 * i + 1], b[4 * i + 2], b[4 * i + 3]]);
    }
    proof {
        assert(x@ =~= le_words(b@));
    }

    let mut z = x;
    for n in 0..10usize
        invariant
            x@ == le_words(b@),
            z@ == iter_double_round(n as int, x@),
    {
        z = double_round(z);
    }

    let mut res: [u8; 64] = [0u8; 64];
    for i in 0..16usize
        invariant
            x@ == le_words(b@),
            z@ == iter_double_round(10, x@),
            forall|j: int| 0 <= j < 4 * i ==> res@[j] == hash_spec(b@)[j],
    {
        let v = z[i].wrapping_add(x[i]);
        res[4 * i] = v as u8;
        res[4 * i + 1] = (v >> 8) as u8;
        res[4 * i + 2] = (v >> 16) as u8;
        res[4 * i + 3] = (v >> 24) as u8;
        proof {
            assert forall|j: int| 0 <= j < 4 * (i + 1) implies res@[j] == hash_spec(b@)[j] by {
                assert(j / 4 < 16);
                if 4 * i <= j {
                    assert(j / 4 == i && j % 4 == j - 4 * i);
                }
            }
        }
    }
    proof {
        assert(res@ =~= hash_spec(b@));
    }
    res
}

/// Build the 64-byte expansion input from the key halves and the nonce
/// block, and hash it.
pub fn key_expansion(k0: [u8; 16], k1: [u8; 16], n: [u8; 16]) -> (res: [u8; 64])
    ensures
        res@ == key_expansion_spec(k0@, k1@, n@),
{
    let ghost goal = expansion_input(k0@, k1@, n@);
    let mut to_hash: [u8; 64] = [0u8; 64];

    to_hash[0] = 101;
    to_hash[1] = 120;
    to_hash[2] = 112;
    to_hash[3] = 97;

    for i in 4..20usize
        invariant
            goal == expansion_input(k0@, k1@, n@),
            forall|j: int| 0 <= j < i ==> to_hash@[j] == goal[j],
    {
        to_hash[i] = k0[i - 4];
    }

    to_hash[20] = 110;
    to_hash[21] = 100;
    to_hash[22] = 32;
    to_hash[23] = 51;

    for i in 24..40usize
        invariant
            goal == expansion_input(k0@, k1@, n@),
            forall|j: int| 0 <= j < i ==> to_hash@[j] == goal[j],
    {
        to_hash[i] = n[i - 24];
    }

    to_hash[40] = 50;
    to_hash[41] = 45;
    to_hash[42] = 98;
    to_hash[43] = 121;

    for i in 44..60usize
        invariant
            goal == expansion_input(k0@, k1@, n@),
            forall|j: int| 0 <= j < i ==> to_hash@[j] == goal[j],
    {
        to_hash[i] = k1[i - 44];
    }

    to_hash[60] = 116;
    to_hash[61] = 101;
    to_hash[62] = 32;
    to_hash[63] = 107;

    proof {
        assert(to_hash@ =~= goal);
    }
    hash(to_hash)
}

} // verus!
