//! The Trivium stream cipher: three coupled non-linear feedback shift
//! registers clocked one bit at a time. Construction loads the IV and the
//! key into the registers, sets the mandated fixed bits, and runs 1152
//! warm-up clock cycles whose output is discarded; after that every clock
//! yields one keystream bit.
//!
//! An instance is inherently stateful: every clock advances the
//! registers, so encrypting and then decrypting the same stream requires
//! two freshly constructed instances with identical (IV, key). The spec
//! model (`clock_regs`, `clocks`, `byte_stream_xor`) pins down the state
//! after any number of clocks, and `lemma_byte_stream_xor_round_trip`
//! proves that two instances started from the same registers undo each
//! other.
//!
//! This cipher is meant for hardware implementations, so this software
//! implementation will not be as efficient as it could be.

use vstd::prelude::*;

use crate::wordops::lemma_xor_cancel_byte;

verus! {

/// The size of a private key (in bytes).
pub const KEY_SIZE_BYTES: usize = 10;

/// The size of the initialization vector (in bytes).
pub const IV_SIZE_BYTES: usize = 10;

/// An initialization vector.
pub type IV = [u8; IV_SIZE_BYTES];

/// A symmetric private key.
pub type Key = [u8; KEY_SIZE_BYTES];

/// Bit `k` of a register. Bit `k` is stored in byte `k / 8`, counted from
/// that byte's most significant bit down, so it sits at shift `7 - k % 8`.
pub open spec fn reg_bit(r: Seq<u8>, k: int) -> u8
    recommends
        0 <= k < 8 * r.len(),
{
    (r[k / 8] >> ((7 - k % 8) as u8)) & 1
}

/// Register 1's output tap: XOR(r1[65], r1[92], AND(r1[90], r1[91])).
pub open spec fn tap1(r1: Seq<u8>) -> u8 {
    reg_bit(r1, 65) ^ reg_bit(r1, 92) ^ (reg_bit(r1, 90) & reg_bit(r1, 91))
}

/// Register 2's output tap: XOR(r2[68], r2[83], AND(r2[81], r2[82])).
pub open spec fn tap2(r2: Seq<u8>) -> u8 {
    reg_bit(r2, 68) ^ reg_bit(r2, 83) ^ (reg_bit(r2, 81) & reg_bit(r2, 82))
}

/// Register 3's output tap: XOR(r3[65], r3[110], AND(r3[108], r3[109])).
pub open spec fn tap3(r3: Seq<u8>) -> u8 {
    reg_bit(r3, 65) ^ reg_bit(r3, 110) ^ (reg_bit(r3, 108) & reg_bit(r3, 109))
}

/// Register 1's feedback input: XOR of register 3's tap and r1[68].
pub open spec fn feed1(r1: Seq<u8>, r3: Seq<u8>) -> u8 {
    tap3(r3) ^ reg_bit(r1, 68)
}

/// Register 2's feedback input: XOR of register 1's tap and r2[77].
pub open spec fn feed2(r1: Seq<u8>, r2: Seq<u8>) -> u8 {
    tap1(r1) ^ reg_bit(r2, 77)
}

/// Register 3's feedback input: XOR of register 2's tap and r3[86].
pub open spec fn feed3(r2: Seq<u8>, r3: Seq<u8>) -> u8 {
    tap2(r2) ^ reg_bit(r3, 86)
}

/// The bit carried into byte `i` when a register shifts right: the low
/// bit of the previous byte, or zero for the first byte.
pub open spec fn carry_in(s: Seq<u8>, i: int) -> u8
    recommends
        0 <= i <= s.len(),
{
    if i == 0 {
        0
    } else {
        s[i - 1] & 1
    }
}

/// A register shifted right by one bit, the dropped low bit of each byte
/// carried into the top bit of the next byte.
pub open spec fn shift_right_spec(s: Seq<u8>) -> Seq<u8> {
    Seq::new(s.len(), |i: int| (s[i] >> 1) | (carry_in(s, i) << 7))
}

/// A feedback bit injected into the just-vacated top bit of byte 0.
pub open spec fn inject(s: Seq<u8>, bit: u8) -> Seq<u8>
    recommends
        s.len() > 0,
{
    s.update(0, (bit << 7) | s[0])
}

/// The three registers after one clock cycle: compute the three feedback
/// bits, shift every register right by one bit, and inject the feedback.
pub open spec fn clock_regs(r1: Seq<u8>, r2: Seq<u8>, r3: Seq<u8>) -> (Seq<u8>, Seq<u8>, Seq<u8>) {
    (
        inject(shift_right_spec(r1), feed1(r1, r3)),
        inject(shift_right_spec(r2), feed2(r1, r2)),
        inject(shift_right_spec(r3), feed3(r2, r3)),
    )
}

/// The keystream bit a clock cycle emits: the XOR of the three taps.
pub open spec fn clock_out(r1: Seq<u8>, r2: Seq<u8>, r3: Seq<u8>) -> u8 {
    tap1(r1) ^ tap2(r2) ^ tap3(r3)
}

/// The registers after `n` clock cycles.
pub open spec fn clocks(r1: Seq<u8>, r2: Seq<u8>, r3: Seq<u8>, n: int) -> (Seq<u8>, Seq<u8>, Seq<u8>)
    decreases n,
{
    if n <= 0 {
        (r1, r2, r3)
    } else {
        let (s1, s2, s3) = clocks(r1, r2, r3, n - 1);
        clock_regs(s1, s2, s3)
    }
}

/// The keystream bit emitted by clock cycle `n` (0-based).
pub open spec fn keystream_bit(r1: Seq<u8>, r2: Seq<u8>, r3: Seq<u8>, n: int) -> u8 {
    let (s1, s2, s3) = clocks(r1, r2, r3, n);
    clock_out(s1, s2, s3)
}

/// The first `i` keystream bits packed into a byte, most significant
/// bit first.
pub open spec fn packed_bits(r1: Seq<u8>, r2: Seq<u8>, r3: Seq<u8>, i: int) -> u8
    recommends
        0 <= i <= 8,
    decreases i,
{
    if i <= 0 {
        0
    } else {
        packed_bits(r1, r2, r3, i - 1) | (keystream_bit(r1, r2, r3, i - 1) << ((8 - i) as u8))
    }
}

/// Keystream byte `k`: the eight bits emitted by clock cycles
/// `8k` to `8k + 7`, packed most significant bit first.
pub open spec fn keystream_byte_at(r1: Seq<u8>, r2: Seq<u8>, r3: Seq<u8>, k: int) -> u8 {
    let (s1, s2, s3) = clocks(r1, r2, r3, 8 * k);
    packed_bits(s1, s2, s3, 8)
}

/// The whole cipher from a given register state: every message byte
/// XORed with its keystream byte. Encryption and decryption are both
/// exactly this function.
pub open spec fn byte_stream_xor(r1: Seq<u8>, r2: Seq<u8>, r3: Seq<u8>, m: Seq<u8>) -> Seq<u8> {
    Seq::new(m.len(), |i: int| m[i] ^ keystream_byte_at(r1, r2, r3, i))
}

/// The registers right after initialization: the IV in register 1's
/// first ten bytes, the key in register 2's first ten bytes, and the
/// mandated fixed pattern in register 3's last byte.
pub open spec fn init_regs(iv: Seq<u8>, key: Seq<u8>) -> (Seq<u8>, Seq<u8>, Seq<u8>)
    recommends
        iv.len() == 10,
        key.len() == 10,
{
    (
        Seq::new(12, |i: int| if i < 10 { iv[i] } else { 0u8 }),
        Seq::new(11, |i: int| if i < 10 { key[i] } else { 0u8 }),
        Seq::new(14, |i: int| if i == 13 { 14u8 } else { 0u8 }),
    )
}

/// The registers of a freshly constructed instance: initialization
/// followed by the 1152 warm-up clock cycles.
pub open spec fn start_regs(iv: Seq<u8>, key: Seq<u8>) -> (Seq<u8>, Seq<u8>, Seq<u8>)
    recommends
        iv.len() == 10,
        key.len() == 10,
{
    let (s1, s2, s3) = init_regs(iv, key);
    clocks(s1, s2, s3, 1152)
}

/// Clocking `a + b` times is clocking `a` times and then `b` times.
pub proof fn lemma_clocks_add(r1: Seq<u8>, r2: Seq<u8>, r3: Seq<u8>, a: int, b: int)
    requires
        a >= 0,
        b >= 0,
    ensures
        clocks(r1, r2, r3, a + b) == ({
            let (s1, s2, s3) = clocks(r1, r2, r3, a);
            clocks(s1, s2, s3, b)
        }),
    decreases b,
{
    if b > 0 {
        lemma_clocks_add(r1, r2, r3, a, b - 1);
    }
}

/// Round trip: two instances started from the same register state — as
/// two freshly constructed instances with identical (IV, key) are — undo
/// each other: XORing a message with the keystream twice restores it.
pub proof fn lemma_byte_stream_xor_round_trip(r1: Seq<u8>, r2: Seq<u8>, r3: Seq<u8>, m: Seq<u8>)
    ensures
        byte_stream_xor(r1, r2, r3, byte_stream_xor(r1, r2, r3, m)) == m,
{
    let c = byte_stream_xor(r1, r2, r3, m);
    let m2 = byte_stream_xor(r1, r2, r3, c);
    assert forall|i: int| 0 <= i < m.len() implies m2[i] == m[i] by {
        lemma_xor_cancel_byte(m[i], keystream_byte_at(r1, r2, r3, i));
    }
    assert(m2 =~= m);
}

/// A Trivium stream cipher. The registers are exposed for inspection;
/// they are advanced by every clock and must not be modified between
/// calls.
#[derive(Debug)]
pub struct Trivium {
    /// Shift register 1; only the first 93 bits are used.
    pub r1: [u8; 12],
    /// Shift register 2; only the first 84 bits are used.
    pub r2: [u8; 11],
    /// Shift register 3; only the first 111 bits are used.
    pub r3: [u8; 14],
    /// The initialization vector supplied at construction.
    pub iv: IV,
    /// The key supplied at construction.
    pub key: Key,
}

impl Trivium {
    /// new creates a cipher from the given IV and key, initializes the
    /// registers and runs the warm-up.
    pub fn new(iv: IV, key: Key) -> (c: Trivium)
        ensures
            c.iv@ == iv@,
            c.key@ == key@,
            (c.r1@, c.r2@, c.r3@) == start_regs(iv@, key@),
    {
        let mut instance = Trivium {
            r1: [0u8; 12],
            r2: [0u8; 11],
            r3: [0u8; 14],
            iv: iv,
            key: key,
        };

        instance.init();
        proof {
            let (s1, s2, s3) = init_regs(iv@, key@);
            assert(instance.r1@ =~= s1);
            assert(instance.r2@ =~= s2);
            assert(instance.r3@ =~= s3);
        }
        instance.warm_up();

        instance
    }

    /// encrypt a message, consuming cipher state: one keystream byte is
    /// produced per message byte and XORed against it.
    pub fn encrypt(&mut self, message: &[u8]) -> (res: Vec<u8>)
        ensures
            res@ == byte_stream_xor(old(self).r1@, old(self).r2@, old(self).r3@, message@),
            (final(self).r1@, final(self).r2@, final(self).r3@) == clocks(
                old(self).r1@,
                old(self).r2@,
                old(self).r3@,
                8 * message@.len() as int,
            ),
            final(self).iv == old(self).iv,
            final(self).key == old(self).key,
    {
        let ghost g1 = self.r1@;
        let ghost g2 = self.r2@;
        let ghost g3 = self.r3@;
        let mut encrypted: Vec<u8> = Vec::new();
        let mut i: usize = 0;
        while i < message.len()
            invariant
                i <= message@.len(),
                encrypted@.len() == i,
                (self.r1@, self.r2@, self.r3@) == clocks(g1, g2, g3, 8 * i),
                self.iv == old(self).iv,
                self.key == old(self).key,
                forall|j: int|
                    0 <= j < i ==> encrypted@[j] == byte_stream_xor(g1, g2, g3, message@)[j],
            decreases message@.len() - i,
        {
            proof {
                lemma_clocks_add(g1, g2, g3, 8 * i as int, 8);
            }
            let k = self.clock_byte();
            encrypted.push(message[i] ^ k);
            i += 1;
        }
        proof {
            assert(encrypted@ =~= byte_stream_xor(g1, g2, g3, message@));
        }
        encrypted
    }

    /// decrypt a cipher text, consuming cipher state. Decryption is
    /// exactly the same operation as encryption; recovering a message
    /// requires a freshly constructed instance with the same (IV, key)
    /// as the one that encrypted it.
    pub fn decrypt(&mut self, cipher: &[u8]) -> (res: Vec<u8>)
        ensures
            res@ == byte_stream_xor(old(self).r1@, old(self).r2@, old(self).r3@, cipher@),
            (final(self).r1@, final(self).r2@, final(self).r3@) == clocks(
                old(self).r1@,
                old(self).r2@,
                old(self).r3@,
                8 * cipher@.len() as int,
            ),
            final(self).iv == old(self).iv,
            final(self).key == old(self).key,
    {
        self.encrypt(cipher)
    }

    /// Load the IV into register 1, the key into register 2, and set the
    /// mandated pattern in register 3's last byte.
    pub fn init(&mut self)
        ensures
            final(self).r1@ == Seq::new(
                12,
                |i: int| if i < 10 { old(self).iv@[i] } else { old(self).r1@[i] },
            ),
            final(self).r2@ == Seq::new(
                11,
                |i: int| if i < 10 { old(self).key@[i] } else { old(self).r2@[i] },
            ),
            final(self).r3@ == old(self).r3@.update(13, 14u8),
            final(self).iv == old(self).iv,
            final(self).key == old(self).key,
    {
        let ghost iv0 = self.iv@;
        let ghost r1_0 = self.r1@;
        for i in 0..IV_SIZE_BYTES
            invariant
                iv0 == self.iv@,
                r1_0.len() == 12,
                self.r2 == old(self).r2,
                self.r3 == old(self).r3,
                self.iv == old(self).iv,
                self.key == old(self).key,
                forall|j: int| 0 <= j < i ==> self.r1@[j] == iv0[j],
                forall|j: int| i <= j < 12 ==> self.r1@[j] == r1_0[j],
        {
            self.r1[i] = self.iv[i];
        }

        let ghost key0 = self.key@;
        let ghost r2_0 = self.r2@;
        let ghost r1_done = self.r1@;
        for i in 0..KEY_SIZE_BYTES
            invariant
                key0 == self.key@,
                r2_0.len() == 11,
                self.r1@ == r1_done,
                self.r3 == old(self).r3,
                self.iv == old(self).iv,
                self.key == old(self).key,
                forall|j: int| 0 <= j < i ==> self.r2@[j] == key0[j],
                forall|j: int| i <= j < 11 ==> self.r2@[j] == r2_0[j],
        {
            self.r2[i] = self.key[i];
        }

        self.r3[13] = 14u8;

        proof {
            assert(self.r1@ =~= Seq::new(
                12,
                |i: int| if i < 10 { old(self).iv@[i] } else { old(self).r1@[i] },
            ));
            assert(self.r2@ =~= Seq::new(
                11,
                |i: int| if i < 10 { old(self).key@[i] } else { old(self).r2@[i] },
            ));
        }
    }

    /// Run the 1152 warm-up clock cycles, discarding their output.
    pub fn warm_up(&mut self)
        ensures
            (final(self).r1@, final(self).r2@, final(self).r3@) == clocks(
                old(self).r1@,
                old(self).r2@,
                old(self).r3@,
                1152,
            ),
            final(self).iv == old(self).iv,
            final(self).key == old(self).key,
    {
        let ghost g1 = self.r1@;
        let ghost g2 = self.r2@;
        let ghost g3 = self.r3@;
        for i in 0..1152usize
            invariant
                (self.r1@, self.r2@, self.r3@) == clocks(g1, g2, g3, i as int),
                self.iv == old(self).iv,
                self.key == old(self).key,
        {
            self.clock();
        }
    }

    /// clock simulates one clock cycle and returns the key stream bit.
    /// The return value will be either 0 or 1.
    pub fn clock(&mut self) -> (bit: u8)
        ensures
            (final(self).r1@, final(self).r2@, final(self).r3@) == clock_regs(
                old(self).r1@,
                old(self).r2@,
                old(self).r3@,
            ),
            bit == clock_out(old(self).r1@, old(self).r2@, old(self).r3@),
            final(self).iv == old(self).iv,
            final(self).key == old(self).key,
    {
        // Register 1: out = XOR(r1[65], r1[92], AND(r1[90], r1[91]))
        let b65: u8 = (self.r1[8] >> 6) & 1;
        let b92: u8 = (self.r1[11] >> 3) & 1;
        let b90: u8 = (self.r1[11] >> 5) & 1;
        let b91: u8 = (self.r1[11] >> 4) & 1;
        let out1: u8 = b65 ^ b92 ^ (b90 & b91);

        // Register 2: out = XOR(r2[68], r2[83], AND(r2[81], r2[82]))
        let b68: u8 = (self.r2[8] >> 3) & 1;
        let b83: u8 = (self.r2[10] >> 4) & 1;
        let b81: u8 = (self.r2[10] >> 6) & 1;
        let b82: u8 = (self.r2[10] >> 5) & 1;
        let out2: u8 = b68 ^ b83 ^ (b81 & b82);

        // Register 3: out = XOR(r3[65], r3[110], AND(r3[108], r3[109]))
        let c65: u8 = (self.r3[8] >> 6) & 1;
        let c110: u8 = (self.r3[13] >> 1) & 1;
        let c108: u8 = (self.r3[13] >> 3) & 1;
        let c109: u8 = (self.r3[13] >> 2) & 1;
        let out3: u8 = c65 ^ c110 ^ (c108 & c109);

        // Register 1: in = XOR(out(r3), r1[68])
        let in1: u8 = out3 ^ ((self.r1[8] >> 3) & 1);

        // Register 2: in = XOR(out(r1), r2[77])
        let in2: u8 = out1 ^ ((self.r2[9] >> 2) & 1);

        // Register 3: in = XOR(out(r2), r3[86])
        let in3: u8 = out2 ^ ((self.r3[10] >> 1) & 1);

        // Shift everything to the right
        Trivium::shift(&mut self.r1);
        Trivium::shift(&mut self.r2);
        Trivium::shift(&mut self.r3);

        // Insert new first bit
        self.r1[0] = (in1 << 7) | self.r1[0];
        self.r2[0] = (in2 << 7) | self.r2[0];
        self.r3[0] = (in3 << 7) | self.r3[0];

        // Return key stream bit
        out1 ^ out2 ^ out3
    }

    /// clock_byte simulates 8 clock cycles and returns a key stream
    /// byte, most significant bit first.
    pub fn clock_byte(&mut self) -> (b: u8)
        ensures
            (final(self).r1@, final(self).r2@, final(self).r3@) == clocks(
                old(self).r1@,
                old(self).r2@,
                old(self).r3@,
                8,
            ),
            b == packed_bits(old(self).r1@, old(self).r2@, old(self).r3@, 8),
            final(self).iv == old(self).iv,
            final(self).key == old(self).key,
    {
        let ghost g1 = self.r1@;
        let ghost g2 = self.r2@;
        let ghost g3 = self.r3@;
        let mut b: u8 = 0;

        for i in 0..8usize
            invariant
                (self.r1@, self.r2@, self.r3@) == clocks(g1, g2, g3, i as int),
                self.iv == old(self).iv,
                self.key == old(self).key,
                b == packed_bits(g1, g2, g3, i as int),
        {
            let bit = self.clock();
            b = b | (bit << (7 - i));
        }

        b
    }

    /// Shift a register's bytes to the right once, carrying each byte's
    /// dropped low bit into the top of the next byte.
    pub fn shift<const N: usize>(r: &mut [u8; N])
        ensures
            final(r)@ == shift_right_spec(old(r)@),
    {
        let mut carry: u8 = 0;
        let mut i: usize = 0;
        while i < N
            invariant
                i <= N,
                carry == carry_in(old(r)@, i as int),
                forall|j: int| 0 <= j < i ==> r@[j] == shift_right_spec(old(r)@)[j],
                forall|j: int| i <= j < N ==> r@[j] == old(r)@[j],
            decreases N - i,
        {
            let new_carry: u8 = r[i] & 1;
            r[i] = (r[i] >> 1) | (carry << 7);
            carry = new_carry;
            i += 1;
        }
        proof {
            assert(r@ =~= shift_right_spec(old(r)@));
        }
    }
}

} // verus!
