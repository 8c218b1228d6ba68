use vstd::prelude::*;
use vstd::arithmetic::div_mod::{lemma_add_mod_noop, lemma_mod_add_multiples_vanish, lemma_small_mod};
use crate::error::CoreError;

verus! {

/// Number of distinct 48-bit nonce values a sequencer can emit before a
/// value would repeat.
pub const NONCE_SPACE: u128 = 0x1_0000_0000_0000;

/// One direction's nonce sequencer: a 128-bit counter seeded from a 64-bit
/// initial offset. Each emission increments the counter and emits its low
/// 48 bits as a little-endian value, zero-extended to the 96 bits an AEAD
/// nonce requires.
pub struct NonceValue {
    n: u128,
    initial: u64,
}

impl NonceValue {
    /// The current counter value.
    pub closed spec fn counter(&self) -> int {
        self.n as int
    }

    /// The initial offset the sequencer was constructed with.
    pub closed spec fn initial(&self) -> int {
        self.initial as int
    }

    /// How many nonces have been emitted so far.
    pub open spec fn emitted(&self) -> int {
        self.counter() - self.initial()
    }

    pub open spec fn well_formed(&self) -> bool {
        self.initial() <= self.counter() <= self.initial() + NONCE_SPACE
    }

    pub fn new(n: u64) -> (r: Self)
        ensures
            r.well_formed(),
            r.initial() == n as int,
            r.counter() == n as int,
            r.emitted() == 0,
    {
        Self { n: n as u128, initial: n }
    }

    /// Emit the next nonce. Fails once the 48-bit emission space is spent:
    /// continuing past that point would repeat an earlier nonce, which must
    /// never happen for a live AEAD key.
    pub fn advance(&mut self) -> (r: Result<Vec<u8>, CoreError>)
        requires
            old(self).well_formed(),
        ensures
            final(self).well_formed(),
            final(self).initial() == old(self).initial(),
            old(self).emitted() < NONCE_SPACE ==> (r matches Ok(b)
                && final(self).counter() == old(self).counter() + 1
                && b@ == emitted_nonce(old(self).initial(), old(self).emitted() + 1)
                && b@.len() == 12),
            old(self).emitted() == NONCE_SPACE ==> (r matches Err(e)
                && e == CoreError::NonceExhausted
                && final(self).counter() == old(self).counter()),
    {
        if self.n - (self.initial as u128) >= NONCE_SPACE {
            return Err(CoreError::NonceExhausted);
        }
        self.n = self.n + 1;
        let v: u64 = (self.n % NONCE_SPACE) as u64;
        let mut b: Vec<u8> = Vec::new();
        b.push((v & 0xff) as u8);
        b.push(((v >> 8) & 0xff) as u8);
        b.push(((v >> 16) & 0xff) as u8);
        b.push(((v >> 24) & 0xff) as u8);
        b.push(((v >> 32) & 0xff) as u8);
        b.push(((v >> 40) & 0xff) as u8);
        b.push(0);
        b.push(0);
        b.push(0);
        b.push(0);
        b.push(0);
        b.push(0);
        proof {
            assert(b@ =~= le_48_bytes(v));
        }
        Ok(b)
    }
}

/// Little-endian bytes of a 48-bit value, zero-extended to 96 bits.
pub open spec fn le_48_bytes(v: u64) -> Seq<u8> {
    seq![
        (v & 0xff) as u8,
        ((v >> 8) & 0xff) as u8,
        ((v >> 16) & 0xff) as u8,
        ((v >> 24) & 0xff) as u8,
        ((v >> 32) & 0xff) as u8,
        ((v >> 40) & 0xff) as u8,
        0u8, 0u8, 0u8, 0u8, 0u8, 0u8,
    ]
}

/// The nonce emitted by the k-th call on a sequencer seeded with `init`.
pub open spec fn emitted_nonce(init: int, k: int) -> Seq<u8> {
    le_48_bytes(((init + k) % (NONCE_SPACE as int)) as u64)
}

/// Law: one sequencer never emits the same nonce twice within its first
/// 2^48 emissions — the cap `advance` enforces.
pub proof fn lemma_nonce_uniqueness(init: int, i: int, j: int)
    requires
        0 <= init,
        1 <= i < j <= NONCE_SPACE,
    ensures
        emitted_nonce(init, i) != emitted_nonce(init, j),
{
    let s = NONCE_SPACE as int;
    let a = init + i;
    let d = j - i;
    lemma_mod_values_differ(a, d, s);
    let va = (a % s) as u64;
    let vb = ((init + j) % s) as u64;
    assert(0 <= a % s < s && 0 <= (init + j) % s < s);
    assert(va != vb);
    assert(va < 0x1_0000_0000_0000 && vb < 0x1_0000_0000_0000);
    lemma_le_48_bytes_injective(va, vb);
}

/// Distinct 48-bit values have distinct little-endian byte strings.
proof fn lemma_le_48_bytes_injective(x: u64, y: u64)
    requires
        x < 0x1_0000_0000_0000,
        y < 0x1_0000_0000_0000,
        x != y,
    ensures
        le_48_bytes(x) != le_48_bytes(y),
{
    assert(
        x < 0x1_0000_0000_0000 && y < 0x1_0000_0000_0000
        && (x & 0xff) as u8 == (y & 0xff) as u8
        && ((x >> 8) & 0xff) as u8 == ((y >> 8) & 0xff) as u8
        && ((x >> 16) & 0xff) as u8 == ((y >> 16) & 0xff) as u8
        && ((x >> 24) & 0xff) as u8 == ((y >> 24) & 0xff) as u8
        && ((x >> 32) & 0xff) as u8 == ((y >> 32) & 0xff) as u8
        && ((x >> 40) & 0xff) as u8 == ((y >> 40) & 0xff) as u8
        ==> x == y
    ) by (bit_vector);
    if le_48_bytes(x) == le_48_bytes(y) {
        assert(le_48_bytes(x)[0] == le_48_bytes(y)[0]);
        assert(le_48_bytes(x)[1] == le_48_bytes(y)[1]);
        assert(le_48_bytes(x)[2] == le_48_bytes(y)[2]);
        assert(le_48_bytes(x)[3] == le_48_bytes(y)[3]);
        assert(le_48_bytes(x)[4] == le_48_bytes(y)[4]);
        assert(le_48_bytes(x)[5] == le_48_bytes(y)[5]);
    }
}

/// Adding a positive offset smaller than the modulus moves a value to a
/// different residue.
proof fn lemma_mod_values_differ(a: int, d: int, s: int)
    requires
        0 <= a,
        0 < d < s,
    ensures
        a % s != (a + d) % s,
{
    if a % s == (a + d) % s {
        lemma_add_mod_noop(a, d, s);
        lemma_small_mod(d as nat, s as nat);
        let r = a % s;
        assert(0 <= r < s);
        assert((r + d) % s == r);
        if r + d < s {
            lemma_small_mod((r + d) as nat, s as nat);
        } else {
            lemma_mod_add_multiples_vanish(r + d - s, s);
            lemma_small_mod((r + d - s) as nat, s as nat);
        }
    }
}

} // verus!
