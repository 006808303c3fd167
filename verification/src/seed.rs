//! Deterministic randomness shared by the two peers of a channel. Both
//! sides derive the per-channel seeds from the same 32-byte script hash and
//! reseed from the same agreed byte sequences (signatures, round-transition
//! tokens), so independent local draws agree bit for bit without any random
//! outcome ever crossing the wire.

use vstd::prelude::*;
use vstd::arithmetic::power2::{pow2, lemma_pow2_adds, lemma_pow2_strictly_increases, lemma2_to64,
    lemma2_to64_rest};
use vstd::assert_seqs_equal;

verus! {

/// Big-endian fold of the window `[lo, hi)` of `h`: each byte is shifted
/// right by one bit before being folded in. The lossy shift is deliberate:
/// it keeps the folded value within the non-negative range of a signed
/// 64-bit integer while preserving entropy, and both peers must use this
/// exact fold to converge.
pub open spec fn seed_fold(h: Seq<u8>, lo: int, hi: int) -> int
    decreases hi - lo,
{
    if hi <= lo {
        0
    } else {
        seed_fold(h, lo, hi - 1) * 256 + h[hi - 1] / 2
    }
}

/// Fold eight bytes of `hash` starting at `lo` into one non-negative
/// 64-bit seed.
pub fn fold_window(hash: &Vec<u8>, lo: usize) -> (r: i64)
    requires
        lo + 8 <= hash@.len(),
    ensures
        0 <= r,
        r == seed_fold(hash@, lo as int, lo as int + 8),
{
    let n = hash.len();
    let mut acc: u64 = 0;
    let mut j: usize = 0;
    proof {
        lemma2_to64();
    }
    while j < 8
        invariant
            lo + 8 <= n == hash@.len(),
            j <= 8,
            acc == seed_fold(hash@, lo as int, lo as int + j),
            2 * acc < pow2((8 * j) as nat),
        decreases 8 - j,
    {
        let b: u8 = hash[lo + j];
        let d: u64 = (b as u64) >> 1;
        proof {
            lemma2_to64();
            lemma2_to64_rest();
            if 8 * j < 56 {
                lemma_pow2_strictly_increases((8 * j) as nat, 56);
            }
            lemma_pow2_adds((8 * j) as nat, 8);
            let bu = b as u64;
            assert(bu >> 1 == bu / 2) by (bit_vector);
        }
        assert(acc < 0x80000000000000u64);
        assert((acc << 8) | d == acc * 256 + d) by (bit_vector)
            requires
                acc < 0x80000000000000u64,
                d < 0x80u64,
        ;
        acc = (acc << 8) | d;
        j = j + 1;
    }
    proof {
        lemma2_to64();
    }
    acc as i64
}

/// Derive the two per-channel seeds from a 32-byte script hash: the first
/// from bytes 0..8, the second from the disjoint window 8..16.
pub fn derive_channel_seeds(hash: &Vec<u8>) -> (r: (i64, i64))
    requires
        hash@.len() == 32,
    ensures
        0 <= r.0,
        0 <= r.1,
        r.0 == seed_fold(hash@, 0, 8),
        r.1 == seed_fold(hash@, 8, 16),
{
    let time_seed = fold_window(hash, 0);
    let clock_seed = fold_window(hash, 8);
    (time_seed, clock_seed)
}

/// The fold reads only the bytes of its window.
pub proof fn lemma_seed_fold_window_only(h1: Seq<u8>, h2: Seq<u8>, lo: int, hi: int)
    requires
        0 <= lo <= hi,
        hi <= h1.len(),
        hi <= h2.len(),
        h1.subrange(lo, hi) == h2.subrange(lo, hi),
    ensures
        seed_fold(h1, lo, hi) == seed_fold(h2, lo, hi),
    decreases hi - lo,
{
    if lo < hi {
        assert(h1.subrange(lo, hi)[hi - 1 - lo] == h1[hi - 1]);
        assert(h2.subrange(lo, hi)[hi - 1 - lo] == h2[hi - 1]);
        assert(h1[hi - 1] == h2[hi - 1]);
        assert_seqs_equal!(h1.subrange(lo, hi - 1) == h2.subrange(lo, hi - 1), i => {
            assert(h1.subrange(lo, hi)[i] == h2.subrange(lo, hi)[i]);
        });
        lemma_seed_fold_window_only(h1, h2, lo, hi - 1);
    }
}

/// The channel-open seed derivation is deterministic: the two derived
/// 64-bit seeds are a function of the first sixteen bytes of the script
/// hash alone, so two runs over equal hashes reproduce both seeds bit for
/// bit, and the two seeds come from disjoint eight-byte windows.
pub proof fn lemma_seed_derivation_deterministic(h1: Seq<u8>, h2: Seq<u8>)
    requires
        h1.len() >= 16,
        h2.len() >= 16,
        h1.subrange(0, 16) == h2.subrange(0, 16),
    ensures
        seed_fold(h1, 0, 8) == seed_fold(h2, 0, 8),
        seed_fold(h1, 8, 16) == seed_fold(h2, 8, 16),
{
    assert_seqs_equal!(h1.subrange(0, 8) == h2.subrange(0, 8), i => {
        assert(h1.subrange(0, 16)[i] == h2.subrange(0, 16)[i]);
    });
    assert_seqs_equal!(h1.subrange(8, 16) == h2.subrange(8, 16), i => {
        assert(h1.subrange(8, 16)[i] == h1[i + 8]);
        assert(h2.subrange(8, 16)[i] == h2[i + 8]);
        assert(h1.subrange(0, 16)[i + 8] == h1[i + 8]);
        assert(h2.subrange(0, 16)[i + 8] == h2[i + 8]);
    });
    lemma_seed_fold_window_only(h1, h2, 0, 8);
    lemma_seed_fold_window_only(h1, h2, 8, 16);
}

/// One byte folded into the synchronizer state: rotate the state left by
/// eight bits, then mix the byte in.
pub open spec fn seed_step(s: u64, b: u8) -> u64 {
    ((s << 8) | (s >> 56)) ^ (b as u64)
}

/// The synchronizer state after re-initialization from `bytes`. The state
/// is a function of the byte sequence alone: the state held before a
/// reseed never enters it.
pub open spec fn seed_of(bytes: Seq<u8>) -> u64
    decreases bytes.len(),
{
    if bytes.len() == 0 {
        0
    } else {
        seed_step(seed_of(bytes.drop_last()), bytes.last())
    }
}

/// One xorshift step of the pseudo-random source.
pub open spec fn next_state(s: u64) -> u64 {
    let a = s ^ (s << 13);
    let b = a ^ (a >> 7);
    b ^ (b << 17)
}

/// The state after `n` draws from initial state `s`.
pub open spec fn state_after(s: u64, n: nat) -> u64
    decreases n,
{
    if n == 0 {
        s
    } else {
        next_state(state_after(s, (n - 1) as nat))
    }
}

/// The sequence of the first `n` draws from initial state `s`.
pub open spec fn draw_seq(s: u64, n: nat) -> Seq<u64> {
    Seq::new(n, |i: int| state_after(s, (i + 1) as nat))
}

/// The shared pseudo-random source. Both peers reseed it with the same
/// agreed byte sequence and then draw locally; no draw is ever exchanged.
pub struct RandomSeedSync {
    pub state: u64,
}

impl RandomSeedSync {
    pub fn new() -> (r: Self)
        ensures
            r.state == 0u64,
    {
        RandomSeedSync { state: 0 }
    }

    /// Deterministically re-initialize the source from `value`: the new
    /// state depends on `value` alone, never on the previous state.
    pub fn reseed(&mut self, value: &Vec<u8>)
        ensures
            final(self).state == seed_of(value@),
    {
        let mut s: u64 = 0;
        let mut j: usize = 0;
        while j < value.len()
            invariant
                j <= value@.len(),
                s == seed_of(value@.take(j as int)),
            decreases value@.len() - j,
        {
            let b = value[j];
            s = ((s << 8) | (s >> 56)) ^ (b as u64);
            proof {
                assert(value@.take(j + 1int).drop_last() =~= value@.take(j as int));
                assert(value@.take(j + 1int).last() == value@[j as int]);
            }
            j = j + 1;
        }
        proof {
            assert(value@.take(value@.len() as int) =~= value@);
        }
        self.state = s;
    }

    /// Draw the next pseudo-random value, advancing the state by one
    /// xorshift step.
    pub fn next(&mut self) -> (r: u64)
        ensures
            final(self).state == next_state(old(self).state),
            r == next_state(old(self).state),
    {
        let s = self.state;
        let a = s ^ (s << 13);
        let b = a ^ (a >> 7);
        let n = b ^ (b << 17);
        self.state = n;
        n
    }
}

/// Reseeding two independent synchronizers with the same byte sequence
/// puts both into the state determined by that sequence alone, and every
/// subsequent draw sequence of any length is then identical bit for bit on
/// both sides.
pub proof fn lemma_reseed_determinism(a: RandomSeedSync, b: RandomSeedSync, bytes: Seq<u8>, n: nat)
    requires
        a.state == seed_of(bytes),
        b.state == seed_of(bytes),
    ensures
        draw_seq(a.state, n) == draw_seq(b.state, n),
{
}

} // verus!
