//! Marsaglia's MWC256 multiply-with-carry random generator.
//!
//! The generator keeps a table of 256 words, a carry and a cyclic index.
//! The table is populated exactly once, on first use, by a
//! linear-congruential warm-up pass over the 32-bit seed; after that only
//! the multiply-with-carry recurrence mutates it. Every step of the
//! generator is pinned down by the spec functions below, so the whole
//! output stream is a function of the seed alone.

use vstd::prelude::*;

verus! {

/// Multiplier of the multiply-with-carry recurrence.
pub const MWC_MULT: u64 = 809430660;

/// Initial carry of a freshly seeded generator.
pub const INITIAL_CARRY: u32 = 362436;

/// Mathematical model of the generator state.
#[verifier::ext_equal]
pub struct RngModel {
    /// Contents of the 256-word table.
    pub q: Seq<u32>,
    /// Current carry of the recurrence.
    pub carry: u32,
    /// Whether the warm-up pass has run.
    pub initialized: bool,
    /// The 32-bit seed the warm-up pass reads.
    pub seed: u32,
    /// Cyclic index into the table.
    pub i: u8,
}

impl RngModel {
    /// The table always holds exactly 256 words.
    pub open spec fn wf(self) -> bool {
        self.q.len() == 256
    }
}

/// One step of the linear-congruential warm-up recurrence,
/// with 32-bit wraparound.
pub open spec fn lcg_step(j: u32) -> u32 {
    69069u32.wrapping_mul(j).wrapping_add(12345u32)
}

/// The warm-up value after `k` applications of `lcg_step` to the seed.
pub open spec fn lcg_iter(seed: u32, k: nat) -> u32
    decreases k,
{
    if k == 0 {
        seed
    } else {
        lcg_step(lcg_iter(seed, (k - 1) as nat))
    }
}

/// The table that the warm-up pass builds from a seed:
/// entry `k` holds the `(k + 1)`-th iterate of the recurrence.
pub open spec fn warm_table(seed: u32) -> Seq<u32> {
    Seq::new(256, |k: int| lcg_iter(seed, (k + 1) as nat))
}

/// The state of a freshly seeded generator: zeroed table, fixed carry,
/// index at 255 so that the first access wraps to 0.
pub open spec fn fresh_model(seed: u32) -> RngModel {
    RngModel {
        q: Seq::new(256, |_k: int| 0u32),
        carry: INITIAL_CARRY,
        initialized: false,
        seed: seed,
        i: 255u8,
    }
}

/// The state after the warm-up pass has certainly run: a state that was
/// already initialized is unchanged, an uninitialized one gets the warm
/// table.
pub open spec fn normalized(m: RngModel) -> RngModel {
    if m.initialized {
        m
    } else {
        RngModel { q: warm_table(m.seed), initialized: true, ..m }
    }
}

/// The cyclic successor of the table index.
pub open spec fn next_index(i: u8) -> u8 {
    i.wrapping_add(1u8)
}

/// The 64-bit product-plus-carry of one multiply-with-carry step taken
/// from an initialized state.
pub open spec fn mwc_t(m: RngModel) -> int {
    MWC_MULT * m.q[next_index(m.i) as int] + m.carry
}

/// The word an initialized state emits: the low 32 bits of `mwc_t`.
pub open spec fn step_output(m: RngModel) -> u32 {
    (mwc_t(m) % 0x1_0000_0000) as u32
}

/// The carry an initialized state keeps: the high 32 bits of `mwc_t`.
pub open spec fn step_carry(m: RngModel) -> u32 {
    (mwc_t(m) / 0x1_0000_0000) as u32
}

/// The successor of an initialized state: the emitted word replaces the
/// table entry at the advanced index, and the carry is replaced.
pub open spec fn step_model(m: RngModel) -> RngModel {
    RngModel {
        q: m.q.update(next_index(m.i) as int, step_output(m)),
        carry: step_carry(m),
        i: next_index(m.i),
        ..m
    }
}

/// The word one call of `next_u32` returns in state `m`
/// (warming the table up first if needed).
pub open spec fn draw_value(m: RngModel) -> u32 {
    step_output(normalized(m))
}

/// The state one call of `next_u32` leaves behind from state `m`.
pub open spec fn draw_state(m: RngModel) -> RngModel {
    step_model(normalized(m))
}

/// The state of a generator seeded with `seed` after `n` draws.
pub open spec fn model_after(seed: u32, n: nat) -> RngModel
    decreases n,
{
    if n == 0 {
        normalized(fresh_model(seed))
    } else {
        step_model(model_after(seed, (n - 1) as nat))
    }
}

/// The `n`-th word (counting from 0) of the output stream of a generator
/// seeded with `seed`.
pub open spec fn stream(seed: u32, n: nat) -> u32 {
    step_output(model_after(seed, n))
}

/// The little-endian 32-bit word held by a 4-byte seed.
pub open spec fn seed_word(b: Seq<u8>) -> u32 {
    (b[0] + b[1] * 0x100 + b[2] * 0x1_0000 + b[3] * 0x100_0000) as u32
}

/// After any number of draws the model is initialized, well formed, and
/// its next draw needs no further warm-up.
pub proof fn lemma_model_after_ready(seed: u32, n: nat)
    ensures
        model_after(seed, n).initialized,
        model_after(seed, n).wf(),
        stream(seed, n) == draw_value(model_after(seed, n)),
        model_after(seed, (n + 1) as nat) == draw_state(model_after(seed, n)),
    decreases n,
{
    if n > 0 {
        lemma_model_after_ready(seed, (n - 1) as nat);
    }
}

/// Determinism law: the output stream is a function of the seed alone,
/// so two generators given equal seeds emit equal words at every
/// position.
pub proof fn lemma_stream_determinism(seed1: u32, seed2: u32, n: nat)
    requires
        seed1 == seed2,
    ensures
        stream(seed1, n) == stream(seed2, n),
{
}

/// Marsaglia's MWC256 generator.
pub struct MarsagliaRng {
    q: Vec<u32>,
    carry: u32,
    mwc256_initialized: bool,
    mwc256_seed: u32,
    i: u8,
}

impl View for MarsagliaRng {
    type V = RngModel;

    closed spec fn view(&self) -> RngModel {
        RngModel {
            q: self.q@,
            carry: self.carry,
            initialized: self.mwc256_initialized,
            seed: self.mwc256_seed,
            i: self.i,
        }
    }
}

impl MarsagliaRng {
    /// Builds a generator from a 4-byte little-endian seed. The table is
    /// left for the warm-up pass; only the seed word is remembered.
    pub fn from_seed(seed: [u8; 4]) -> (r: Self)
        ensures
            r@ == fresh_model(seed_word(seed@)),
            r@.wf(),
    {
        let w: u32 = seed[0] as u32 + seed[1] as u32 * 0x100 + seed[2] as u32 * 0x1_0000
            + seed[3] as u32 * 0x100_0000;
        let r = MarsagliaRng {
            q: vec![0u32; 256],
            carry: INITIAL_CARRY,
            mwc256_initialized: false,
            mwc256_seed: w,
            i: 255,
        };
        proof {
            assert(r@.q =~= fresh_model(seed_word(seed@)).q);
            assert(r@ =~= fresh_model(seed_word(seed@)));
        }
        r
    }

    /// Runs the linear-congruential warm-up pass if it has not run yet;
    /// afterwards the state is the normalized one.
    pub fn ensure_initialized(&mut self)
        requires
            old(self)@.wf(),
        ensures
            final(self)@ == normalized(old(self)@),
            final(self)@.wf(),
    {
        if !self.mwc256_initialized {
            let mut j: u32 = self.mwc256_seed;
            let mut k: usize = 0;
            while k < 256
                invariant
                    k <= 256,
                    self.q@.len() == 256,
                    j == lcg_iter(self.mwc256_seed, k as nat),
                    forall|t: int|
                        0 <= t < k ==> self.q@[t] == warm_table(self.mwc256_seed)[t],
                    self.carry == old(self).carry,
                    self.mwc256_initialized == old(self).mwc256_initialized,
                    self.mwc256_seed == old(self).mwc256_seed,
                    self.i == old(self).i,
                decreases 256 - k,
            {
                j = 69069u32.wrapping_mul(j).wrapping_add(12345u32);
                self.q[k] = j;
                k += 1;
            }
            self.mwc256_initialized = true;
            proof {
                assert(self.q@ =~= warm_table(self.mwc256_seed));
                assert(self@ =~= normalized(old(self)@));
            }
        }
    }

    /// Draws the next 32-bit word: advance the cyclic index, form the
    /// 64-bit product-plus-carry, keep its high half as the carry, and
    /// store and return its low half.
    pub fn next_u32(&mut self) -> (r: u32)
        requires
            old(self)@.wf(),
        ensures
            final(self)@ == draw_state(old(self)@),
            r == draw_value(old(self)@),
            final(self)@.wf(),
    {
        self.ensure_initialized();
        self.i = self.i.wrapping_add(1);
        let idx: usize = self.i as usize;
        let t: u64 = MWC_MULT * (self.q[idx] as u64) + (self.carry as u64);
        self.carry = (t / 0x1_0000_0000) as u32;
        let out: u32 = (t % 0x1_0000_0000) as u32;
        self.q[idx] = out;
        out
    }

    /// Draws the next word, widened to 64 bits.
    pub fn next_u64(&mut self) -> (r: u64)
        requires
            old(self)@.wf(),
        ensures
            final(self)@ == draw_state(old(self)@),
            r == draw_value(old(self)@) as u64,
            final(self)@.wf(),
    {
        self.next_u32() as u64
    }
}

/// Selector for the uniform distribution derived from the generator:
/// each draw is the next 32-bit word mapped into the unit interval. The
/// floating-point mapping itself lives outside the verified core; this
/// type names the distribution so callers can pass it around.
pub struct MarsagliaRngDist {}

impl Default for MarsagliaRngDist {
    fn default() -> (r: Self)
        ensures
            r == (MarsagliaRngDist {}),
    {
        MarsagliaRngDist {}
    }
}

} // verus!

