//! A deterministic stream of random numbers keyed by a hashable seed.
//!
//! The engine is the 128-bit multiplicative PCG generator of `rand_pcg`,
//! seeded through `rand_seeder` from the hash of the seed value.
use rand::RngCore;
use rand_pcg::Mcg128Xsl64;
use rand_seeder::Seeder;
use std::hash::Hash;
use vstd::prelude::*;

verus! {

#[verifier::external_type_specification]
#[verifier::external_body]
pub struct ExMcg128Xsl64(Mcg128Xsl64);

/// The 128-bit state that a PCG engine holds.
pub uninterp spec fn engine_state(g: Mcg128Xsl64) -> u128;

/// Multiplier of the 128-bit PCG linear congruence.
pub const MULTIPLIER: u128 = 0x2360_ED05_1FC6_5DA4_4385_DF64_9FCC_F645;

/// One step of the engine: multiply the state by the multiplier modulo 2^128.
pub open spec fn next_state(s: u128) -> u128 {
    (s * MULTIPLIER) as u128
}

/// Rotation of a 64-bit word to the right by `k` places (taken modulo 64).
pub open spec fn rotate_right(x: u64, k: u64) -> u64 {
    let k = k % 64;
    if k == 0 {
        x
    } else {
        (x >> k) | (x << ((64 - k) as u64))
    }
}

/// The XSL RR output function: xor the two halves of the state, then rotate
/// right by the six highest bits of the state.
pub open spec fn xsl_rr(s: u128) -> u64 {
    let rot = (s >> 122u128) as u64;
    let xsl = ((s >> 64u128) as u64) ^ (s as u64);
    rotate_right(xsl, rot)
}

/// The next 32-bit draw of an engine in state `s`: the low half of the
/// output taken after one step.
pub open spec fn draw_of(s: u128) -> u32 {
    xsl_rr(next_state(s)) as u32
}

/// The state of an engine after `n` steps from state `s`.
pub open spec fn state_after(s: u128, n: nat) -> u128
    decreases n,
{
    if n == 0 {
        s
    } else {
        state_after(next_state(s), (n - 1) as nat)
    }
}

/// The first `n` draws of an engine that starts in state `s`.
pub open spec fn draws(s: u128, n: nat) -> Seq<u32>
    decreases n,
{
    if n == 0 {
        Seq::empty()
    } else {
        seq![draw_of(s)].add(draws(next_state(s), (n - 1) as nat))
    }
}

/// Relies on `rand_seeder::Seeder::from(h).make_rng()`: the seed is hashed
/// and the hash fills the 16 seed bytes of `Mcg128Xsl64::from_seed`, whose
/// `Mcg128Xsl64::new` sets the lowest bit of the state.
#[verifier::external_body]
fn seeded_engine<T: Hash>(seed: T) -> (r: Mcg128Xsl64)
    ensures
        engine_state(r) % 2 == 1,
{
    Seeder::from(seed).make_rng()
}

/// Relies on `<Mcg128Xsl64 as RngCore>::next_u32`: it calls `next_u64`,
/// which multiplies the state by `MULTIPLIER` (wrapping) and returns
/// `output_xsl_rr` of the new state, and keeps its low 32 bits.
#[verifier::external_body]
fn engine_next_u32(g: &mut Mcg128Xsl64) -> (r: u32)
    ensures
        engine_state(*final(g)) == next_state(engine_state(*old(g))),
        r == draw_of(engine_state(*old(g))),
{
    g.next_u32()
}

/// A random stream keyed by a seed value that it keeps.
pub struct SeededRng<T> {
    rng: Mcg128Xsl64,
    hash: T,
}

impl<T> SeededRng<T> {
    /// The state of the stream's engine.
    pub closed spec fn state(&self) -> u128 {
        engine_state(self.rng)
    }

    /// The seed the stream was built from.
    pub closed spec fn seed(&self) -> T {
        self.hash
    }

    /// A multiplicative engine must hold an odd state.
    pub open spec fn wf(&self) -> bool {
        self.state() % 2 == 1
    }
}

impl<T: Hash + Copy> SeededRng<T> {
    /// Builds a stream from a seed.
    pub fn new(hash: T) -> (r: SeededRng<T>)
        ensures
            r.seed() == hash,
            r.wf(),
    {
        let rng = seeded_engine(hash);
        SeededRng { rng: rng, hash: hash }
    }

    /// Draws the next uniform 32-bit integer and advances the engine.
    pub fn gen_u32(&mut self) -> (r: u32)
        requires
            old(self).wf(),
        ensures
            r == draw_of(old(self).state()),
            final(self).state() == next_state(old(self).state()),
            final(self).seed() == old(self).seed(),
            final(self).wf(),
    {
        proof {
            lemma_step_keeps_odd(self.state());
        }
        engine_next_u32(&mut self.rng)
    }

    /// The seed the stream was built from.
    pub fn hash(&self) -> (r: &T)
        ensures
            *r == self.seed(),
    {
        &self.hash
    }
}

/// A step of the engine keeps its state odd.
pub proof fn lemma_step_keeps_odd(s: u128)
    requires
        s % 2 == 1,
    ensures
        next_state(s) % 2 == 1,
{
    let m: u128 = MULTIPLIER;
    assert(m % 2 == 1);
    assert((s * m) as u128 % 2 == 1) by (bit_vector)
        requires
            s % 2 == 1,
            m % 2 == 1,
    ;
}

/// The draws of a stream are fixed by the state it starts in: its first
/// `n + 1` draws are its first `n` draws followed by the draw of the state
/// reached after `n` steps, which is what `n + 1` calls of `gen_u32` return.
pub proof fn lemma_draws_extend(s: u128, n: nat)
    ensures
        draws(s, n).len() == n,
        draws(s, n + 1) == draws(s, n).push(draw_of(state_after(s, n))),
        state_after(s, n + 1) == next_state(state_after(s, n)),
    decreases n,
{
    reveal_with_fuel(state_after, 2);
    reveal_with_fuel(draws, 2);
    if n > 0 {
        lemma_draws_extend(next_state(s), (n - 1) as nat);
        assert(draws(s, n + 1) =~= draws(s, n).push(draw_of(state_after(s, n))));
    } else {
        assert(draws(s, 1) =~= seq![draw_of(s)]);
    }
}

/// Two streams in the same state, whatever their seeds, give the same
/// sequence of draws for any number of draws and end in the same state.
pub proof fn lemma_same_state_same_draws<T, U>(a: SeededRng<T>, b: SeededRng<U>, n: nat)
    requires
        a.state() == b.state(),
    ensures
        draws(a.state(), n) == draws(b.state(), n),
        state_after(a.state(), n) == state_after(b.state(), n),
{
}

} // verus!
