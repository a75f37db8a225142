//! Integer decisions of the flow language model: which noise seed each
//! generated frame draws from, and which weight bundles fit a configuration.

use vstd::prelude::*;
use vstd::arithmetic::div_mod::{lemma_mod_multiples_vanish, lemma_mul_mod_noop_left, lemma_small_mod};

verus! {

broadcast use vstd::string::group_string_axioms;

/// The odd 64-bit constant a frame's seed is multiplied by.
pub const FRAME_SEED_MIX: u64 = 0x9E3779B97F4A7C15;

/// The inverse of `FRAME_SEED_MIX` modulo 2^64.
pub open spec fn frame_seed_mix_inverse() -> int {
    0xf1de83e19937733d
}

/// 2^64.
pub open spec fn two_to_64() -> int {
    0x1_0000_0000_0000_0000
}

/// The seed of the noise for autoregressive step `step` under base seed
/// `seed`: the sum of both, wrapped to 64 bits, times `FRAME_SEED_MIX`,
/// wrapped to 64 bits.
pub open spec fn frame_seed_of(seed: u64, step: int) -> int {
    ((seed + step) % two_to_64()) * FRAME_SEED_MIX % two_to_64()
}

/// The noise seed for step `step`: none without a base seed (fresh entropy
/// then), else `frame_seed_of(seed, step)`.
pub fn frame_seed(seed: Option<u64>, step: usize) -> (r: Option<u64>)
    ensures
        match seed {
            None => r is None,
            Some(s) => r matches Some(f) && f == frame_seed_of(s, step as int) && f as int
                == ((s as int + step as int) % 0x1_0000_0000_0000_0000) * 0x9E3779B97F4A7C15
                % 0x1_0000_0000_0000_0000,
        },
{
    match seed {
        None => None,
        Some(s) => {
            let sum = s.wrapping_add(step as u64);
            assert(sum == (s + step) % two_to_64()) by {
                if s + step >= two_to_64() {
                    lemma_mod_multiples_vanish(1, s + step - two_to_64(), two_to_64());
                    lemma_small_mod((s + step - two_to_64()) as nat, two_to_64() as nat);
                } else {
                    lemma_small_mod((s + step) as nat, two_to_64() as nat);
                }
            }
            Some(sum.wrapping_mul(FRAME_SEED_MIX))
        },
    }
}

/// Multiplying by `FRAME_SEED_MIX` modulo 2^64 is undone by multiplying by
/// its inverse.
proof fn lemma_mix_invertible(x: int)
    requires
        0 <= x < two_to_64(),
    ensures
        (x * FRAME_SEED_MIX % two_to_64()) * frame_seed_mix_inverse() % two_to_64() == x,
{
    let m = two_to_64();
    let k = FRAME_SEED_MIX as int;
    let i = frame_seed_mix_inverse();
    lemma_mul_mod_noop_left(x * k, i, m);
    assert(k * i == 1 + 10771413168148108919 * m);
    assert(x * k * i == m * (x * 10771413168148108919) + x) by (nonlinear_arith)
        requires
            k * i == 1 + 10771413168148108919 * m,
    ;
    lemma_mod_multiples_vanish(x * 10771413168148108919, x, m);
    lemma_small_mod(x as nat, m as nat);
}

/// Under one base seed, different autoregressive steps draw from different
/// noise seeds, so no two frames repeat the same draw.
pub proof fn lemma_frame_seeds_distinct(seed: u64, i: usize, j: usize)
    requires
        i != j,
    ensures
        frame_seed_of(seed, i as int) != frame_seed_of(seed, j as int),
{
    let m = two_to_64();
    let a = (seed + i) % m;
    let b = (seed + j) % m;
    assert(a != b) by {
        assert(usize::MAX < m);
        if seed + i >= m {
            lemma_mod_multiples_vanish(1, seed + i - m, m);
        }
        if seed + j >= m {
            lemma_mod_multiples_vanish(1, seed + j - m, m);
        }
        lemma_small_mod((seed + i - if seed + i >= m { m } else { 0 }) as nat, m as nat);
        lemma_small_mod((seed + j - if seed + j >= m { m } else { 0 }) as nat, m as nat);
    }
    lemma_mix_invertible(a);
    lemma_mix_invertible(b);
}

/// The frame seed in closed form: the base seed plus the step, wrapped to 64
/// bits, times 0x9E3779B97F4A7C15, wrapped to 64 bits.
pub proof fn lemma_frame_seed_closed_form(seed: u64, step: int)
    ensures
        frame_seed_of(seed, step) == ((seed as int + step) % 0x1_0000_0000_0000_0000)
            * 0x9E3779B97F4A7C15 % 0x1_0000_0000_0000_0000,
        0 <= frame_seed_of(seed, step) < 0x1_0000_0000_0000_0000,
{
}

/// At one step, different base seeds draw from different noise seeds, so
/// runs with different seeds never share a frame's noise.
pub proof fn lemma_frame_seeds_distinct_across_seeds(s: u64, t: u64, step: usize)
    requires
        s != t,
    ensures
        frame_seed_of(s, step as int) != frame_seed_of(t, step as int),
{
    let m = two_to_64();
    let a = (s + step) % m;
    let b = (t + step) % m;
    assert(a != b) by {
        assert(usize::MAX < m);
        if s + step >= m {
            lemma_mod_multiples_vanish(1, s + step - m, m);
        }
        if t + step >= m {
            lemma_mod_multiples_vanish(1, t + step - m, m);
        }
        lemma_small_mod((s + step - if s + step >= m { m } else { 0 }) as nat, m as nat);
        lemma_small_mod((t + step - if t + step >= m { m } else { 0 }) as nat, m as nat);
    }
    lemma_mix_invertible(a);
    lemma_mix_invertible(b);
}

/// A configuration asks for a frame that the weights do not hold.
pub enum FlowLmError {
    /// The configuration sets `flow_lm.insert_bos_before_voice`, but the
    /// weights hold no `flow_lm.bos_before_voice` tensor.
    MissingBosBeforeVoice,
}

impl FlowLmError {
    /// The message that explains the error.
    pub fn message(&self) -> (r: String)
        ensures
            r@ == "config sets flow_lm.insert_bos_before_voice=true but the weights contain no flow_lm.bos_before_voice tensor"@,
    {
        String::from_str(
            "config sets flow_lm.insert_bos_before_voice=true but the weights contain no flow_lm.bos_before_voice tensor",
        )
    }
}

/// Whether weights fit a configuration as far as the voice-conditioning BOS
/// frame goes: a configuration that inserts it needs weights that hold it.
pub fn check_bos_before_voice(insert_bos_before_voice: bool, has_bos_before_voice: bool) -> (r: Result<(), FlowLmError>)
    ensures
        r is Err <==> (insert_bos_before_voice && !has_bos_before_voice),
{
    if insert_bos_before_voice && !has_bos_before_voice {
        Err(FlowLmError::MissingBosBeforeVoice)
    } else {
        Ok(())
    }
}

} // verus!
