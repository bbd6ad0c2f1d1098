use vstd::prelude::*;

use crate::data::{UVec2, UVec3};

verus! {

/// The avalanche mixer that advances the generator: shift-and-add and
/// shift-and-xor steps, all wrapping modulo 2^32.
pub open spec fn hash1_spec(x: u32) -> u32 {
    let x = x.wrapping_add(x << 10u32);
    let x = x ^ (x >> 6u32);
    let x = x.wrapping_add(x << 3u32);
    let x = x ^ (x >> 11u32);
    x.wrapping_add(x << 15u32)
}

/// Mixes the bits of `x` into a new 32-bit value.
pub fn hash1(x: u32) -> (r: u32)
    ensures
        r == hash1_spec(x),
{
    let mut x = x;
    x = x.wrapping_add(x << 10u32);
    x ^= x >> 6u32;
    x = x.wrapping_add(x << 3u32);
    x ^= x >> 11u32;
    x = x.wrapping_add(x << 15u32);
    x
}

/// Multiplier of the linear congruential step used to combine two values.
pub const LCG_MULTIPLIER: u32 = 1664525;

/// Increment of the linear congruential step used to combine two values.
pub const LCG_INCREMENT: u32 = 1013904223;

/// A linear congruential step over `x` and `y`, followed by Mersenne Twister
/// tempering, all wrapping modulo 2^32.
pub open spec fn hash_combine2_spec(x: u32, y: u32) -> u32 {
    let seed = x.wrapping_mul(LCG_MULTIPLIER).wrapping_add(y).wrapping_add(LCG_INCREMENT).wrapping_mul(
        LCG_MULTIPLIER,
    );
    let seed = seed ^ (seed >> 11u32);
    let seed = seed ^ ((seed << 7u32) & 0x9d2c5680u32);
    let seed = seed ^ ((seed << 15u32) & 0xefc60000u32);
    seed ^ (seed >> 18u32)
}

/// Combines two values into one well-mixed 32-bit value.
pub fn hash_combine2(x: u32, y: u32) -> (r: u32)
    ensures
        r == hash_combine2_spec(x, y),
{
    let mut seed = x.wrapping_mul(LCG_MULTIPLIER).wrapping_add(y).wrapping_add(
        LCG_INCREMENT,
    ).wrapping_mul(LCG_MULTIPLIER);
    seed ^= seed >> 11u32;
    seed ^= (seed << 7u32) & 0x9d2c5680u32;
    seed ^= (seed << 15u32) & 0xefc60000u32;
    seed ^= seed >> 18u32;
    seed
}

/// The hash of a pair of values.
pub open spec fn hash2_spec(v: UVec2) -> u32 {
    hash_combine2_spec(v.x, hash1_spec(v.y))
}

/// The hash of a triple of values.
pub open spec fn hash3_spec(v: UVec3) -> u32 {
    hash_combine2_spec(v.x, hash2_spec(UVec2 { x: v.y, y: v.z }))
}

/// Hashes a pair of values, such as a pixel position.
pub fn hash2(v: UVec2) -> (r: u32)
    ensures
        r == hash2_spec(v),
{
    hash_combine2(v.x, hash1(v.y))
}

/// Hashes a triple of values, such as a pixel position and a frame seed.
pub fn hash3(v: UVec3) -> (r: u32)
    ensures
        r == hash3_spec(v),
{
    hash_combine2(v.x, hash2(UVec2 { x: v.y, y: v.z }))
}

/// The 23 bits of an IEEE-754 single-precision mantissa.
pub const MANTISSA_MASK: u32 = 0x007f_ffff;

/// The bit pattern of the single-precision float `1.0`.
pub const ONE_BITS: u32 = 0x3f80_0000;

/// The bit pattern of a float in `[1, 2)` whose mantissa is the low 23 bits
/// of `h`.
pub open spec fn unit_float_bits_spec(h: u32) -> u32 {
    (h & MANTISSA_MASK) | ONE_BITS
}

/// Builds the bits of a float in `[1, 2)` from the low 23 bits of `h`:
/// sign 0, biased exponent 127, mantissa taken from `h`. Read as an `f32`
/// and reduced by one, the result is a uniform draw in `[0, 1)`.
pub fn unit_float_bits(h: u32) -> (bits: u32)
    ensures
        bits == unit_float_bits_spec(h),
        bits >> 23u32 == 127,
        bits & MANTISSA_MASK == h & MANTISSA_MASK,
        ONE_BITS <= bits < 0x4000_0000,
{
    let bits = (h & MANTISSA_MASK) | ONE_BITS;
    assert(bits >> 23u32 == 127 && bits & 0x007f_ffff == h & 0x007f_ffff && 0x3f80_0000 <= bits
        < 0x4000_0000) by (bit_vector)
        requires
            bits == (h & 0x007f_ffff) | 0x3f80_0000,
    ;
    bits
}

/// A deterministic pseudo-random generator whose whole state is one 32-bit
/// value.
pub struct Rand {
    current: u32,
}

impl View for Rand {
    type V = u32;

    open spec fn view(&self) -> u32 {
        self.state()
    }
}

impl Rand {
    /// The current state of the generator.
    pub closed spec fn state(&self) -> u32 {
        self.current
    }

    /// The generator whose state is `seed`.
    pub closed spec fn seeded(seed: u32) -> Rand {
        Rand { current: seed }
    }

    /// A generator whose state is `seed`.
    pub fn new(seed: u32) -> (r: Rand)
        ensures
            r@ == seed,
    {
        Rand { current: seed }
    }

    /// Advances the state by one application of the mixer and returns the
    /// new state.
    pub fn gen(&mut self) -> (r: u32)
        ensures
            r == hash1_spec(old(self)@),
            final(self)@ == r,
    {
        let next = hash1(self.current);
        self.current = next;
        next
    }
}

impl From<UVec2> for Rand {
    /// A generator seeded with the hash of a pair, such as a pixel position.
    fn from(value: UVec2) -> (r: Rand)
        ensures
            r@ == hash2_spec(value),
    {
        Rand::new(hash2(value))
    }
}

impl vstd::std_specs::convert::FromSpecImpl<UVec2> for Rand {
    open spec fn obeys_from_spec() -> bool {
        true
    }

    open spec fn from_spec(v: UVec2) -> Rand {
        Rand::seeded(hash2_spec(v))
    }
}

impl From<UVec3> for Rand {
    /// A generator seeded with the hash of a triple, such as a pixel position
    /// and a frame seed.
    fn from(value: UVec3) -> (r: Rand)
        ensures
            r@ == hash3_spec(value),
    {
        Rand::new(hash3(value))
    }
}

impl vstd::std_specs::convert::FromSpecImpl<UVec3> for Rand {
    open spec fn obeys_from_spec() -> bool {
        true
    }

    open spec fn from_spec(v: UVec3) -> Rand {
        Rand::seeded(hash3_spec(v))
    }
}

/// The values that `n` successive calls of `gen` return on a generator whose
/// state is `seed`.
pub open spec fn draws(seed: u32, n: nat) -> Seq<u32>
    decreases n,
{
    if n == 0 {
        Seq::empty()
    } else {
        seq![hash1_spec(seed)] + draws(hash1_spec(seed), (n - 1) as nat)
    }
}

/// `hash1_spec` applied `k` times to `seed`.
pub open spec fn hash1_iterate(seed: u32, k: nat) -> u32
    decreases k,
{
    if k == 0 {
        seed
    } else {
        hash1_spec(hash1_iterate(seed, (k - 1) as nat))
    }
}

/// A generator is a pure function of its seed: the `i`-th of `n` successive
/// draws from a fresh generator seeded with `seed` is the mixer applied
/// `i + 1` times to `seed`, whatever the run.
pub proof fn lemma_draws_determined(seed: u32, n: nat)
    ensures
        draws(seed, n).len() == n,
        forall|i: int| 0 <= i < n ==> #[trigger] draws(seed, n)[i] == hash1_iterate(seed, (i + 1) as nat),
    decreases n,
{
    if n > 0 {
        let next = hash1_spec(seed);
        lemma_draws_determined(next, (n - 1) as nat);
        assert forall|i: int| 0 <= i < n implies #[trigger] draws(seed, n)[i] == hash1_iterate(seed, (i + 1) as nat) by {
            assert(hash1_iterate(seed, 0) == seed);
            if i > 0 {
                assert(draws(seed, n)[i] == draws(next, (n - 1) as nat)[i - 1]);
                lemma_iterate_shift(seed, i as nat);
            }
        }
    }
}

/// Iterating from the mixed seed is iterating once more from the seed.
proof fn lemma_iterate_shift(seed: u32, k: nat)
    ensures
        hash1_iterate(hash1_spec(seed), k) == hash1_iterate(seed, k + 1),
    decreases k,
{
    assert(hash1_iterate(seed, 0) == seed);
    if k > 0 {
        lemma_iterate_shift(seed, (k - 1) as nat);
    }
}

} // verus!
