//! Seedable pseudo-random generators used to place cellular feature points.
//!
//! Both generators are pure integer state machines: each draw advances the
//! state by a fixed step function and derives a 64-bit output from it, which
//! [`FromBits`] then narrows to the requested integer type.
use vstd::prelude::*;

verus! {

/// Default PCG multiplier (Knuth's MMIX constant).
pub const PCG_MULTIPLIER: u64 = 6364136223846793005;

/// Default PCG increment.
pub const PCG_INCREMENT: u64 = 1442659040888963407;

/// State that `PCG::default` starts from.
pub const PCG_DEFAULT_STATE: u64 = 8967452310258;

/// Seed that `Xorshift::default` is derived from.
pub const XORSHIFT_DEFAULT_SEED: u64 = 382548641;

/// Upper bound (exclusive) of the draws that read as `true`: the draws whose
/// fraction of the full 64-bit range lies below one half once the draw is
/// rounded to 53 significant bits.
pub const BOOL_THRESHOLD: u64 = 0x7FFF_FFFF_FFFF_FE00;

/// Rotation of a 64-bit word to the left by `n mod 64` bits.
pub open spec fn rotl64(x: u64, n: u64) -> u64 {
    let r = n % 64;
    if r == 0 {
        x
    } else {
        (x << r) | (x >> (64 - r) as u64)
    }
}

/// The state that follows `state` in a PCG sequence.
pub open spec fn pcg_step(state: u64, multiplier: u64, increment: u64) -> u64 {
    state.wrapping_mul(multiplier).wrapping_add(increment)
}

/// The output that PCG derives from `state` (xorshift high, random rotation).
pub open spec fn pcg_output(state: u64) -> u64 {
    rotl64(state ^ (state >> 18u64), (state >> 5u64) % 64)
}

/// SplitMix64 finaliser, used to spread a seed over all 64 bits.
pub open spec fn split_max_spec(seed: u64) -> u64 {
    let a = seed.wrapping_add(0x9E3779B97F4A7C15);
    let b = (a ^ (a >> 30u64)).wrapping_mul(0xBF58476D1CE4E5B9);
    let c = (b ^ (b >> 27u64)).wrapping_mul(0x94D049BB133111EB);
    c ^ (c >> 31u64)
}

/// The state that follows `state` in a xorshift* sequence.
pub open spec fn xorshift_step(state: u64) -> u64 {
    let a = state ^ (state >> 12u64);
    let b = a ^ (a << 25u64);
    b ^ (b >> 27u64)
}

/// The output that xorshift* derives from the state it has just stepped to.
pub open spec fn xorshift_output(state: u64) -> u64 {
    state.wrapping_mul(0x2545F4914F6CDD1D)
}

/// A value that a 64-bit draw can be narrowed to.
pub trait FromBits: Sized {
    /// The value that the draw `bits` stands for.
    spec fn from_bits_spec(bits: u64) -> Self;

    fn from_bits(bits: u64) -> (r: Self)
        ensures
            r == Self::from_bits_spec(bits),
    ;
}

impl FromBits for u64 {
    open spec fn from_bits_spec(bits: u64) -> u64 {
        bits
    }

    fn from_bits(bits: u64) -> (r: u64) {
        bits
    }
}

impl FromBits for u32 {
    open spec fn from_bits_spec(bits: u64) -> u32 {
        bits as u32
    }

    fn from_bits(bits: u64) -> (r: u32) {
        #[verifier::truncate]
        (bits as u32)
    }
}

impl FromBits for u16 {
    open spec fn from_bits_spec(bits: u64) -> u16 {
        bits as u16
    }

    fn from_bits(bits: u64) -> (r: u16) {
        #[verifier::truncate]
        (bits as u16)
    }
}

impl FromBits for u8 {
    open spec fn from_bits_spec(bits: u64) -> u8 {
        bits as u8
    }

    fn from_bits(bits: u64) -> (r: u8) {
        #[verifier::truncate]
        (bits as u8)
    }
}

impl FromBits for i64 {
    open spec fn from_bits_spec(bits: u64) -> i64 {
        bits as i64
    }

    fn from_bits(bits: u64) -> (r: i64) {
        #[verifier::truncate]
        (bits as i64)
    }
}

impl FromBits for i32 {
    open spec fn from_bits_spec(bits: u64) -> i32 {
        bits as i32
    }

    fn from_bits(bits: u64) -> (r: i32) {
        #[verifier::truncate]
        (bits as i32)
    }
}

impl FromBits for i16 {
    open spec fn from_bits_spec(bits: u64) -> i16 {
        bits as i16
    }

    fn from_bits(bits: u64) -> (r: i16) {
        #[verifier::truncate]
        (bits as i16)
    }
}

impl FromBits for i8 {
    open spec fn from_bits_spec(bits: u64) -> i8 {
        bits as i8
    }

    fn from_bits(bits: u64) -> (r: i8) {
        #[verifier::truncate]
        (bits as i8)
    }
}

impl FromBits for bool {
    open spec fn from_bits_spec(bits: u64) -> bool {
        bits < BOOL_THRESHOLD
    }

    fn from_bits(bits: u64) -> (r: bool) {
        bits < BOOL_THRESHOLD
    }
}

/// Rotates `x` to the left by `n mod 64` bits.
fn rotate_left(x: u64, n: u64) -> (r: u64)
    ensures
        r == rotl64(x, n),
{
    let r = n % 64;
    if r == 0 {
        x
    } else {
        (x << r) | (x >> (64 - r))
    }
}

/// Spreads `seed` over all 64 bits (SplitMix64 finaliser).
pub fn split_max(seed: u64) -> (r: u64)
    ensures
        r == split_max_spec(seed),
{
    let a = seed.wrapping_add(0x9E3779B97F4A7C15);
    let b = (a ^ (a >> 30)).wrapping_mul(0xBF58476D1CE4E5B9);
    let c = (b ^ (b >> 27)).wrapping_mul(0x94D049BB133111EB);
    c ^ (c >> 31)
}

/// Permuted congruential generator, PCG-XSH-RR variant.
pub struct PCG {
    seed: u64,
    multiplier: u64,
    increment: u64,
}

/// The whole state of a [`PCG`]: current state, multiplier, increment.
pub struct PcgView {
    pub state: u64,
    pub multiplier: u64,
    pub increment: u64,
}

impl View for PCG {
    type V = PcgView;

    closed spec fn view(&self) -> PcgView {
        PcgView { state: self.seed, multiplier: self.multiplier, increment: self.increment }
    }
}

impl PCG {
    /// A generator with the default multiplier and increment.
    pub fn new(seed: u64) -> (r: PCG)
        ensures
            r@ == (PcgView {
                state: seed.wrapping_add(PCG_INCREMENT),
                multiplier: PCG_MULTIPLIER,
                increment: PCG_INCREMENT,
            }),
    {
        PCG::new_with_multiplier(seed, PCG_MULTIPLIER, PCG_INCREMENT)
    }

    /// A generator with the default multiplier and the given increment.
    pub fn new_with_increment(seed: u64, increment: u64) -> (r: PCG)
        ensures
            r@ == (PcgView {
                state: seed.wrapping_add(increment),
                multiplier: PCG_MULTIPLIER,
                increment,
            }),
    {
        PCG::new_with_multiplier(seed, PCG_MULTIPLIER, increment)
    }

    /// A generator with the given multiplier and increment; the seed is
    /// offset by the increment.
    pub fn new_with_multiplier(seed: u64, multiplier: u64, increment: u64) -> (r: PCG)
        ensures
            r@ == (PcgView { state: seed.wrapping_add(increment), multiplier, increment }),
    {
        PCG { seed: seed.wrapping_add(increment), multiplier, increment }
    }

    /// The generator that `Default` gives.
    pub fn default() -> (r: PCG)
        ensures
            r@ == (PcgView {
                state: PCG_DEFAULT_STATE,
                multiplier: PCG_MULTIPLIER,
                increment: PCG_INCREMENT,
            }),
    {
        PCG { seed: PCG_DEFAULT_STATE, multiplier: PCG_MULTIPLIER, increment: PCG_INCREMENT }
    }

    /// Draws the next 64-bit output and advances the state.
    pub fn next_u64(&mut self) -> (r: u64)
        ensures
            r == pcg_output(old(self)@.state),
            final(self)@ == (PcgView {
                state: pcg_step(old(self)@.state, old(self)@.multiplier, old(self)@.increment),
                ..old(self)@
            }),
    {
        let x = self.seed;
        self.seed = x.wrapping_mul(self.multiplier).wrapping_add(self.increment);
        let rot = (x >> 5) % 64;
        rotate_left(x ^ (x >> 18), rot)
    }

    /// Draws the next output as a fraction of the largest 64-bit value.
    pub fn next_fraction<T: crate::float::Float>(&mut self) -> (r: T)
        ensures
            r == T::of_draw(pcg_output(old(self)@.state)),
            final(self)@ == (PcgView {
                state: pcg_step(old(self)@.state, old(self)@.multiplier, old(self)@.increment),
                ..old(self)@
            }),
    {
        let bits = self.next_u64();
        T::from_draw(bits)
    }

    /// Draws the next value of type `T`.
    pub fn next<T: FromBits>(&mut self) -> (r: T)
        ensures
            r == T::from_bits_spec(pcg_output(old(self)@.state)),
            final(self)@ == (PcgView {
                state: pcg_step(old(self)@.state, old(self)@.multiplier, old(self)@.increment),
                ..old(self)@
            }),
    {
        let bits = self.next_u64();
        T::from_bits(bits)
    }
}

/// Xorshift* generator over a 64-bit state.
pub struct Xorshift {
    seed: u64,
}

impl View for Xorshift {
    type V = u64;

    closed spec fn view(&self) -> u64 {
        self.seed
    }
}

impl Xorshift {
    /// A generator whose state is the seed spread by [`split_max`].
    pub fn new(seed: u64) -> (r: Xorshift)
        ensures
            r@ == split_max_spec(seed),
    {
        Xorshift { seed: split_max(seed) }
    }

    /// The generator that `Default` gives.
    pub fn default() -> (r: Xorshift)
        ensures
            r@ == split_max_spec(XORSHIFT_DEFAULT_SEED),
    {
        Xorshift::new(XORSHIFT_DEFAULT_SEED)
    }

    /// Steps the state and draws the output derived from the new state.
    pub fn next_u64(&mut self) -> (r: u64)
        ensures
            final(self)@ == xorshift_step(old(self)@),
            r == xorshift_output(final(self)@),
    {
        let mut x = self.seed;
        x = x ^ (x >> 12);
        x = x ^ (x << 25);
        x = x ^ (x >> 27);
        self.seed = x;
        x.wrapping_mul(0x2545F4914F6CDD1D)
    }

    /// Draws the next output as a fraction of the largest 64-bit value.
    pub fn next_fraction<T: crate::float::Float>(&mut self) -> (r: T)
        ensures
            final(self)@ == xorshift_step(old(self)@),
            r == T::of_draw(xorshift_output(final(self)@)),
    {
        let bits = self.next_u64();
        T::from_draw(bits)
    }

    /// Draws the next value of type `T`.
    pub fn next<T: FromBits>(&mut self) -> (r: T)
        ensures
            final(self)@ == xorshift_step(old(self)@),
            r == T::from_bits_spec(xorshift_output(final(self)@)),
    {
        let bits = self.next_u64();
        T::from_bits(bits)
    }
}

} // verus!
