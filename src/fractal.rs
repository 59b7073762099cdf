//! Fractal combinators: sum a primitive generator over octaves of rising
//! frequency (fbm, billowing, ridged-multi), and the octave-summing Perlin
//! task.
use vstd::prelude::*;
use crate::float::Float;
use crate::math::FractalBlender;
use crate::source::{Noise, Perlin as PerlinNoise};
use crate::task::Arity;

verus! {

/// Octaves that the ridged-multi tables cover.
pub const MAX_OCTAVES: usize = 20;

/// How octaves are combined.
#[derive(Clone, Copy, Debug, PartialEq, Eq, Structural)]
pub enum FractalType {
    /// Folded octaves, `2·|s| − 1`.
    Billowing,
    /// Fractal Brownian motion: a weighted sum of octaves.
    Brownian,
    /// Ridges `(offset − |s|)²` weighted by a precomputed table.
    RidgedMulti,
}

/// The primitive generator a fractal drives.
#[derive(Clone, Copy, Debug, PartialEq, Eq, Structural)]
pub enum FractalSource {
    Perlin,
}

/// Octave parameters shared by the fractal types.
#[derive(Clone, Copy, Debug)]
pub struct NoiseConfig<T> {
    pub octaves: u16,
    pub lacunarity: T,
    pub gain: T,
    pub frequency: T,
    pub amplitude: T,
}

/// An affine map `v·scale + bias`.
#[derive(Clone, Copy, Debug)]
pub struct ScaleBias<T> {
    pub scale: T,
    pub bias: T,
}

/// Ridged-multi tables: the weight of each octave and, for each octave
/// count, the map of the estimated range of the sum onto `[−1, 1]`.
#[derive(Debug)]
pub struct PreCalc<T> {
    offset: T,
    exponent: T,
    gain: Vec<T>,
    scale_bias: Vec<ScaleBias<T>>,
}

/// The estimated `(minimum, maximum)` of a ridged sum over `k` octaves:
/// `Σ (offset−1)²·gain_i` and `Σ offset²·gain_i`.
pub open spec fn bounds_spec<T: Float>(lacunarity: T, exp: T, offset: T, k: nat) -> (T, T)
    decreases k,
{
    if k == 0 {
        (crate::float::zero::<T>(), crate::float::zero::<T>())
    } else {
        let (mn, mx) = bounds_spec(lacunarity, exp, offset, (k - 1) as nat);
        let g = octave_gain_spec(lacunarity, exp, (k - 1) as u16);
        let o1 = offset.diff(crate::float::one::<T>());
        (mn.sum(o1.prod(o1).prod(g)), mx.sum(offset.prod(offset).prod(g)))
    }
}

/// The map for `i + 1` octaves: the scale `2/(max − min)` and bias
/// `−1 − min·scale` that send the estimated minimum to −1 and maximum to 1.
pub open spec fn map_spec<T: Float>(lacunarity: T, exp: T, offset: T, i: nat) -> ScaleBias<T> {
    let (mn, mx) = bounds_spec(lacunarity, exp, offset, i + 1);
    let scale = crate::float::two::<T>().quot(mx.diff(mn));
    ScaleBias { scale, bias: crate::float::one::<T>().negated().diff(mn.prod(scale)) }
}

/// Weight of octave `i`: `lacunarity^(−i·exp)`.
pub open spec fn octave_gain_spec<T: Float>(lacunarity: T, exp: T, i: u16) -> T {
    lacunarity.pow_of(T::of_u16(i).negated().prod(exp))
}

impl<T> PreCalc<T> {
    /// Both tables cover `MAX_OCTAVES` octaves.
    #[verifier::type_invariant]
    spec fn inv(self) -> bool {
        self.gain@.len() == MAX_OCTAVES && self.scale_bias@.len() == MAX_OCTAVES
    }
}

impl<T: Float> PreCalc<T> {
    /// The weight of each octave.
    pub closed spec fn gains(&self) -> Seq<T> {
        self.gain@
    }

    /// The map onto `[−1, 1]` for each octave count (entry `n − 1` for `n`).
    pub closed spec fn maps(&self) -> Seq<ScaleBias<T>> {
        self.scale_bias@
    }

    /// The tables are those `new` computes for these parameters.
    pub open spec fn tables_for(&self, lacunarity: T, exp: T, offset: T) -> bool {
        &&& self.ridge_offset() == offset
        &&& self.gains().len() == MAX_OCTAVES
        &&& self.maps().len() == MAX_OCTAVES
        &&& forall|i: int|
            0 <= i < MAX_OCTAVES ==> #[trigger] self.gains()[i] == octave_gain_spec(
                lacunarity,
                exp,
                i as u16,
            )
        &&& forall|i: int|
            0 <= i < MAX_OCTAVES ==> #[trigger] self.maps()[i] == map_spec(
                lacunarity,
                exp,
                offset,
                i as nat,
            )
    }

    /// The ridge offset.
    pub closed spec fn ridge_offset(&self) -> T {
        self.offset
    }

    /// The ridge offset.
    pub fn offset(&self) -> (r: T)
        ensures
            r == self.ridge_offset(),
    {
        self.offset
    }

    /// Weight of octave `i`.
    pub fn gain_at(&self, i: usize) -> (r: T)
        requires
            i < MAX_OCTAVES,
        ensures
            r == self.gains()[i as int],
    {
        proof {
            use_type_invariant(self);
        }
        self.gain[i]
    }

    /// The map for `n` octaves.
    pub fn scale_bias_for(&self, n: usize) -> (r: ScaleBias<T>)
        requires
            1 <= n <= MAX_OCTAVES,
        ensures
            r == self.maps()[n - 1],
    {
        proof {
            use_type_invariant(self);
        }
        self.scale_bias[n - 1]
    }

    /// A copy of the tables.
    pub fn duplicate(&self) -> (r: PreCalc<T>)
        ensures
            r.gains() == self.gains(),
            r.maps() == self.maps(),
            r.ridge_offset() == self.ridge_offset(),
    {
        proof {
            use_type_invariant(self);
        }
        let mut gain: Vec<T> = Vec::new();
        let mut scale_bias: Vec<ScaleBias<T>> = Vec::new();
        let mut i: usize = 0;
        while i < MAX_OCTAVES
            invariant
                self.gain@.len() == MAX_OCTAVES,
                self.scale_bias@.len() == MAX_OCTAVES,
                i <= MAX_OCTAVES,
                gain@ == self.gain@.subrange(0, i as int),
                scale_bias@ == self.scale_bias@.subrange(0, i as int),
            decreases MAX_OCTAVES - i,
        {
            gain.push(self.gain[i]);
            scale_bias.push(self.scale_bias[i]);
            i = i + 1;
            proof {
                assert(gain@ =~= self.gain@.subrange(0, i as int));
                assert(scale_bias@ =~= self.scale_bias@.subrange(0, i as int));
            }
        }
        proof {
            assert(gain@ =~= self.gain@);
            assert(scale_bias@ =~= self.scale_bias@);
        }
        PreCalc { offset: self.offset, exponent: self.exponent, gain, scale_bias }
    }

    /// Tables for the given lacunarity, exponent and ridge offset: the
    /// octave weights, and for `i + 1` octaves the scale and bias that map
    /// the accumulated minimum `Σ (offset−1)²·gain` to −1 and maximum
    /// `Σ offset²·gain` to 1.
    pub fn new(lacunarity: T, exp: T, offset: T) -> (r: PreCalc<T>)
        ensures
            r.tables_for(lacunarity, exp, offset),
            r.ridge_offset() == offset,
            forall|i: int|
                0 <= i < MAX_OCTAVES ==> #[trigger] r.gains()[i] == octave_gain_spec(
                    lacunarity,
                    exp,
                    i as u16,
                ),
    {
        let one = T::from_u16(1);
        let two = T::from_u16(2);
        let mut gain: Vec<T> = Vec::new();
        let mut scale_bias: Vec<ScaleBias<T>> = Vec::new();
        let mut max = T::from_u16(0);
        let mut min = T::from_u16(0);
        let mut i: u16 = 0;
        while (i as usize) < MAX_OCTAVES
            invariant
                i <= MAX_OCTAVES,
                gain@.len() == i,
                scale_bias@.len() == i,
                forall|k: int|
                    0 <= k < i ==> #[trigger] gain@[k] == octave_gain_spec(lacunarity, exp, k as u16),
                forall|k: int|
                    0 <= k < i ==> #[trigger] scale_bias@[k] == map_spec(lacunarity, exp, offset, k as nat),
                (min, max) == bounds_spec(lacunarity, exp, offset, i as nat),
                one == crate::float::one::<T>(),
                two == crate::float::two::<T>(),
            decreases MAX_OCTAVES - i,
        {
            let ghost old_min = min;
            let ghost old_max = max;
            let g = lacunarity.powf(T::from_u16(i).neg().mul(exp));
            gain.push(g);
            let offset_one = offset.sub(one);
            min = min.add(offset_one.mul(offset_one).mul(g));
            max = max.add(offset.mul(offset).mul(g));
            proof {
                let k = (i + 1) as nat;
                let o1 = offset.diff(crate::float::one::<T>());
                assert(min == old_min.sum(o1.prod(o1).prod(g)));
                assert(max == old_max.sum(offset.prod(offset).prod(g)));
                assert(bounds_spec(lacunarity, exp, offset, k) == (min, max));
            }
            let scale = two.div(max.sub(min));
            let bias = one.neg().sub(min.mul(scale));
            scale_bias.push(ScaleBias { scale, bias });
            proof {
                assert(scale_bias@[i as int] == map_spec(lacunarity, exp, offset, i as nat));
            }
            i = i + 1;
        }
        PreCalc { offset, exponent: exp, gain, scale_bias }
    }

    /// Empty tables, for fractal types that do not read them.
    pub fn unused() -> (r: PreCalc<T>) {
        let zero = T::from_u16(0);
        let mut gain: Vec<T> = Vec::new();
        let mut scale_bias: Vec<ScaleBias<T>> = Vec::new();
        let mut i: usize = 0;
        while i < MAX_OCTAVES
            invariant
                i <= MAX_OCTAVES,
                gain@.len() == i,
                scale_bias@.len() == i,
            decreases MAX_OCTAVES - i,
        {
            gain.push(zero);
            scale_bias.push(ScaleBias { scale: zero, bias: zero });
            i = i + 1;
        }
        PreCalc { offset: T::from_u16(1), exponent: zero, gain, scale_bias }
    }
}

/// The coordinate an octave samples: `v·freq + octave`.
pub open spec fn octave_coord_spec<T: Float>(v: T, freq: T, octave: u16) -> T {
    v.prod(freq).sum(T::of_u16(octave))
}

/// A billowing octave's value: `2·|s| − 1`.
pub open spec fn billow_spec<T: Float>(s: T) -> T {
    T::of_u16(2).prod(s.absolute()).diff(T::of_u16(1))
}

/// A ridged octave's value before weighting: `(offset − |s|)²`.
pub open spec fn ridge_spec<T: Float>(offset: T, s: T) -> T {
    offset.diff(s.absolute()).prod(offset.diff(s.absolute()))
}

fn octave_coord<T: Float>(v: T, freq: T, octave: u16) -> (r: T)
    ensures
        r == octave_coord_spec(v, freq, octave),
{
    v.mul(freq).add(T::from_u16(octave))
}

/// Folds a sample upwards: `2·|s| − 1`.
pub fn billow<T: Float>(s: T) -> (r: T)
    ensures
        r == billow_spec(s),
{
    T::from_u16(2).mul(s.abs()).sub(T::from_u16(1))
}

/// A ridge: `(offset − |s|)²`.
pub fn ridge<T: Float>(offset: T, s: T) -> (r: T)
    ensures
        r == ridge_spec(offset, s),
{
    let d = offset.sub(s.abs());
    d.mul(d)
}

/// The sample of `noise` for one octave.
pub open spec fn octave_spec<T: Float>(
    noise: Noise<T>,
    arity: Arity,
    x: T,
    y: T,
    z: T,
    freq: T,
    octave: u16,
) -> T {
    crate::source::noise_spec(
        noise,
        arity,
        octave_coord_spec(x, freq, octave),
        octave_coord_spec(y, freq, octave),
        octave_coord_spec(z, freq, octave),
    )
}

/// Running state `(sum, amplitude, frequency, weight)` of a weighted octave
/// sum after `k` octaves, starting from `amp0` and `freq0`, with octave
/// samples folded when `fold` holds.
pub open spec fn weighted_state<T: Float>(
    noise: Noise<T>,
    arity: Arity,
    x: T,
    y: T,
    z: T,
    amp0: T,
    freq0: T,
    gain: T,
    lacunarity: T,
    fold: bool,
    k: nat,
) -> (T, T, T, T)
    decreases k,
{
    if k == 0 {
        (crate::float::zero::<T>(), amp0, freq0, crate::float::zero::<T>())
    } else {
        let (res, amp, freq, w) = weighted_state(
            noise,
            arity,
            x,
            y,
            z,
            amp0,
            freq0,
            gain,
            lacunarity,
            fold,
            (k - 1) as nat,
        );
        let s = octave_spec(noise, arity, x, y, z, freq, (k - 1) as u16);
        let s = if fold {
            billow_spec(s)
        } else {
            s
        };
        (res.sum(s.prod(amp)), amp.prod(gain), freq.prod(lacunarity), w.sum(amp))
    }
}

/// Running state `(sum, frequency)` of a ridged octave sum after `k`
/// octaves.
pub open spec fn ridged_state<T: Float>(
    noise: Noise<T>,
    arity: Arity,
    x: T,
    y: T,
    z: T,
    freq0: T,
    lacunarity: T,
    offset: T,
    gains: Seq<T>,
    k: nat,
) -> (T, T)
    decreases k,
{
    if k == 0 {
        (crate::float::zero::<T>(), freq0)
    } else {
        let (res, freq) = ridged_state(
            noise,
            arity,
            x,
            y,
            z,
            freq0,
            lacunarity,
            offset,
            gains,
            (k - 1) as nat,
        );
        let s = octave_spec(noise, arity, x, y, z, freq, (k - 1) as u16);
        (res.sum(ridge_spec(offset, s).prod(gains[k - 1])), freq.prod(lacunarity))
    }
}

/// The octaves a ridged sum covers for a configured count: at least one,
/// at most `MAX_OCTAVES`.
pub open spec fn ridged_count(octaves: u16) -> nat {
    if octaves as usize > MAX_OCTAVES {
        MAX_OCTAVES as nat
    } else if octaves == 0 {
        1
    } else {
        octaves as nat
    }
}

/// Samples `noise` at the coordinate of one octave.
fn sample_octave<T: Float>(
    noise: &Noise<T>,
    arity: Arity,
    x: T,
    y: T,
    z: T,
    freq: T,
    octave: u16,
) -> (r: T)
    ensures
        r == octave_spec(*noise, arity, x, y, z, freq, octave),
{
    noise.sample_at(
        arity,
        octave_coord(x, freq, octave),
        octave_coord(y, freq, octave),
        octave_coord(z, freq, octave),
    )
}

/// `a` and `b` are the same fractal: equal parameters, the same generator
/// and equal ridged-multi tables.
pub open spec fn same_fractal<T: Float>(a: Fractal<T>, b: Fractal<T>) -> bool {
    &&& a.config == b.config
    &&& a.fractal == b.fractal
    &&& crate::source::same_noise(a.noise, b.noise)
    &&& a.pre_calc.gains() == b.pre_calc.gains()
    &&& a.pre_calc.maps() == b.pre_calc.maps()
    &&& a.pre_calc.ridge_offset() == b.pre_calc.ridge_offset()
}

proof fn lemma_same_noise_value<T: Float>(a: Noise<T>, b: Noise<T>, arity: Arity, x: T, y: T, z: T)
    requires
        crate::source::same_noise(a, b),
    ensures
        crate::source::noise_spec(a, arity, x, y, z) == crate::source::noise_spec(b, arity, x, y, z),
{
}

proof fn lemma_same_weighted<T: Float>(
    a: Noise<T>,
    b: Noise<T>,
    arity: Arity,
    x: T,
    y: T,
    z: T,
    amp0: T,
    freq0: T,
    gain: T,
    lacunarity: T,
    fold: bool,
    k: nat,
)
    requires
        crate::source::same_noise(a, b),
    ensures
        weighted_state(a, arity, x, y, z, amp0, freq0, gain, lacunarity, fold, k) == weighted_state(
            b,
            arity,
            x,
            y,
            z,
            amp0,
            freq0,
            gain,
            lacunarity,
            fold,
            k,
        ),
    decreases k,
{
    if k > 0 {
        lemma_same_weighted(a, b, arity, x, y, z, amp0, freq0, gain, lacunarity, fold, (k - 1) as nat);
        let (_, _, freq, _) = weighted_state(a, arity, x, y, z, amp0, freq0, gain, lacunarity, fold, (k - 1) as nat);
        let o = (k - 1) as u16;
        lemma_same_noise_value(
            a,
            b,
            arity,
            octave_coord_spec(x, freq, o),
            octave_coord_spec(y, freq, o),
            octave_coord_spec(z, freq, o),
        );
    }
}

proof fn lemma_same_ridged<T: Float>(
    a: Noise<T>,
    b: Noise<T>,
    arity: Arity,
    x: T,
    y: T,
    z: T,
    freq0: T,
    lacunarity: T,
    offset: T,
    gains: Seq<T>,
    k: nat,
)
    requires
        crate::source::same_noise(a, b),
    ensures
        ridged_state(a, arity, x, y, z, freq0, lacunarity, offset, gains, k) == ridged_state(
            b,
            arity,
            x,
            y,
            z,
            freq0,
            lacunarity,
            offset,
            gains,
            k,
        ),
    decreases k,
{
    if k > 0 {
        lemma_same_ridged(a, b, arity, x, y, z, freq0, lacunarity, offset, gains, (k - 1) as nat);
        let (_, freq) = ridged_state(a, arity, x, y, z, freq0, lacunarity, offset, gains, (k - 1) as nat);
        let o = (k - 1) as u16;
        lemma_same_noise_value(
            a,
            b,
            arity,
            octave_coord_spec(x, freq, o),
            octave_coord_spec(y, freq, o),
            octave_coord_spec(z, freq, o),
        );
    }
}

/// The same fractal yields the same values.
pub proof fn lemma_same_fractal_value<T: Float>(a: Fractal<T>, b: Fractal<T>, arity: Arity, x: T, y: T, z: T)
    requires
        same_fractal(a, b),
    ensures
        a.value_spec(arity, x, y, z) == b.value_spec(arity, x, y, z),
{
    let c = a.config;
    lemma_same_weighted(
        a.noise,
        b.noise,
        arity,
        x,
        y,
        z,
        c.amplitude,
        c.frequency,
        c.gain,
        c.lacunarity,
        a.fractal == FractalType::Billowing,
        c.octaves as nat,
    );
    lemma_same_ridged(
        a.noise,
        b.noise,
        arity,
        x,
        y,
        z,
        c.frequency,
        c.lacunarity,
        a.pre_calc.ridge_offset(),
        a.pre_calc.gains(),
        ridged_count(c.octaves),
    );
}

/// A fractal node: a primitive generator summed over octaves.
#[derive(Debug)]
pub struct Fractal<T> {
    pub config: NoiseConfig<T>,
    pub noise: Noise<T>,
    pub fractal: FractalType,
    pub pre_calc: PreCalc<T>,
}

impl<T: Float> Fractal<T> {
    /// A copy of the fractal.
    pub fn duplicate(&self) -> (r: Fractal<T>)
        ensures
            same_fractal(r, *self),
    {
        Fractal {
            config: self.config,
            noise: self.noise.duplicate(),
            fractal: self.fractal,
            pre_calc: self.pre_calc.duplicate(),
        }
    }

    /// Fbm or billowing: `Σ amp_i·f(s_i) / Σ amp_i` with `amp_i =
    /// amplitude·gain^i`, `f` the identity or the fold; billowing adds one
    /// half after normalising.
    fn weighted(&self, arity: Arity, x: T, y: T, z: T, fold: bool) -> (r: T)
        ensures
            ({
                let (res, _, _, w) = weighted_state(
                    self.noise,
                    arity,
                    x,
                    y,
                    z,
                    self.config.amplitude,
                    self.config.frequency,
                    self.config.gain,
                    self.config.lacunarity,
                    fold,
                    self.config.octaves as nat,
                );
                r == if fold {
                    res.quot(w).sum(crate::float::half::<T>())
                } else {
                    res.quot(w)
                }
            }),
    {
        let mut result = T::from_u16(0);
        let mut amp = self.config.amplitude;
        let mut freq = self.config.frequency;
        let mut weight = T::from_u16(0);
        let mut octave: u16 = 0;
        while octave < self.config.octaves
            invariant
                octave <= self.config.octaves,
                (result, amp, freq, weight) == weighted_state(
                    self.noise,
                    arity,
                    x,
                    y,
                    z,
                    self.config.amplitude,
                    self.config.frequency,
                    self.config.gain,
                    self.config.lacunarity,
                    fold,
                    octave as nat,
                ),
            decreases self.config.octaves - octave,
        {
            let s = sample_octave(&self.noise, arity, x, y, z, freq, octave);
            let s = if fold {
                billow(s)
            } else {
                s
            };
            result = result.add(s.mul(amp));
            weight = weight.add(amp);
            freq = freq.mul(self.config.lacunarity);
            amp = amp.mul(self.config.gain);
            octave = octave + 1;
        }
        let r = result.div(weight);
        if fold {
            r.add(T::from_u16(1).div(T::from_u16(2)))
        } else {
            r
        }
    }

    /// Ridged-multi: `Σ (offset − |s_i|)²·gain_i`, mapped by the scale and
    /// bias for the octave count. The tables cover `MAX_OCTAVES` octaves:
    /// more are not summed, and a count of zero uses the one-octave map.
    fn ridged(&self, arity: Arity, x: T, y: T, z: T) -> (r: T)
        ensures
            ({
                let n = ridged_count(self.config.octaves);
                let (res, _) = ridged_state(
                    self.noise,
                    arity,
                    x,
                    y,
                    z,
                    self.config.frequency,
                    self.config.lacunarity,
                    self.pre_calc.ridge_offset(),
                    self.pre_calc.gains(),
                    n,
                );
                r == self.pre_calc.maps()[n - 1].bias.sum(res.prod(self.pre_calc.maps()[n - 1].scale))
            }),
    {
        let n: u16 = if self.config.octaves as usize > MAX_OCTAVES {
            MAX_OCTAVES as u16
        } else if self.config.octaves == 0 {
            1
        } else {
            self.config.octaves
        };
        let mut result = T::from_u16(0);
        let mut freq = self.config.frequency;
        let mut octave: u16 = 0;
        while octave < n
            invariant
                1 <= n <= MAX_OCTAVES,
                n == ridged_count(self.config.octaves),
                octave <= n,
                (result, freq) == ridged_state(
                    self.noise,
                    arity,
                    x,
                    y,
                    z,
                    self.config.frequency,
                    self.config.lacunarity,
                    self.pre_calc.ridge_offset(),
                    self.pre_calc.gains(),
                    octave as nat,
                ),
            decreases n - octave,
        {
            let s = sample_octave(&self.noise, arity, x, y, z, freq, octave);
            let v = ridge(self.pre_calc.offset(), s);
            result = result.add(v.mul(self.pre_calc.gain_at(octave as usize)));
            freq = freq.mul(self.config.lacunarity);
            octave = octave + 1;
        }
        let sb = self.pre_calc.scale_bias_for(n as usize);
        sb.bias.add(result.mul(sb.scale))
    }

    /// The fractal's value at as many coordinates as `arity` says.
    pub open spec fn value_spec(&self, arity: Arity, x: T, y: T, z: T) -> T {
        match self.fractal {
            FractalType::Brownian | FractalType::Billowing => {
                let fold = self.fractal == FractalType::Billowing;
                let (res, _, _, w) = weighted_state(
                    self.noise,
                    arity,
                    x,
                    y,
                    z,
                    self.config.amplitude,
                    self.config.frequency,
                    self.config.gain,
                    self.config.lacunarity,
                    fold,
                    self.config.octaves as nat,
                );
                if fold {
                    res.quot(w).sum(crate::float::half::<T>())
                } else {
                    res.quot(w)
                }
            },
            FractalType::RidgedMulti => {
                let n = ridged_count(self.config.octaves);
                let (res, _) = ridged_state(
                    self.noise,
                    arity,
                    x,
                    y,
                    z,
                    self.config.frequency,
                    self.config.lacunarity,
                    self.pre_calc.ridge_offset(),
                    self.pre_calc.gains(),
                    n,
                );
                self.pre_calc.maps()[n - 1].bias.sum(res.prod(self.pre_calc.maps()[n - 1].scale))
            },
        }
    }

    /// Samples the fractal at as many coordinates as `arity` says.
    pub fn sample_at(&self, arity: Arity, x: T, y: T, z: T) -> (r: T)
        ensures
            r == self.value_spec(arity, x, y, z),
    {
        match self.fractal {
            FractalType::Brownian => self.weighted(arity, x, y, z, false),
            FractalType::Billowing => self.weighted(arity, x, y, z, true),
            FractalType::RidgedMulti => self.ridged(arity, x, y, z),
        }
    }

    pub fn sample_1d(&self, x: T) -> (r: T)
        ensures
            r == self.value_spec(Arity::One, x, crate::float::zero::<T>(), crate::float::zero::<T>()),
    {
        let zero = T::from_u16(0);
        self.sample_at(Arity::One, x, zero, zero)
    }

    pub fn sample_2d(&self, x: T, y: T) -> (r: T)
        ensures
            r == self.value_spec(Arity::Two, x, y, crate::float::zero::<T>()),
    {
        self.sample_at(Arity::Two, x, y, T::from_u16(0))
    }

    pub fn sample_3d(&self, x: T, y: T, z: T) -> (r: T)
        ensures
            r == self.value_spec(Arity::Three, x, y, z),
    {
        self.sample_at(Arity::Three, x, y, z)
    }
}

/// Builds a [`Fractal`]: fbm over quintic Perlin noise, six octaves,
/// lacunarity 2, gain one half, frequency and amplitude 1, ridge offset 1
/// and exponent 9/10.
#[derive(Debug)]
pub struct FractalBuilder<T> {
    pub source: Noise<T>,
    pub fractal: FractalType,
    pub octaves: u16,
    pub lacunarity: T,
    pub gain: T,
    pub frequency: T,
    pub amplitude: T,
    pub offset: T,
    pub exponent: T,
}

impl<T: Float> FractalBuilder<T> {
    pub fn new() -> (r: FractalBuilder<T>)
        ensures
            r.fractal == FractalType::Brownian,
            r.octaves == 6,
    {
        let one = T::from_u16(1);
        FractalBuilder {
            source: Noise::Perlin(PerlinNoise::new(FractalBlender::Quintic)),
            fractal: FractalType::Brownian,
            octaves: 6,
            lacunarity: T::from_u16(2),
            gain: one.div(T::from_u16(2)),
            frequency: one,
            amplitude: one,
            offset: one,
            exponent: T::from_u16(9).div(T::from_u16(10)),
        }
    }

    pub fn source(self, source: Noise<T>) -> (r: FractalBuilder<T>)
        ensures
            r.source == source,
            r.fractal == self.fractal,
            r.octaves == self.octaves,
    {
        FractalBuilder { source, ..self }
    }

    pub fn fractal(self, fractal: FractalType) -> (r: FractalBuilder<T>)
        ensures
            r.source == self.source,
            r.fractal == fractal,
            r.octaves == self.octaves,
    {
        FractalBuilder { fractal, ..self }
    }

    /// Sets the octave count, which must be at least one.
    pub fn octaves(self, octaves: u16) -> (r: FractalBuilder<T>)
        requires
            octaves >= 1,
        ensures
            r.source == self.source,
            r.fractal == self.fractal,
            r.octaves == octaves,
    {
        FractalBuilder { octaves, ..self }
    }

    pub fn lacunarity(self, lacunarity: T) -> (r: FractalBuilder<T>)
        ensures
            r.source == self.source,
            r.lacunarity == lacunarity,
    {
        FractalBuilder { lacunarity, ..self }
    }

    pub fn gain(self, gain: T) -> (r: FractalBuilder<T>)
        ensures
            r.source == self.source,
            r.gain == gain,
    {
        FractalBuilder { gain, ..self }
    }

    pub fn frequency(self, frequency: T) -> (r: FractalBuilder<T>)
        ensures
            r.source == self.source,
            r.frequency == frequency,
    {
        FractalBuilder { frequency, ..self }
    }

    pub fn amplitude(self, amplitude: T) -> (r: FractalBuilder<T>)
        ensures
            r.source == self.source,
            r.amplitude == amplitude,
    {
        FractalBuilder { amplitude, ..self }
    }

    /// The fractal; its ridged-multi tables are computed here for that
    /// type, and left unused for the others.
    pub fn build(self) -> (r: Fractal<T>)
        ensures
            r.fractal == self.fractal,
            r.noise == self.source,
            r.config == (NoiseConfig {
                octaves: self.octaves,
                lacunarity: self.lacunarity,
                gain: self.gain,
                frequency: self.frequency,
                amplitude: self.amplitude,
            }),
            self.fractal == FractalType::RidgedMulti ==> r.pre_calc.tables_for(
                self.lacunarity,
                self.exponent,
                self.offset,
            ),
    {
        let pre_calc = match self.fractal {
            FractalType::RidgedMulti => PreCalc::new(self.lacunarity, self.exponent, self.offset),
            _ => PreCalc::unused(),
        };
        Fractal {
            config: NoiseConfig {
                octaves: self.octaves,
                lacunarity: self.lacunarity,
                gain: self.gain,
                frequency: self.frequency,
                amplitude: self.amplitude,
            },
            noise: self.source,
            fractal: self.fractal,
            pre_calc,
        }
    }
}

/// Octave parameters of the Perlin task.
#[derive(Clone, Copy, Debug)]
pub struct PerlinConfig<T> {
    pub octaves: u16,
    pub lacunarity: T,
    pub persistance: T,
    pub frequency: T,
    pub amplitude: T,
}

impl<T: Float> PerlinConfig<T> {
    /// Six octaves, lacunarity 2, persistance one half, frequency and
    /// amplitude 1.
    pub fn default() -> (r: PerlinConfig<T>)
        ensures
            r.octaves == 6,
            r.lacunarity == T::of_u16(2),
            r.persistance == crate::float::half::<T>(),
            r.frequency == crate::float::one::<T>(),
            r.amplitude == crate::float::one::<T>(),
    {
        let one = T::from_u16(1);
        PerlinConfig {
            octaves: 6,
            lacunarity: T::from_u16(2),
            persistance: one.div(T::from_u16(2)),
            frequency: one,
            amplitude: one,
        }
    }
}

/// Fbm over a primitive generator with persistance as the octave gain.
#[derive(Debug)]
pub struct Perlin<T> {
    pub config: PerlinConfig<T>,
    pub noise: Noise<T>,
}

impl<T: Float> Perlin<T> {
    /// The task with the default configuration.
    pub fn new(noise: Noise<T>) -> (r: Perlin<T>)
        ensures
            r.noise == noise,
            r.config == (PerlinConfig {
                octaves: 6,
                lacunarity: T::of_u16(2),
                persistance: crate::float::half::<T>(),
                frequency: crate::float::one::<T>(),
                amplitude: crate::float::one::<T>(),
            }),
    {
        Perlin { config: PerlinConfig::default(), noise }
    }

    /// The task with the given configuration, of at least one octave.
    pub fn new_with_config(noise: Noise<T>, config: PerlinConfig<T>) -> (r: Perlin<T>)
        requires
            config.octaves >= 1,
        ensures
            r.noise == noise,
            r.config == config,
    {
        Perlin { config, noise }
    }

    /// The task's value: the octave sum with persistance as the gain,
    /// normalised by the sum of the amplitudes.
    pub open spec fn value_spec(&self, arity: Arity, x: T, y: T, z: T) -> T {
        let (res, _, _, w) = weighted_state(
            self.noise,
            arity,
            x,
            y,
            z,
            self.config.amplitude,
            self.config.frequency,
            self.config.persistance,
            self.config.lacunarity,
            false,
            self.config.octaves as nat,
        );
        res.quot(w)
    }

    /// The weighted octave sum at as many coordinates as `arity` says.
    pub fn sample_at(&self, arity: Arity, x: T, y: T, z: T) -> (r: T)
        requires
            self.config.octaves >= 1,
        ensures
            r == self.value_spec(arity, x, y, z),
    {
        let mut result = T::from_u16(0);
        let mut amp = self.config.amplitude;
        let mut freq = self.config.frequency;
        let mut weight = T::from_u16(0);
        let mut octave: u16 = 0;
        while octave < self.config.octaves
            invariant
                octave <= self.config.octaves,
                (result, amp, freq, weight) == weighted_state(
                    self.noise,
                    arity,
                    x,
                    y,
                    z,
                    self.config.amplitude,
                    self.config.frequency,
                    self.config.persistance,
                    self.config.lacunarity,
                    false,
                    octave as nat,
                ),
            decreases self.config.octaves - octave,
        {
            let s = sample_octave(&self.noise, arity, x, y, z, freq, octave);
            result = result.add(s.mul(amp));
            weight = weight.add(amp);
            freq = freq.mul(self.config.lacunarity);
            amp = amp.mul(self.config.persistance);
            octave = octave + 1;
        }
        result.div(weight)
    }

    pub fn sample_1d(&self, x: T) -> (r: T)
        requires
            self.config.octaves >= 1,
        ensures
            r == self.value_spec(Arity::One, x, crate::float::zero::<T>(), crate::float::zero::<T>()),
    {
        let zero = T::from_u16(0);
        self.sample_at(Arity::One, x, zero, zero)
    }

    pub fn sample_2d(&self, x: T, y: T) -> (r: T)
        requires
            self.config.octaves >= 1,
        ensures
            r == self.value_spec(Arity::Two, x, y, crate::float::zero::<T>()),
    {
        self.sample_at(Arity::Two, x, y, T::from_u16(0))
    }

    pub fn sample_3d(&self, x: T, y: T, z: T) -> (r: T)
        requires
            self.config.octaves >= 1,
        ensures
            r == self.value_spec(Arity::Three, x, y, z),
    {
        self.sample_at(Arity::Three, x, y, z)
    }
}

} // verus!
