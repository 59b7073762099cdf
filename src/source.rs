//! Primitive noise generators: gradient (Perlin) noise over a permutation
//! lattice, and a linear ramp between two points.
use vstd::prelude::*;
use crate::float::Float;
use crate::math::{clamp, lerp, FractalBlender};
use crate::task::Arity;

verus! {

#[verifier::external_type_specification]
#[verifier::external_body]
pub struct ExStdRng(rand::rngs::StdRng);

/// Relies on rand's `SeedableRng::seed_from_u64` for `StdRng`: a generator
/// whose draws depend on the seed alone.
#[verifier::external_body]
fn seeded_rng(seed: u64) -> rand::rngs::StdRng {
    <rand::rngs::StdRng as rand::SeedableRng>::seed_from_u64(seed)
}

/// Relies on rand's `Uniform::new_inclusive(0, hi)` sampled through
/// `Rng::sample`: a value in `[0, hi]`.
#[verifier::external_body]
fn draw_inclusive(rng: &mut rand::rngs::StdRng, hi: usize) -> (r: usize)
    ensures
        r <= hi,
{
    rand::Rng::sample(rng, rand::distributions::Uniform::new_inclusive(0usize, hi))
}

/// Size of the permutation lattice.
pub const LATTICE: usize = 256;

/// The canonical permutation of `0..256` that Perlin noise is defined with.
#[verifier::opaque]
pub open spec fn canonical_spec() -> Seq<usize> {
    seq![
        151, 160, 137, 91, 90, 15, 131, 13, 201, 95, 96, 53, 194, 233, 7, 225,
        140, 36, 103, 30, 69, 142, 8, 99, 37, 240, 21, 10, 23, 190, 6, 148,
        247, 120, 234, 75, 0, 26, 197, 62, 94, 252, 219, 203, 117, 35, 11, 32,
        57, 177, 33, 88, 237, 149, 56, 87, 174, 20, 125, 136, 171, 168, 68, 175,
        74, 165, 71, 134, 139, 48, 27, 166, 77, 146, 158, 231, 83, 111, 229, 122,
        60, 211, 133, 230, 220, 105, 92, 41, 55, 46, 245, 40, 244, 102, 143, 54,
        65, 25, 63, 161, 1, 216, 80, 73, 209, 76, 132, 187, 208, 89, 18, 169,
        200, 196, 135, 130, 116, 188, 159, 86, 164, 100, 109, 198, 173, 186, 3, 64,
        52, 217, 226, 250, 124, 123, 5, 202, 38, 147, 118, 126, 255, 82, 85, 212,
        207, 206, 59, 227, 47, 16, 58, 17, 182, 189, 28, 42, 223, 183, 170, 213,
        119, 248, 152, 2, 44, 154, 163, 70, 221, 153, 101, 155, 167, 43, 172, 9,
        129, 22, 39, 253, 19, 98, 108, 110, 79, 113, 224, 232, 178, 185, 112, 104,
        218, 246, 97, 228, 251, 34, 242, 193, 238, 210, 144, 12, 191, 179, 162, 241,
        81, 51, 145, 235, 249, 14, 239, 107, 49, 192, 214, 31, 181, 199, 106, 157,
        184, 84, 204, 176, 115, 121, 50, 45, 127, 4, 150, 254, 138, 236, 205, 93,
        222, 114, 67, 29, 24, 72, 243, 141, 128, 195, 78, 66, 215, 61, 156, 180,
    ]
}

/// The canonical permutation, as a vector.
pub fn canonical_permutation() -> (r: Vec<usize>)
    ensures
        r@ == canonical_spec(),
        r@.len() == LATTICE,
{
    reveal(canonical_spec);
    vec![
        151, 160, 137, 91, 90, 15, 131, 13, 201, 95, 96, 53, 194, 233, 7, 225, 140, 36, 103, 30,
        69, 142, 8, 99, 37, 240, 21, 10, 23, 190, 6, 148, 247, 120, 234, 75, 0, 26, 197, 62, 94,
        252, 219, 203, 117, 35, 11, 32, 57, 177, 33, 88, 237, 149, 56, 87, 174, 20, 125, 136, 171,
        168, 68, 175, 74, 165, 71, 134, 139, 48, 27, 166, 77, 146, 158, 231, 83, 111, 229, 122, 60,
        211, 133, 230, 220, 105, 92, 41, 55, 46, 245, 40, 244, 102, 143, 54, 65, 25, 63, 161, 1,
        216, 80, 73, 209, 76, 132, 187, 208, 89, 18, 169, 200, 196, 135, 130, 116, 188, 159, 86,
        164, 100, 109, 198, 173, 186, 3, 64, 52, 217, 226, 250, 124, 123, 5, 202, 38, 147, 118,
        126, 255, 82, 85, 212, 207, 206, 59, 227, 47, 16, 58, 17, 182, 189, 28, 42, 223, 183, 170,
        213, 119, 248, 152, 2, 44, 154, 163, 70, 221, 153, 101, 155, 167, 43, 172, 9, 129, 22, 39,
        253, 19, 98, 108, 110, 79, 113, 224, 232, 178, 185, 112, 104, 218, 246, 97, 228, 251, 34,
        242, 193, 238, 210, 144, 12, 191, 179, 162, 241, 81, 51, 145, 235, 249, 14, 239, 107, 49,
        192, 214, 31, 181, 199, 106, 157, 184, 84, 204, 176, 115, 121, 50, 45, 127, 4, 150, 254,
        138, 236, 205, 93, 222, 114, 67, 29, 24, 72, 243, 141, 128, 195, 78, 66, 215, 61, 156, 180,
    ]
}

/// `p` is a doubled lattice table: 512 entries below 256, the second half
/// repeating the first.
pub open spec fn lattice_ok(p: Seq<usize>) -> bool {
    &&& p.len() == 2 * LATTICE
    &&& forall|i: int| 0 <= i < p.len() ==> #[trigger] p[i] < LATTICE
    &&& forall|i: int| 0 <= i < LATTICE ==> #[trigger] p[i + LATTICE] == p[i]
}

/// The doubled table of `vals`, each reduced to its low eight bits.
pub fn double_table(vals: &Vec<usize>) -> (r: Vec<usize>)
    requires
        vals@.len() == LATTICE,
    ensures
        lattice_ok(r@),
        forall|i: int| 0 <= i < LATTICE ==> #[trigger] r@[i] == vals@[i] % 256,
{
    let mut p: Vec<usize> = Vec::new();
    let mut round: usize = 0;
    while round < 2
        invariant
            vals@.len() == LATTICE,
            round <= 2,
            p@.len() == round * LATTICE,
            forall|i: int| 0 <= i < p@.len() ==> #[trigger] p@[i] < LATTICE,
            forall|i: int| 0 <= i < p@.len() ==> #[trigger] p@[i] == vals@[i % 256] % 256,
        decreases 2 - round,
    {
        let mut i: usize = 0;
        while i < LATTICE
            invariant
                vals@.len() == LATTICE,
                round < 2,
                i <= LATTICE,
                p@.len() == round * LATTICE + i,
                forall|k: int| 0 <= k < p@.len() ==> #[trigger] p@[k] < LATTICE,
                forall|k: int| 0 <= k < p@.len() ==> #[trigger] p@[k] == vals@[k % 256] % 256,
            decreases LATTICE - i,
        {
            let w = vals[i];
            let v = w & 255;
            assert(w & 255 == w % 256) by (bit_vector);
            proof {
                assert((round * LATTICE + i) as int % 256 == i as int);
            }
            p.push(v);
            i = i + 1;
        }
        round = round + 1;
    }
    proof {
        assert forall|i: int| 0 <= i < LATTICE implies #[trigger] p@[i + LATTICE] == p@[i] by {
            assert((i + LATTICE) % 256 == i % 256);
        }
    }
    p
}

/// Slope of a 1D lattice point for hash `h`: `k/8` for the sixteen values
/// `k ∈ {−8, …, −1, 1, …, 8}`, picked by the hash's low four bits.
pub open spec fn gradient_1d_spec<T: Float>(h: usize) -> T {
    let k = h % 16;
    let eighth = |n: u16| T::of_u16(n).quot(T::of_u16(8));
    if k < 8 {
        eighth((8 - k) as u16).negated()
    } else {
        eighth((k - 7) as u16)
    }
}

/// Dot product of a 2D lattice gradient, picked by the hash's low three
/// bits, with `(x, y)`.
pub open spec fn gradient_2d_spec<T: Float>(h: usize, x: T, y: T) -> T {
    match h % 8 {
        0 => x,
        1 => x.sum(y),
        2 => y,
        3 => x.negated().sum(y),
        4 => x.negated(),
        5 => x.negated().diff(y),
        6 => y.negated(),
        _ => x.diff(y),
    }
}

/// Dot product of a 3D lattice gradient (the twelve cube edge midpoints and
/// four repeats), picked by the hash's low four bits, with `(x, y, z)`.
pub open spec fn gradient_3d_spec<T: Float>(h: usize, x: T, y: T, z: T) -> T {
    match h % 16 {
        0 => x.sum(z),
        1 => x.sum(y),
        2 => y.sum(z),
        3 => x.negated().sum(y),
        4 => x.negated().sum(z),
        5 => x.negated().diff(y),
        6 => y.negated().sum(z),
        7 => x.diff(y),
        8 => x.diff(z),
        9 => y.diff(z),
        10 => x.negated().diff(z),
        11 => y.negated().diff(z),
        12 => x.sum(y),
        13 => x.negated().sum(y),
        14 => y.negated().sum(z),
        _ => y.negated().diff(z),
    }
}

pub fn gradient_1d<T: Float>(h: usize) -> (r: T)
    ensures
        r == gradient_1d_spec::<T>(h),
{
    let k = h % 16;
    let eight = T::from_u16(8);
    if k < 8 {
        T::from_u16((8 - k) as u16).div(eight).neg()
    } else {
        T::from_u16((k - 7) as u16).div(eight)
    }
}

pub fn gradient_2d<T: Float>(h: usize, x: T, y: T) -> (r: T)
    ensures
        r == gradient_2d_spec(h, x, y),
{
    match h % 8 {
        0 => x,
        1 => x.add(y),
        2 => y,
        3 => x.neg().add(y),
        4 => x.neg(),
        5 => x.neg().sub(y),
        6 => y.neg(),
        _ => x.sub(y),
    }
}

pub fn gradient_3d<T: Float>(h: usize, x: T, y: T, z: T) -> (r: T)
    ensures
        r == gradient_3d_spec(h, x, y, z),
{
    match h % 16 {
        0 => x.add(z),
        1 => x.add(y),
        2 => y.add(z),
        3 => x.neg().add(y),
        4 => x.neg().add(z),
        5 => x.neg().sub(y),
        6 => y.neg().add(z),
        7 => x.sub(y),
        8 => x.sub(z),
        9 => y.sub(z),
        10 => x.neg().sub(z),
        11 => y.neg().sub(z),
        12 => x.add(y),
        13 => x.neg().add(y),
        14 => y.neg().add(z),
        _ => y.neg().sub(z),
    }
}

/// The lattice cell index of a coordinate's integer part.
fn cell<T: Float>(v: T) -> (r: usize)
    ensures
        r < LATTICE,
        r == v.index_of() % 256,
{
    let i = v.as_index();
    assert(i & 255 == i % 256) by (bit_vector);
    i & 255
}

/// Perlin noise at `x` over lattice table `p` with fade curve `b`: the two
/// lattice slopes around `x`, each times the offset from its lattice point,
/// blended by the faded fraction.
pub open spec fn perlin_1d_spec<T: Float>(p: Seq<usize>, b: FractalBlender, x: T) -> T {
    let x0 = x.floor_of();
    let x1 = x0.sum(crate::float::one::<T>());
    let u = b.apply_spec(x.diff(x0));
    let g0 = gradient_1d_spec::<T>(p[(x0.index_of() % 256) as int]);
    let g1 = gradient_1d_spec::<T>(p[(x1.index_of() % 256) as int]);
    crate::math::lerp_spec(g0.prod(x.diff(x0)), g1.prod(x.diff(x1)), u)
}

/// Maps a blend in `[−1, 1]` through `[0, 1]` (clamped) back onto `[−1, 1]`.
pub open spec fn remap_spec<T: Float>(v: T) -> T {
    let one = crate::float::one::<T>();
    let alpha = crate::math::clamp_spec(
        v.sum(one).quot(crate::float::two::<T>()),
        crate::float::zero::<T>(),
        one,
    );
    crate::math::lerp_spec(one.negated(), one, alpha)
}

/// Perlin noise at `(x, y)` over lattice table `p` with fade curve `b`.
pub open spec fn perlin_2d_spec<T: Float>(p: Seq<usize>, b: FractalBlender, x: T, y: T) -> T {
    let one = crate::float::one::<T>();
    let xi = (x.floor_of().index_of() % 256) as int;
    let yi = (y.floor_of().index_of() % 256) as int;
    let x0 = x.diff(x.floor_of());
    let y0 = y.diff(y.floor_of());
    let x1 = x0.diff(one);
    let y1 = y0.diff(one);
    let aa = p[xi] + yi;
    let ba = p[xi + 1] + yi;
    let u = b.apply_spec(x0);
    let v = b.apply_spec(y0);
    let l1 = crate::math::lerp_spec(
        gradient_2d_spec(p[aa], x0, y0),
        gradient_2d_spec(p[ba], x1, y0),
        u,
    );
    let l2 = crate::math::lerp_spec(
        gradient_2d_spec(p[aa + 1], x0, y1),
        gradient_2d_spec(p[ba + 1], x1, y1),
        u,
    );
    remap_spec(crate::math::lerp_spec(l1, l2, v))
}

/// Perlin noise at `(x, y, z)` over lattice table `p` with fade curve `b`.
pub open spec fn perlin_3d_spec<T: Float>(p: Seq<usize>, b: FractalBlender, x: T, y: T, z: T) -> T {
    let one = crate::float::one::<T>();
    let xi = (x.floor_of().index_of() % 256) as int;
    let yi = (y.floor_of().index_of() % 256) as int;
    let zi = (z.floor_of().index_of() % 256) as int;
    let x0 = x.diff(x.floor_of());
    let y0 = y.diff(y.floor_of());
    let z0 = z.diff(z.floor_of());
    let x1 = x0.diff(one);
    let y1 = y0.diff(one);
    let z1 = z0.diff(one);
    let a = p[xi] + yi;
    let aa = p[a] + zi;
    let ab = p[a + 1] + zi;
    let bb0 = p[xi + 1] + yi;
    let ba = p[bb0] + zi;
    let bb = p[bb0 + 1] + zi;
    let u = b.apply_spec(x0);
    let v = b.apply_spec(y0);
    let w = b.apply_spec(z0);
    let lu1 = crate::math::lerp_spec(
        gradient_3d_spec(p[aa], x0, y0, z0),
        gradient_3d_spec(p[ba], x1, y0, z0),
        u,
    );
    let lu2 = crate::math::lerp_spec(
        gradient_3d_spec(p[ab], x0, y1, z0),
        gradient_3d_spec(p[bb], x1, y1, z0),
        u,
    );
    let lu3 = crate::math::lerp_spec(
        gradient_3d_spec(p[aa + 1], x0, y0, z1),
        gradient_3d_spec(p[ba + 1], x1, y0, z1),
        u,
    );
    let lu4 = crate::math::lerp_spec(
        gradient_3d_spec(p[ab + 1], x0, y1, z1),
        gradient_3d_spec(p[bb + 1], x1, y1, z1),
        u,
    );
    let lv1 = crate::math::lerp_spec(lu1, lu2, v);
    let lv2 = crate::math::lerp_spec(lu3, lu4, v);
    remap_spec(crate::math::lerp_spec(lv1, lv2, w))
}

/// Gradient noise over a permutation lattice.
#[derive(Debug)]
pub struct Perlin {
    perm: Vec<usize>,
    blender: FractalBlender,
}

impl Perlin {
    /// The lattice table is doubled and every entry is a lattice index.
    #[verifier::type_invariant]
    spec fn inv(self) -> bool {
        lattice_ok(self.perm@)
    }

    /// The lattice table.
    pub closed spec fn table(&self) -> Seq<usize> {
        self.perm@
    }

    /// The fade curve.
    pub closed spec fn blend(&self) -> FractalBlender {
        self.blender
    }

    /// Entry `i` of the doubled lattice table.
    pub fn lattice_value(&self, i: usize) -> (r: usize)
        requires
            i < 2 * LATTICE,
        ensures
            r == self.table()[i as int],
            r < LATTICE,
    {
        proof {
            use_type_invariant(self);
        }
        self.perm[i]
    }

    /// A copy of the generator.
    pub fn duplicate(&self) -> (r: Perlin)
        ensures
            r.table() == self.table(),
            r.blend() == self.blend(),
    {
        proof {
            use_type_invariant(self);
        }
        let mut perm: Vec<usize> = Vec::new();
        let mut i: usize = 0;
        while i < self.perm.len()
            invariant
                lattice_ok(self.perm@),
                i <= self.perm.len(),
                perm@ == self.perm@.subrange(0, i as int),
            decreases self.perm.len() - i,
        {
            perm.push(self.perm[i]);
            i = i + 1;
            proof {
                assert(perm@ =~= self.perm@.subrange(0, i as int));
            }
        }
        proof {
            assert(perm@ =~= self.perm@);
        }
        Perlin { perm, blender: self.blender }
    }

    /// Noise over the canonical permutation.
    pub fn new(blender: FractalBlender) -> (r: Perlin)
        ensures
            r.blend() == blender,
            forall|i: int|
                0 <= i < 2 * LATTICE ==> #[trigger] r.table()[i] == canonical_spec()[i % 256] % 256,
    {
        let base = canonical_permutation();
        let perm = double_table(&base);
        proof {
            assert forall|i: int| 0 <= i < 2 * LATTICE implies #[trigger] perm@[i]
                == canonical_spec()[i % 256] % 256 by {
                if i >= LATTICE {
                    assert(perm@[(i - LATTICE) + LATTICE] == perm@[i - LATTICE]);
                    assert(i % 256 == (i - LATTICE) % 256);
                }
            }
        }
        Perlin { perm, blender }
    }

    /// Noise over a permutation drawn from a generator seeded with `seed`.
    pub fn new_from_seed(blender: FractalBlender, seed: u64) -> (r: Perlin)
        ensures
            r.blend() == blender,
    {
        let mut rng = seeded_rng(seed);
        let mut vals: Vec<usize> = Vec::new();
        let mut i: usize = 0;
        while i < LATTICE
            invariant
                i <= LATTICE,
                vals@.len() == i,
                forall|k: int| 0 <= k < i ==> #[trigger] vals@[k] < LATTICE,
            decreases LATTICE - i,
        {
            let v = draw_inclusive(&mut rng, 255);
            vals.push(v);
            i = i + 1;
        }
        Perlin { perm: double_table(&vals), blender }
    }

    fn fade<T: Float>(&self, v: T) -> (r: T)
        ensures
            r == self.blend().apply_spec(v),
    {
        self.blender.apply(v)
    }

    /// Noise at `x`.
    pub fn sample_1d<T: Float>(&self, x: T) -> (r: T)
        ensures
            r == perlin_1d_spec(self.table(), self.blend(), x),
    {
        proof {
            use_type_invariant(self);
        }
        let x0 = x.floor();
        let x1 = x0.add(T::from_u16(1));
        let dx = x.sub(x0);
        let u = self.fade(dx);
        let a = self.perm[cell(x0)];
        let b = self.perm[cell(x1)];
        let gx0 = gradient_1d::<T>(a);
        let gx1 = gradient_1d::<T>(b);
        let p0 = gx0.mul(x.sub(x0));
        let p1 = gx1.mul(x.sub(x1));
        lerp(p0, p1, u)
    }

    /// Noise at `(x, y)`, in `[−1, 1]`.
    pub fn sample_2d<T: Float>(&self, x: T, y: T) -> (r: T)
        ensures
            r == perlin_2d_spec(self.table(), self.blend(), x, y),
    {
        proof {
            use_type_invariant(self);
        }
        let one = T::from_u16(1);
        let fx = x.floor();
        let fy = y.floor();
        let xi = cell(fx);
        let yi = cell(fy);
        let x0 = x.sub(fx);
        let y0 = y.sub(fy);
        let x1 = x0.sub(one);
        let y1 = y0.sub(one);
        let aa = self.perm[xi] + yi;
        let ab = aa + 1;
        let ba = self.perm[xi + 1] + yi;
        let bb = ba + 1;
        let u = self.fade(x0);
        let v = self.fade(y0);
        let l1 = lerp(gradient_2d(self.perm[aa], x0, y0), gradient_2d(self.perm[ba], x1, y0), u);
        let l2 = lerp(gradient_2d(self.perm[ab], x0, y1), gradient_2d(self.perm[bb], x1, y1), u);
        let alpha = clamp(lerp(l1, l2, v).add(one).div(T::from_u16(2)), T::from_u16(0), one);
        lerp(one.neg(), one, alpha)
    }

    /// Noise at `(x, y, z)`, in `[−1, 1]`.
    pub fn sample_3d<T: Float>(&self, x: T, y: T, z: T) -> (r: T)
        ensures
            r == perlin_3d_spec(self.table(), self.blend(), x, y, z),
    {
        proof {
            use_type_invariant(self);
        }
        let one = T::from_u16(1);
        let fx = x.floor();
        let fy = y.floor();
        let fz = z.floor();
        let xi = cell(fx);
        let yi = cell(fy);
        let zi = cell(fz);
        let x0 = x.sub(fx);
        let y0 = y.sub(fy);
        let z0 = z.sub(fz);
        let x1 = x0.sub(one);
        let y1 = y0.sub(one);
        let z1 = z0.sub(one);
        let a = self.perm[xi] + yi;
        let aa = self.perm[a] + zi;
        let ab = self.perm[a + 1] + zi;
        let b = self.perm[xi + 1] + yi;
        let ba = self.perm[b] + zi;
        let bb = self.perm[b + 1] + zi;
        let u = self.fade(x0);
        let v = self.fade(y0);
        let w = self.fade(z0);
        let lu1 = lerp(
            gradient_3d(self.perm[aa], x0, y0, z0),
            gradient_3d(self.perm[ba], x1, y0, z0),
            u,
        );
        let lu2 = lerp(
            gradient_3d(self.perm[ab], x0, y1, z0),
            gradient_3d(self.perm[bb], x1, y1, z0),
            u,
        );
        let lu3 = lerp(
            gradient_3d(self.perm[aa + 1], x0, y0, z1),
            gradient_3d(self.perm[ba + 1], x1, y0, z1),
            u,
        );
        let lu4 = lerp(
            gradient_3d(self.perm[ab + 1], x0, y1, z1),
            gradient_3d(self.perm[bb + 1], x1, y1, z1),
            u,
        );
        let lv1 = lerp(lu1, lu2, v);
        let lv2 = lerp(lu3, lu4, v);
        let alpha = clamp(lerp(lv1, lv2, w).add(one).div(T::from_u16(2)), T::from_u16(0), one);
        lerp(one.neg(), one, alpha)
    }
}

/// A linear ramp along the segment from `s1` towards `s1 + dir·mag`.
#[derive(Debug)]
pub struct Gradient<T> {
    pub s1: [T; 3],
    pub dir: [T; 3],
    pub mag: T,
}

/// Dot product of two 3-vectors.
pub open spec fn dot_spec<T: Float>(a: [T; 3], b: [T; 3]) -> T {
    a[0].prod(b[0]).sum(a[1].prod(b[1])).sum(a[2].prod(b[2]))
}

fn dot<T: Float>(a: [T; 3], b: [T; 3]) -> (r: T)
    ensures
        r == dot_spec(a, b),
{
    a[0].mul(b[0]).add(a[1].mul(b[1])).add(a[2].mul(b[2]))
}

/// The ramp's value at point `p`: the projection of `p − s1` on the
/// direction, divided by the length (inflated by one epsilon), clamped to
/// `[0, 1]` and mapped linearly onto `[−1, 1]`.
pub open spec fn ramp_spec<T: Float>(g: Gradient<T>, p: [T; 3]) -> T {
    let one = crate::float::one::<T>();
    let dp = [p[0].diff(g.s1[0]), p[1].diff(g.s1[1]), p[2].diff(g.s1[2])];
    let proj = dot_spec(dp, g.dir).quot(g.mag).prod(one.sum(T::epsilon_value()));
    crate::math::lerp_spec(
        one.negated(),
        one,
        crate::math::clamp_spec(proj, crate::float::zero::<T>(), one),
    )
}

/// The height a 2D sample is lifted to: the distance from `s1` in the
/// plane (zero when not above zero) along the direction's z component.
pub open spec fn lift_spec<T: Float>(g: Gradient<T>, x: T, y: T) -> T {
    let d = [x.diff(g.s1[0]), y.diff(g.s1[1]), crate::float::zero::<T>()];
    let m = dot_spec(d, d);
    let m = if !crate::float::zero::<T>().less(m) {
        crate::float::zero::<T>()
    } else {
        m.sqrt_of()
    };
    g.s1[2].sum(g.dir[2].prod(m))
}

/// The ramp from `s1` to `s2`: the unit direction `d/|d|` and the length
/// `|d|` of `d = s2 − s1`.
pub open spec fn ramp_of<T: Float>(s1: [T; 3], s2: [T; 3]) -> Gradient<T> {
    let d = [s2[0].diff(s1[0]), s2[1].diff(s1[1]), s2[2].diff(s1[2])];
    let len = dot_spec(d, d).sqrt_of();
    Gradient { s1, dir: [d[0].quot(len), d[1].quot(len), d[2].quot(len)], mag: len }
}

impl<T: Float> Gradient<T> {
    /// The ramp from `s1` (value −1) to `s2` (value 1); the two points must
    /// be apart.
    pub fn new(s1: [T; 3], s2: [T; 3]) -> (r: Gradient<T>)
        requires
            crate::float::zero::<T>().less(
                dot_spec(
                    [s2[0].diff(s1[0]), s2[1].diff(s1[1]), s2[2].diff(s1[2])],
                    [s2[0].diff(s1[0]), s2[1].diff(s1[1]), s2[2].diff(s1[2])],
                ),
            ),
        ensures
            r == ramp_of(s1, s2),
    {
        let d = [s2[0].sub(s1[0]), s2[1].sub(s1[1]), s2[2].sub(s1[2])];
        let len = dot(d, d).sqrt();
        Gradient { s1, dir: [d[0].div(len), d[1].div(len), d[2].div(len)], mag: len }
    }

    /// The ramp from `s1` to `s2`, or nothing when the two points coincide
    /// (or their squared distance is not above zero).
    pub fn try_new(s1: [T; 3], s2: [T; 3]) -> (r: Option<Gradient<T>>)
        ensures
            r is Some <==> crate::float::zero::<T>().less(
                dot_spec(
                    [s2[0].diff(s1[0]), s2[1].diff(s1[1]), s2[2].diff(s1[2])],
                    [s2[0].diff(s1[0]), s2[1].diff(s1[1]), s2[2].diff(s1[2])],
                ),
            ),
            r is Some ==> r->Some_0 == ramp_of(s1, s2),
    {
        let d = [s2[0].sub(s1[0]), s2[1].sub(s1[1]), s2[2].sub(s1[2])];
        if T::from_u16(0).lt(dot(d, d)) {
            Some(Gradient::new(s1, s2))
        } else {
            None
        }
    }

    /// The ramp from the origin to `(1, 1, 0)`: direction `(1, 1, 0)/√2`,
    /// length `√2`.
    pub fn default() -> (r: Gradient<T>)
        ensures
            ({
                let zero = crate::float::zero::<T>();
                let one = crate::float::one::<T>();
                let len = crate::float::two::<T>().sqrt_of();
                r == Gradient { s1: [zero, zero, zero], dir: [one.quot(len), one.quot(len), zero.quot(len)], mag: len }
            }),
    {
        let zero = T::from_u16(0);
        let one = T::from_u16(1);
        let two = T::from_u16(2);
        let len = two.sqrt();
        Gradient { s1: [zero, zero, zero], dir: [one.div(len), one.div(len), zero.div(len)], mag: len }
    }

    fn eval(&self, p: [T; 3]) -> (r: T)
        ensures
            r == ramp_spec(*self, p),
    {
        let one = T::from_u16(1);
        let dp = [p[0].sub(self.s1[0]), p[1].sub(self.s1[1]), p[2].sub(self.s1[2])];
        let proj = dot(dp, self.dir).div(self.mag).mul(one.add(T::epsilon()));
        let t = clamp(proj, T::from_u16(0), one);
        lerp(one.neg(), one, t)
    }

    /// The ramp's value at `x`, moving along the diagonal through `s1`.
    pub fn sample_1d(&self, x: T) -> (r: T)
        ensures
            r == ramp_spec(
                *self,
                [x, self.s1[1].sum(x.diff(self.s1[0])), self.s1[2].sum(x.diff(self.s1[0]))],
            ),
    {
        let delta = x.sub(self.s1[0]);
        self.eval([x, self.s1[1].add(delta), self.s1[2].add(delta)])
    }

    /// The ramp's value at `(x, y)`, lifted onto the ramp's height.
    pub fn sample_2d(&self, x: T, y: T) -> (r: T)
        ensures
            r == ramp_spec(*self, [x, y, lift_spec(*self, x, y)]),
    {
        let diff = [x.sub(self.s1[0]), y.sub(self.s1[1]), T::from_u16(0)];
        let m = dot(diff, diff);
        let m = if !T::from_u16(0).lt(m) {
            T::from_u16(0)
        } else {
            m.sqrt()
        };
        self.eval([x, y, self.s1[2].add(self.dir[2].mul(m))])
    }

    /// The ramp's value at `(x, y, z)`.
    pub fn sample_3d(&self, x: T, y: T, z: T) -> (r: T)
        ensures
            r == ramp_spec(*self, [x, y, z]),
    {
        self.eval([x, y, z])
    }
}

/// A primitive generator that fractal nodes drive.
#[derive(Debug)]
pub enum Noise<T> {
    Perlin(Perlin),
    Gradient(Gradient<T>),
}

/// `a` and `b` are the same generator: equal lattice table and fade curve,
/// or equal ramps.
pub open spec fn same_noise<T>(a: Noise<T>, b: Noise<T>) -> bool {
    match (a, b) {
        (Noise::Perlin(p), Noise::Perlin(q)) => p.table() == q.table() && p.blend() == q.blend(),
        (Noise::Gradient(g), Noise::Gradient(h)) => g == h,
        _ => false,
    }
}

impl<T: Float> Noise<T> {
    /// A copy of the generator.
    pub fn duplicate(&self) -> (r: Noise<T>)
        ensures
            same_noise(r, *self),
    {
        match self {
            Noise::Perlin(p) => Noise::Perlin(p.duplicate()),
            Noise::Gradient(g) => Noise::Gradient(Gradient { s1: g.s1, dir: g.dir, mag: g.mag }),
        }
    }
}

/// The value of generator `n` at as many of `(x, y, z)` as `arity` says.
pub open spec fn noise_spec<T: Float>(n: Noise<T>, arity: Arity, x: T, y: T, z: T) -> T {
    match n {
        Noise::Perlin(p) => match arity {
            Arity::One => perlin_1d_spec(p.table(), p.blend(), x),
            Arity::Two => perlin_2d_spec(p.table(), p.blend(), x, y),
            Arity::Three => perlin_3d_spec(p.table(), p.blend(), x, y, z),
        },
        Noise::Gradient(g) => match arity {
            Arity::One => ramp_spec(g, [x, g.s1[1].sum(x.diff(g.s1[0])), g.s1[2].sum(x.diff(g.s1[0]))]),
            Arity::Two => ramp_spec(g, [x, y, lift_spec(g, x, y)]),
            Arity::Three => ramp_spec(g, [x, y, z]),
        },
    }
}

impl<T: Float> Noise<T> {
    /// Samples the generator at as many coordinates as `arity` says.
    pub fn sample_at(&self, arity: Arity, x: T, y: T, z: T) -> (r: T)
        ensures
            r == noise_spec(*self, arity, x, y, z),
    {
        match self {
            Noise::Perlin(p) => match arity {
                Arity::One => p.sample_1d(x),
                Arity::Two => p.sample_2d(x, y),
                Arity::Three => p.sample_3d(x, y, z),
            },
            Noise::Gradient(g) => match arity {
                Arity::One => g.sample_1d(x),
                Arity::Two => g.sample_2d(x, y),
                Arity::Three => g.sample_3d(x, y, z),
            },
        }
    }
}

} // verus!
