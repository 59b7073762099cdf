//! Cellular (Worley) noise: distances from a sample to feature points that
//! a seeded generator places in each surrounding cell.
use vstd::prelude::*;
use crate::float::Float;
use crate::rng::PCG;

verus! {

/// Multiplier that spreads the x cell index.
pub const PRIME_X: u64 = 2053;

/// Multiplier that spreads the y cell index.
pub const PRIME_Y: u64 = 7177;

/// Multiplier that spreads the z cell index.
pub const PRIME_Z: u64 = 4943;

/// Salt mixed into the x term.
pub const XOR_X: u64 = 13844389427;

/// Salt mixed into the y term.
pub const XOR_Y: u64 = 24384685848;

/// Salt mixed into the z term.
pub const XOR_Z: u64 = 9413284231;

/// How distance to a feature point is measured.
#[derive(Clone, Copy, Debug, PartialEq, Eq, Structural)]
pub enum Distance {
    Euclidean,
    Manhattan,
}

/// The generator seed of the cell at `ix` (the index taken modulo 2⁶⁴).
pub open spec fn seed_x_spec(seed: u64, ix: i32) -> u64 {
    (ix as u64).wrapping_mul(PRIME_X).wrapping_add(seed) ^ XOR_X
}

/// The generator seed of the cell at `(ix, iy)`.
pub open spec fn seed_xy_spec(seed: u64, ix: i32, iy: i32) -> u64 {
    seed_x_spec(seed, ix).wrapping_add((iy as u64).wrapping_mul(PRIME_Y) ^ XOR_Y)
}

/// The generator seed of the cell at `(ix, iy, iz)`.
pub open spec fn seed_xyz_spec(seed: u64, ix: i32, iy: i32, iz: i32) -> u64 {
    seed_xy_spec(seed, ix, iy).wrapping_add((iz as u64).wrapping_mul(PRIME_Z) ^ XOR_Z)
}

/// The PCG state after `k` steps from a generator made with `seed`.
pub open spec fn pcg_state_spec(seed: u64, k: nat) -> u64
    decreases k,
{
    if k == 0 {
        seed.wrapping_add(crate::rng::PCG_INCREMENT)
    } else {
        crate::rng::pcg_step(
            pcg_state_spec(seed, (k - 1) as nat),
            crate::rng::PCG_MULTIPLIER,
            crate::rng::PCG_INCREMENT,
        )
    }
}

/// Draw number `k` (from zero) of a PCG made with `seed`, as a fraction.
pub open spec fn draw_spec<T: Float>(seed: u64, k: nat) -> T {
    T::of_draw(crate::rng::pcg_output(pcg_state_spec(seed, k)))
}

/// Distance of `(x, y)` from the origin.
pub open spec fn dist_xy_spec<T: Float>(d: Distance, x: T, y: T) -> T {
    match d {
        Distance::Euclidean => x.prod(x).sum(y.prod(y)).sqrt_of(),
        Distance::Manhattan => x.absolute().sum(y.absolute()),
    }
}

/// Distance of `(x, y, z)` from the origin.
pub open spec fn dist_xyz_spec<T: Float>(d: Distance, x: T, y: T, z: T) -> T {
    match d {
        Distance::Euclidean => x.prod(x).sum(y.prod(y)).sum(z.prod(z)).sqrt_of(),
        Distance::Manhattan => x.absolute().sum(y.absolute()).sum(z.absolute()),
    }
}

/// `d` as a scalar, for `d ∈ {−1, 0, 1}`.
pub open spec fn unit_spec<T: Float>(d: i32) -> T {
    if d < 0 {
        crate::float::one::<T>().negated()
    } else if d == 0 {
        crate::float::zero::<T>()
    } else {
        crate::float::one::<T>()
    }
}

/// One neighbour step of the 1D search: the neighbour `k` cells away
/// replaces `(end, min)` when it is nearer.
pub open spec fn nearer_1d_spec<T: Float>(
    c: Cellular<T>,
    ix: i32,
    fx: T,
    k: i32,
    end: T,
    min: T,
) -> (T, T) {
    let nfx = unit_spec::<T>(k).sum(draw_spec::<T>(seed_x_spec(c.seed, ix.wrapping_add(k)), 0));
    let d = nfx.diff(fx).absolute();
    if d.less(min) {
        (nfx, d)
    } else {
        (end, min)
    }
}

/// The 1D value at `x`.
pub open spec fn cellular_1d_spec<T: Float>(c: Cellular<T>, x: T) -> T {
    let lx = x.quot(c.spacing[0]);
    let ix = lx.floor_of().cell_of();
    let fx = lx.fract_of();
    let origin = draw_spec::<T>(seed_x_spec(c.seed, ix), 0);
    let (e1, m1) = nearer_1d_spec(c, ix, fx, -1i32, origin, T::of_u16(10));
    let (end, _) = nearer_1d_spec(c, ix, fx, 1i32, e1, m1);
    let a = fx.diff(origin).quot(end.diff(origin));
    let half = crate::float::half::<T>();
    let a = if half.less(a) {
        a.diff(half)
    } else {
        a
    };
    a.prod(T::of_u16(2))
}

/// Distance from `(fx, fy)` to the feature point of neighbour cell number
/// `n` (row-major over offsets −1..1) of cell `(ix, iy)`.
pub open spec fn cell_dist_2d_spec<T: Float>(c: Cellular<T>, ix: i32, iy: i32, fx: T, fy: T, n: i32) -> T {
    let dx = (n / 3 - 1) as i32;
    let dy = (n % 3 - 1) as i32;
    let s = seed_xy_spec(c.seed, ix.wrapping_add(dx), iy.wrapping_add(dy));
    dist_xy_spec(
        c.dist,
        unit_spec::<T>(dx).sum(draw_spec::<T>(s, 0)).diff(fx),
        unit_spec::<T>(dy).sum(draw_spec::<T>(s, 1)).diff(fy),
    )
}

/// The nearest and second nearest distances over the first `k` neighbour
/// cells, both starting at ten.
pub open spec fn nearest_two_spec<T: Float>(c: Cellular<T>, ix: i32, iy: i32, fx: T, fy: T, k: nat) -> (T, T)
    decreases k,
{
    if k == 0 {
        (T::of_u16(10), T::of_u16(10))
    } else {
        let (d0, d1) = nearest_two_spec(c, ix, iy, fx, fy, (k - 1) as nat);
        let d = cell_dist_2d_spec(c, ix, iy, fx, fy, (k - 1) as i32);
        if d.less(d0) {
            (d, d0)
        } else if d.less(d1) {
            (d0, d)
        } else {
            (d0, d1)
        }
    }
}

/// The 2D value at `(x, y)`.
pub open spec fn cellular_2d_spec<T: Float>(c: Cellular<T>, x: T, y: T) -> T {
    let lx = x.quot(c.spacing[0]);
    let ly = y.quot(c.spacing[1]);
    let (d0, d1) = nearest_two_spec(
        c,
        lx.floor_of().cell_of(),
        ly.floor_of().cell_of(),
        lx.fract_of(),
        ly.fract_of(),
        9,
    );
    let zero = crate::float::zero::<T>();
    if zero.less(d1) || d1.less(zero) {
        d0.diff(d1).quot(d1)
    } else {
        zero
    }
}

/// Distance from `(fx, fy, fz)` to the feature point of neighbour cell
/// number `n` (offsets −1..1 in x, then y, then z order) of `(ix, iy, iz)`.
pub open spec fn cell_dist_3d_spec<T: Float>(
    c: Cellular<T>,
    ix: i32,
    iy: i32,
    iz: i32,
    fx: T,
    fy: T,
    fz: T,
    n: i32,
) -> T {
    let dx = (n / 9 - 1) as i32;
    let dy = ((n / 3) % 3 - 1) as i32;
    let dz = (n % 3 - 1) as i32;
    let s = seed_xyz_spec(c.seed, ix.wrapping_add(dx), iy.wrapping_add(dy), iz.wrapping_add(dz));
    dist_xyz_spec(
        c.dist,
        unit_spec::<T>(dx).sum(draw_spec::<T>(s, 0)).diff(fx),
        unit_spec::<T>(dy).sum(draw_spec::<T>(s, 1)).diff(fy),
        unit_spec::<T>(dz).sum(draw_spec::<T>(s, 2)).diff(fz),
    )
}

/// The nearest distance over the first `k` neighbour cells, from ten.
pub open spec fn nearest_spec<T: Float>(
    c: Cellular<T>,
    ix: i32,
    iy: i32,
    iz: i32,
    fx: T,
    fy: T,
    fz: T,
    k: nat,
) -> T
    decreases k,
{
    if k == 0 {
        T::of_u16(10)
    } else {
        crate::math::min_spec(
            nearest_spec(c, ix, iy, iz, fx, fy, fz, (k - 1) as nat),
            cell_dist_3d_spec(c, ix, iy, iz, fx, fy, fz, (k - 1) as i32),
        )
    }
}

/// The 3D value at `(x, y, z)`.
pub open spec fn cellular_3d_spec<T: Float>(c: Cellular<T>, x: T, y: T, z: T) -> T {
    let lx = x.quot(c.spacing[0]);
    let ly = y.quot(c.spacing[1]);
    let lz = z.quot(c.spacing[2]);
    let m = nearest_spec(
        c,
        lx.floor_of().cell_of(),
        ly.floor_of().cell_of(),
        lz.floor_of().cell_of(),
        lx.fract_of(),
        ly.fract_of(),
        lz.fract_of(),
        27,
    );
    m.prod(T::of_u16(2)).diff(T::of_u16(1))
}

fn widen(i: i32) -> (r: u64)
    ensures
        r == i as u64,
{
    #[verifier::truncate]
    (i as u64)
}

/// Cellular noise with per-axis cell spacing and a global seed.
#[derive(Debug)]
pub struct Cellular<T> {
    pub spacing: [T; 3],
    pub seed: u64,
    pub dist: Distance,
}

impl<T: Float> Cellular<T> {
    /// Noise with seed zero.
    pub fn new(spacing: [T; 3], dist: Distance) -> (r: Cellular<T>)
        ensures
            r.spacing == spacing,
            r.dist == dist,
            r.seed == 0,
    {
        Cellular::new_seeded(spacing, dist, 0)
    }

    pub fn new_seeded(spacing: [T; 3], dist: Distance, seed: u64) -> (r: Cellular<T>)
        ensures
            r.spacing == spacing,
            r.dist == dist,
            r.seed == seed,
    {
        Cellular { spacing, seed, dist }
    }

    /// Unit spacing, Euclidean distance, seed zero.
    pub fn default() -> (r: Cellular<T>)
        ensures
            r.dist == Distance::Euclidean,
            r.seed == 0,
    {
        let one = T::from_u16(1);
        Cellular::new_seeded([one, one, one], Distance::Euclidean, 0)
    }

    pub fn seed_from_x(&self, ix: i32) -> (r: u64)
        ensures
            r == seed_x_spec(self.seed, ix),
    {
        widen(ix).wrapping_mul(PRIME_X).wrapping_add(self.seed) ^ XOR_X
    }

    pub fn seed_from_xy(&self, ix: i32, iy: i32) -> (r: u64)
        ensures
            r == seed_xy_spec(self.seed, ix, iy),
    {
        self.seed_from_x(ix).wrapping_add(widen(iy).wrapping_mul(PRIME_Y) ^ XOR_Y)
    }

    pub fn seed_from_xyz(&self, ix: i32, iy: i32, iz: i32) -> (r: u64)
        ensures
            r == seed_xyz_spec(self.seed, ix, iy, iz),
    {
        self.seed_from_xy(ix, iy).wrapping_add(widen(iz).wrapping_mul(PRIME_Z) ^ XOR_Z)
    }

    /// The feature point's offset inside the cell at `ix`.
    fn offset_x(&self, ix: i32) -> (r: T)
        ensures
            r == draw_spec::<T>(seed_x_spec(self.seed, ix), 0),
    {
        let mut rng = PCG::new(self.seed_from_x(ix));
        rng.next_fraction()
    }

    fn offset_xy(&self, ix: i32, iy: i32) -> (r: (T, T))
        ensures
            r == (
                draw_spec::<T>(seed_xy_spec(self.seed, ix, iy), 0),
                draw_spec::<T>(seed_xy_spec(self.seed, ix, iy), 1),
            ),
    {
        let mut rng = PCG::new(self.seed_from_xy(ix, iy));
        let a = rng.next_fraction();
        let b = rng.next_fraction();
        (a, b)
    }

    fn offset_xyz(&self, ix: i32, iy: i32, iz: i32) -> (r: (T, T, T))
        ensures
            r == (
                draw_spec::<T>(seed_xyz_spec(self.seed, ix, iy, iz), 0),
                draw_spec::<T>(seed_xyz_spec(self.seed, ix, iy, iz), 1),
                draw_spec::<T>(seed_xyz_spec(self.seed, ix, iy, iz), 2),
            ),
    {
        let mut rng = PCG::new(self.seed_from_xyz(ix, iy, iz));
        let a = rng.next_fraction();
        let b = rng.next_fraction();
        let c = rng.next_fraction();
        (a, b, c)
    }

    fn dist_x(&self, x: T) -> (r: T)
        ensures
            r == x.absolute(),
    {
        x.abs()
    }

    fn dist_xy(&self, x: T, y: T) -> (r: T)
        ensures
            r == dist_xy_spec(self.dist, x, y),
    {
        match self.dist {
            Distance::Euclidean => x.mul(x).add(y.mul(y)).sqrt(),
            Distance::Manhattan => x.abs().add(y.abs()),
        }
    }

    fn dist_xyz(&self, x: T, y: T, z: T) -> (r: T)
        ensures
            r == dist_xyz_spec(self.dist, x, y, z),
    {
        match self.dist {
            Distance::Euclidean => x.mul(x).add(y.mul(y)).add(z.mul(z)).sqrt(),
            Distance::Manhattan => x.abs().add(y.abs()).add(z.abs()),
        }
    }

    /// `d` as a scalar, for `d ∈ {−1, 0, 1}`.
    fn unit(d: i32) -> (r: T)
        ensures
            r == unit_spec::<T>(d),
    {
        if d < 0 {
            T::from_u16(1).neg()
        } else if d == 0 {
            T::from_u16(0)
        } else {
            T::from_u16(1)
        }
    }

    /// Position of `x` between its cell's feature point and the nearest of
    /// the two neighbouring ones, folded and scaled.
    pub fn sample_1d(&self, x: T) -> (r: T)
        ensures
            r == cellular_1d_spec(*self, x),
    {
        let lx = x.div(self.spacing[0]);
        let ix = lx.floor().as_cell();
        let fx = lx.fract();
        let origin = self.offset_x(ix);
        let ten = T::from_u16(10);
        let (end, min_dist) = self.nearer_1d(ix, fx, -1, origin, ten);
        let (end, _) = self.nearer_1d(ix, fx, 1, end, min_dist);
        let a = fx.sub(origin).div(end.sub(origin));
        let half = T::from_u16(1).div(T::from_u16(2));
        let a = if half.lt(a) {
            a.sub(half)
        } else {
            a
        };
        a.mul(T::from_u16(2))
    }

    fn nearer_1d(&self, ix: i32, fx: T, k: i32, end: T, min_dist: T) -> (r: (T, T))
        ensures
            r == nearer_1d_spec(*self, ix, fx, k, end, min_dist),
    {
        let nfx = Self::unit(k).add(self.offset_x(ix.wrapping_add(k)));
        let dist = self.dist_x(nfx.sub(fx));
        if dist.lt(min_dist) {
            (nfx, dist)
        } else {
            (end, min_dist)
        }
    }

    /// Normalised difference `(d₁ − d₂)/d₂` of the distances to the
    /// nearest and second nearest feature points of the nine cells around
    /// `(x, y)`; zero when `d₂` is zero.
    pub fn sample_2d(&self, x: T, y: T) -> (r: T)
        ensures
            r == cellular_2d_spec(*self, x, y),
    {
        let lx = x.div(self.spacing[0]);
        let ly = y.div(self.spacing[1]);
        let ix = lx.floor().as_cell();
        let iy = ly.floor().as_cell();
        let fx = lx.fract();
        let fy = ly.fract();
        let mut d0 = T::from_u16(10);
        let mut d1 = T::from_u16(10);
        let mut c: i32 = 0;
        while c < 9
            invariant
                0 <= c <= 9,
                (d0, d1) == nearest_two_spec(*self, ix, iy, fx, fy, c as nat),
            decreases 9 - c,
        {
            let dx = c / 3 - 1;
            let dy = c % 3 - 1;
            let (ox, oy) = self.offset_xy(ix.wrapping_add(dx), iy.wrapping_add(dy));
            let dfx = Self::unit(dx).add(ox).sub(fx);
            let dfy = Self::unit(dy).add(oy).sub(fy);
            let dist = self.dist_xy(dfx, dfy);
            if dist.lt(d0) {
                d1 = d0;
                d0 = dist;
            } else if dist.lt(d1) {
                d1 = dist;
            }
            c = c + 1;
        }
        let zero = T::from_u16(0);
        if zero.lt(d1) || d1.lt(zero) {
            d0.sub(d1).div(d1)
        } else {
            zero
        }
    }

    /// `2·d − 1` for the distance `d` to the nearest feature point of the
    /// twenty-seven cells around `(x, y, z)` (starting from ten).
    pub fn sample_3d(&self, x: T, y: T, z: T) -> (r: T)
        ensures
            r == cellular_3d_spec(*self, x, y, z),
    {
        let lx = x.div(self.spacing[0]);
        let ly = y.div(self.spacing[1]);
        let lz = z.div(self.spacing[2]);
        let ix = lx.floor().as_cell();
        let iy = ly.floor().as_cell();
        let iz = lz.floor().as_cell();
        let fx = lx.fract();
        let fy = ly.fract();
        let fz = lz.fract();
        let mut min_dist = T::from_u16(10);
        let mut c: i32 = 0;
        while c < 27
            invariant
                0 <= c <= 27,
                min_dist == nearest_spec(*self, ix, iy, iz, fx, fy, fz, c as nat),
            decreases 27 - c,
        {
            let dx = c / 9 - 1;
            let dy = (c / 3) % 3 - 1;
            let dz = c % 3 - 1;
            let (ox, oy, oz) = self.offset_xyz(
                ix.wrapping_add(dx),
                iy.wrapping_add(dy),
                iz.wrapping_add(dz),
            );
            let dfx = Self::unit(dx).add(ox).sub(fx);
            let dfy = Self::unit(dy).add(oy).sub(fy);
            let dfz = Self::unit(dz).add(oz).sub(fz);
            let dist = self.dist_xyz(dfx, dfy, dfz);
            min_dist = crate::math::min(min_dist, dist);
            c = c + 1;
        }
        min_dist.mul(T::from_u16(2)).sub(T::from_u16(1))
    }
}

} // verus!
