//! Graph nodes: the combinators that sample child nodes at a coordinate and
//! transform or combine the results.
//!
//! Each node's arithmetic is a pure function with an exact contract (for
//! instance [`Aggregator::combine`], [`selector_branch`]); sampling a node
//! samples its children and hands their values to that function. The value
//! a whole graph yields is `eval_spec`; sampling returns it for every graph
//! without cache nodes, and a cache node's contract says when it answers
//! from its memo instead.
use vstd::prelude::*;
use crate::float::Float;
use crate::fractal::Fractal;
use crate::math::{clamp, ease_in_out, lerp, FractalBlender};
use crate::source::Gradient;

verus! {

broadcast use {
    vstd::std_specs::vec::axiom_vec_index_decreases,
    vstd::std_specs::vec::axiom_vec_decreases_to_view,
};

/// How many coordinates a sample takes.
#[derive(Clone, Copy, Debug, PartialEq, Eq, Structural)]
pub enum Arity {
    One,
    Two,
    Three,
}

/// The reduction an [`Aggregator`] applies to its sources.
#[derive(Clone, Copy, Debug, PartialEq, Eq, Structural)]
pub enum Operation {
    Add,
    Avg,
    Sub,
    Mul,
    Div,
    Max,
    Min,
}

/// How a [`TransformDomain`] changes the input coordinate.
#[derive(Clone, Copy, Debug, PartialEq, Eq, Structural)]
pub enum DomainOperation {
    Translate,
    Scale,
}

/// One step of an aggregation: the running result combined with one sample.
pub open spec fn step_spec<T: Float>(op: Operation, acc: T, v: T) -> T {
    match op {
        Operation::Add | Operation::Avg => acc.sum(v),
        Operation::Sub => acc.diff(v),
        Operation::Mul => acc.prod(v),
        Operation::Div => acc.quot(v),
        Operation::Max => if acc.less(v) {
            v
        } else {
            acc
        },
        Operation::Min => if acc.less(v) {
            acc
        } else {
            v
        },
    }
}

/// Left fold of `vals`, in order, starting from `init`.
pub open spec fn fold_spec<T: Float>(op: Operation, init: T, vals: Seq<T>) -> T
    decreases vals.len(),
{
    if vals.len() == 0 {
        init
    } else {
        step_spec(op, fold_spec(op, init, vals.drop_last()), vals.last())
    }
}

/// The value an aggregation yields: the fold, divided by the number of
/// samples for `Avg` when there is at least one.
pub open spec fn aggregate_spec<T: Float>(op: Operation, init: T, vals: Seq<T>) -> T {
    if op == Operation::Avg && vals.len() > 0 {
        fold_spec(op, init, vals).quot(T::of_usize(vals.len() as usize))
    } else {
        fold_spec(op, init, vals)
    }
}

/// The seed an aggregation starts from when none is given: the identity of
/// the operation (one for `Mul`/`Div`, the largest value for `Min`, the
/// smallest for `Max`, zero otherwise).
pub open spec fn default_initial_spec<T: Float>(op: Operation) -> T {
    match op {
        Operation::Div | Operation::Mul => T::of_u16(1),
        Operation::Min => T::max_value(),
        Operation::Max => T::min_value(),
        _ => T::of_u16(0),
    }
}

/// Which child a selector reads, and with what weight on the upper one.
#[derive(Clone, Copy, Debug)]
pub enum Branch<T> {
    Lower,
    Upper,
    Blend(T),
}

/// The selector's decision for condition `c`, falloff `f`, threshold `t`.
///
/// Without falloff it switches hard at `t`; with falloff it blends inside
/// `[t − f, t + f]`, weighting the upper child by the curve applied to the
/// condition's position in that window.
pub open spec fn branch_spec<T: Float>(blender: FractalBlender, c: T, f: T, t: T) -> Branch<T> {
    if crate::float::zero::<T>().less(f) {
        let l = t.diff(f);
        let u = t.sum(f);
        if c.less(l) {
            Branch::Lower
        } else if u.less(c) {
            Branch::Upper
        } else {
            Branch::Blend(blender.apply_spec(c.diff(l).quot(u.diff(l))))
        }
    } else if c.less(t) {
        Branch::Lower
    } else {
        Branch::Upper
    }
}

/// The selector's value given its decision and the two children's samples.
pub open spec fn select_spec<T: Float>(b: Branch<T>, lower: T, upper: T) -> T {
    match b {
        Branch::Lower => lower,
        Branch::Upper => upper,
        Branch::Blend(w) => crate::math::lerp_spec(lower, upper, w),
    }
}

/// The bias node's value for source sample `v` and bias sample `b`: `v`,
/// limited to `[0, 1]`, eased with exponent `b·max + min`, limited to be
/// at least zero. Inputs already in range are used unchanged.
pub open spec fn bias_spec<T: Float>(v: T, b: T, min: T, max: T) -> T {
    let t = crate::math::clamp_spec(v, crate::float::zero::<T>(), crate::float::one::<T>());
    let p = crate::math::max_spec(b.prod(max).sum(min), crate::float::zero::<T>());
    crate::math::ease_in_out_spec(t, p)
}

/// A coordinate moved by `d`: shifted for `Translate`, multiplied for `Scale`.
pub open spec fn transform_spec<T: Float>(op: DomainOperation, a: T, d: T) -> T {
    match op {
        DomainOperation::Translate => a.sum(d),
        DomainOperation::Scale => a.prod(d),
    }
}

/// The value of node `t` at as many of `(x, y, z)` as `arity` says, each
/// node combining its children's values; a cache node stands for its
/// source.
pub open spec fn eval_spec<T: Float>(t: TaskSource<T>, arity: Arity, x: T, y: T, z: T) -> T
    decreases t,
{
    match t {
        TaskSource::Constant(v) => v,
        TaskSource::Aggregate(a) => aggregate_spec(
            a.op,
            a.initial,
            eval_list(a.sources@, arity, x, y, z),
        ),
        TaskSource::Bias(b) => bias_spec(
            eval_spec(b.source, arity, x, y, z),
            eval_spec(b.bias, arity, x, y, z),
            b.min,
            b.max,
        ),
        TaskSource::Cache(c) => eval_spec(c.source, arity, x, y, z),
        TaskSource::Scale(s) => eval_spec(s.source, arity, x, y, z).prod(
            eval_spec(s.scale, arity, x, y, z),
        ),
        TaskSource::ScaleOffset(s) => eval_spec(s.source, arity, x, y, z).prod(
            eval_spec(s.scale, arity, x, y, z),
        ).sum(eval_spec(s.offset, arity, x, y, z)),
        TaskSource::Selector(s) => select_spec(
            branch_spec(
                s.blender,
                eval_spec(s.condition, arity, x, y, z),
                eval_spec(s.falloff, arity, x, y, z),
                eval_spec(s.threshold, arity, x, y, z),
            ),
            eval_spec(s.lower, arity, x, y, z),
            eval_spec(s.upper, arity, x, y, z),
        ),
        TaskSource::Domain(d) => eval_spec(
            d.source,
            arity,
            transform_spec(d.operation, x, eval_spec(d.value_x, arity, x, y, z)),
            transform_spec(d.operation, y, eval_spec(d.value_y, arity, x, y, z)),
            transform_spec(d.operation, z, eval_spec(d.value_z, arity, x, y, z)),
        ),
        TaskSource::Fractal(f) => f.value_spec(arity, x, y, z),
        TaskSource::Gradient(g) => crate::source::noise_spec(
            crate::source::Noise::Gradient(*g),
            arity,
            x,
            y,
            z,
        ),
    }
}

/// The values of the nodes `s`, in order.
pub open spec fn eval_list<T: Float>(s: Seq<TaskSource<T>>, arity: Arity, x: T, y: T, z: T) -> Seq<
    T,
>
    decreases s,
{
    if s.len() == 0 {
        Seq::empty()
    } else {
        eval_list(s.drop_last(), arity, x, y, z).push(eval_spec(s.last(), arity, x, y, z))
    }
}

/// No node of `t` is a cache node.
pub open spec fn cache_free<T>(t: TaskSource<T>) -> bool
    decreases t,
{
    match t {
        TaskSource::Constant(_) | TaskSource::Fractal(_) | TaskSource::Gradient(_) => true,
        TaskSource::Cache(_) => false,
        TaskSource::Aggregate(a) => cache_free_list(a.sources@),
        TaskSource::Bias(b) => cache_free(b.source) && cache_free(b.bias),
        TaskSource::Scale(s) => cache_free(s.source) && cache_free(s.scale),
        TaskSource::ScaleOffset(s) => cache_free(s.source) && cache_free(s.scale) && cache_free(
            s.offset,
        ),
        TaskSource::Selector(s) => cache_free(s.condition) && cache_free(s.falloff) && cache_free(
            s.threshold,
        ) && cache_free(s.lower) && cache_free(s.upper),
        TaskSource::Domain(d) => cache_free(d.source) && cache_free(d.value_x) && cache_free(
            d.value_y,
        ) && cache_free(d.value_z),
    }
}

/// No node of any of `s` is a cache node.
pub open spec fn cache_free_list<T>(s: Seq<TaskSource<T>>) -> bool
    decreases s,
{
    if s.len() == 0 {
        true
    } else {
        cache_free_list(s.drop_last()) && cache_free(s.last())
    }
}

proof fn lemma_cache_free_list<T>(s: Seq<TaskSource<T>>, i: int)
    requires
        cache_free_list(s),
        0 <= i < s.len(),
    ensures
        cache_free(s[i]),
    decreases s.len(),
{
    if i < s.len() - 1 {
        lemma_cache_free_list(s.drop_last(), i);
    }
}

/// `a` and `b` are the same graph: equal variants and parameters, memo
/// slots and children, with source lists compared element by element.
pub open spec fn same_node<T: Float>(a: TaskSource<T>, b: TaskSource<T>) -> bool
    decreases a,
{
    match (a, b) {
        (TaskSource::Constant(x), TaskSource::Constant(y)) => x == y,
        (TaskSource::Aggregate(x), TaskSource::Aggregate(y)) => x.op == y.op && x.initial
            == y.initial && same_list(x.sources@, y.sources@),
        (TaskSource::Bias(x), TaskSource::Bias(y)) => x.min == y.min && x.max == y.max
            && same_node(x.bias, y.bias) && same_node(x.source, y.source),
        (TaskSource::Cache(x), TaskSource::Cache(y)) => x.memo_1d == y.memo_1d && x.memo_2d
            == y.memo_2d && x.memo_3d == y.memo_3d && same_node(x.source, y.source),
        (TaskSource::Scale(x), TaskSource::Scale(y)) => same_node(x.scale, y.scale) && same_node(
            x.source,
            y.source,
        ),
        (TaskSource::ScaleOffset(x), TaskSource::ScaleOffset(y)) => same_node(x.offset, y.offset)
            && same_node(x.scale, y.scale) && same_node(x.source, y.source),
        (TaskSource::Selector(x), TaskSource::Selector(y)) => x.blender == y.blender && same_node(
            x.condition,
            y.condition,
        ) && same_node(x.lower, y.lower) && same_node(x.upper, y.upper) && same_node(
            x.falloff,
            y.falloff,
        ) && same_node(x.threshold, y.threshold),
        (TaskSource::Domain(x), TaskSource::Domain(y)) => x.operation == y.operation && same_node(
            x.source,
            y.source,
        ) && same_node(x.value_x, y.value_x) && same_node(x.value_y, y.value_y) && same_node(
            x.value_z,
            y.value_z,
        ),
        (TaskSource::Fractal(x), TaskSource::Fractal(y)) => crate::fractal::same_fractal(*x, *y),
        (TaskSource::Gradient(x), TaskSource::Gradient(y)) => x == y,
        _ => false,
    }
}

/// `a` and `b` hold the same graphs, in order.
pub open spec fn same_list<T: Float>(a: Seq<TaskSource<T>>, b: Seq<TaskSource<T>>) -> bool
    decreases a,
{
    if a.len() == 0 {
        b.len() == 0
    } else {
        b.len() == a.len() && same_list(a.drop_last(), b.drop_last()) && same_node(
            a.last(),
            b.last(),
        )
    }
}

/// The same graph yields the same value everywhere, and holds a cache node
/// exactly when the other does.
pub proof fn lemma_same_node<T: Float>(a: TaskSource<T>, b: TaskSource<T>, arity: Arity, x: T, y: T, z: T)
    requires
        same_node(a, b),
    ensures
        eval_spec(a, arity, x, y, z) == eval_spec(b, arity, x, y, z),
        cache_free(a) == cache_free(b),
    decreases a,
{
    match (a, b) {
        (TaskSource::Aggregate(p), TaskSource::Aggregate(q)) => {
            lemma_same_list(p.sources@, q.sources@, arity, x, y, z);
        },
        (TaskSource::Bias(p), TaskSource::Bias(q)) => {
            lemma_same_node(p.bias, q.bias, arity, x, y, z);
            lemma_same_node(p.source, q.source, arity, x, y, z);
        },
        (TaskSource::Cache(p), TaskSource::Cache(q)) => {
            lemma_same_node(p.source, q.source, arity, x, y, z);
        },
        (TaskSource::Scale(p), TaskSource::Scale(q)) => {
            lemma_same_node(p.scale, q.scale, arity, x, y, z);
            lemma_same_node(p.source, q.source, arity, x, y, z);
        },
        (TaskSource::ScaleOffset(p), TaskSource::ScaleOffset(q)) => {
            lemma_same_node(p.offset, q.offset, arity, x, y, z);
            lemma_same_node(p.scale, q.scale, arity, x, y, z);
            lemma_same_node(p.source, q.source, arity, x, y, z);
        },
        (TaskSource::Selector(p), TaskSource::Selector(q)) => {
            lemma_same_node(p.condition, q.condition, arity, x, y, z);
            lemma_same_node(p.lower, q.lower, arity, x, y, z);
            lemma_same_node(p.upper, q.upper, arity, x, y, z);
            lemma_same_node(p.falloff, q.falloff, arity, x, y, z);
            lemma_same_node(p.threshold, q.threshold, arity, x, y, z);
        },
        (TaskSource::Domain(p), TaskSource::Domain(q)) => {
            lemma_same_node(p.value_x, q.value_x, arity, x, y, z);
            lemma_same_node(p.value_y, q.value_y, arity, x, y, z);
            lemma_same_node(p.value_z, q.value_z, arity, x, y, z);
            let op = p.operation;
            lemma_same_node(
                p.source,
                q.source,
                arity,
                transform_spec(op, x, eval_spec(p.value_x, arity, x, y, z)),
                transform_spec(op, y, eval_spec(p.value_y, arity, x, y, z)),
                transform_spec(op, z, eval_spec(p.value_z, arity, x, y, z)),
            );
        },
        (TaskSource::Fractal(p), TaskSource::Fractal(q)) => {
            crate::fractal::lemma_same_fractal_value(*p, *q, arity, x, y, z);
        },
        _ => {},
    }
}

proof fn lemma_same_list<T: Float>(a: Seq<TaskSource<T>>, b: Seq<TaskSource<T>>, arity: Arity, x: T, y: T, z: T)
    requires
        same_list(a, b),
    ensures
        eval_list(a, arity, x, y, z) == eval_list(b, arity, x, y, z),
        cache_free_list(a) == cache_free_list(b),
    decreases a,
{
    if a.len() > 0 {
        lemma_same_list(a.drop_last(), b.drop_last(), arity, x, y, z);
        lemma_same_node(a.last(), b.last(), arity, x, y, z);
    }
}

/// One step of an aggregation.
pub fn aggregate_step<T: Float>(op: Operation, acc: T, v: T) -> (r: T)
    ensures
        r == step_spec(op, acc, v),
{
    match op {
        Operation::Add | Operation::Avg => acc.add(v),
        Operation::Sub => acc.sub(v),
        Operation::Mul => acc.mul(v),
        Operation::Div => acc.div(v),
        Operation::Max => if acc.lt(v) {
            v
        } else {
            acc
        },
        Operation::Min => if acc.lt(v) {
            acc
        } else {
            v
        },
    }
}

/// The seed an aggregation uses when none is configured.
pub fn default_initial<T: Float>(op: Operation) -> (r: T)
    ensures
        r == default_initial_spec::<T>(op),
{
    match op {
        Operation::Div | Operation::Mul => T::from_u16(1),
        Operation::Min => T::max_val(),
        Operation::Max => T::min_val(),
        _ => T::from_u16(0),
    }
}

/// The selector's decision for condition `c`, falloff `f` and threshold `t`.
pub fn selector_branch<T: Float>(blender: FractalBlender, c: T, f: T, t: T) -> (r: Branch<T>)
    ensures
        r == branch_spec(blender, c, f, t),
{
    if T::from_u16(0).lt(f) {
        let l = t.sub(f);
        let u = t.add(f);
        if c.lt(l) {
            Branch::Lower
        } else if u.lt(c) {
            Branch::Upper
        } else {
            Branch::Blend(blender.apply(c.sub(l).div(u.sub(l))))
        }
    } else if c.lt(t) {
        Branch::Lower
    } else {
        Branch::Upper
    }
}

/// The bias node's value for source sample `v` and bias sample `b`.
pub fn bias_value<T: Float>(v: T, b: T, min: T, max: T) -> (r: T)
    ensures
        r == bias_spec(v, b, min, max),
{
    let zero = T::from_u16(0);
    let t = clamp(v, zero, T::from_u16(1));
    let p = crate::math::max(b.mul(max).add(min), zero);
    ease_in_out(t, p)
}


/// Reduces the samples of a list of sources with an [`Operation`].
#[derive(Debug)]
pub struct Aggregator<T> {
    pub op: Operation,
    pub initial: T,
    pub sources: Vec<TaskSource<T>>,
}

/// Warps a source's sample through an ease curve whose exponent is read
/// from a second source.
#[derive(Debug)]
pub struct Bias<T> {
    pub bias: TaskSource<T>,
    pub source: TaskSource<T>,
    pub min: T,
    pub max: T,
}

/// The remembered result of one sample: its coordinates and value.
#[derive(Clone, Copy, Debug)]
pub struct CacheValue<T> {
    pub x: T,
    pub y: T,
    pub z: T,
    pub value: T,
}

/// Remembers the most recent sample of its source, one slot per arity.
#[derive(Debug)]
pub struct Cache<T> {
    pub memo_1d: Option<CacheValue<T>>,
    pub memo_2d: Option<CacheValue<T>>,
    pub memo_3d: Option<CacheValue<T>>,
    pub source: TaskSource<T>,
}

/// Multiplies a source's sample by a second source's sample.
#[derive(Debug)]
pub struct Scale<T> {
    pub scale: TaskSource<T>,
    pub source: TaskSource<T>,
}

/// `source · scale + offset`, each read from a source.
#[derive(Debug)]
pub struct ScaleOffset<T> {
    pub offset: TaskSource<T>,
    pub scale: TaskSource<T>,
    pub source: TaskSource<T>,
}

/// Chooses or blends between a lower and an upper source by comparing a
/// condition with a threshold.
#[derive(Debug)]
pub struct Selector<T> {
    pub blender: FractalBlender,
    pub condition: TaskSource<T>,
    pub lower: TaskSource<T>,
    pub upper: TaskSource<T>,
    pub falloff: TaskSource<T>,
    pub threshold: TaskSource<T>,
}

/// Moves the input coordinate by three sources' samples before sampling
/// its own source there.
#[derive(Debug)]
pub struct TransformDomain<T> {
    pub source: TaskSource<T>,
    pub operation: DomainOperation,
    pub value_x: TaskSource<T>,
    pub value_y: TaskSource<T>,
    pub value_z: TaskSource<T>,
}

/// A node of the noise graph.
#[derive(Debug)]
pub enum TaskSource<T> {
    Aggregate(Aggregator<T>),
    Bias(Box<Bias<T>>),
    Cache(Box<Cache<T>>),
    Constant(T),
    Scale(Box<Scale<T>>),
    ScaleOffset(Box<ScaleOffset<T>>),
    Selector(Box<Selector<T>>),
    Domain(Box<TransformDomain<T>>),
    Fractal(Box<Fractal<T>>),
    Gradient(Box<Gradient<T>>),
}

impl<T: Float> Cache<T> {
    /// The memo slot for `arity`.
    pub open spec fn memo(&self, arity: Arity) -> Option<CacheValue<T>> {
        match arity {
            Arity::One => self.memo_1d,
            Arity::Two => self.memo_2d,
            Arity::Three => self.memo_3d,
        }
    }

    /// `m` was taken at a coordinate nearly equal to `(x, y, z)`.
    pub open spec fn hits(m: CacheValue<T>, x: T, y: T, z: T) -> bool {
        crate::float::nearly_eq_spec(m.x, x) && crate::float::nearly_eq_spec(m.y, y)
            && crate::float::nearly_eq_spec(m.z, z)
    }

    /// Stores `m` in the slot for `arity`.
    pub fn set_memo(&mut self, arity: Arity, m: Option<CacheValue<T>>)
        ensures
            final(self).memo(arity) == m,
            forall|a: Arity| a != arity ==> final(self).memo(a) == old(self).memo(a),
            final(self).source == old(self).source,
    {
        match arity {
            Arity::One => self.memo_1d = m,
            Arity::Two => self.memo_2d = m,
            Arity::Three => self.memo_3d = m,
        }
    }

    fn lookup(&self, arity: Arity, x: T, y: T, z: T) -> (r: Option<T>)
        ensures
            r == (match self.memo(arity) {
                Some(m) => if Self::hits(m, x, y, z) {
                    Some(m.value)
                } else {
                    None
                },
                None => None,
            }),
    {
        let slot = match arity {
            Arity::One => self.memo_1d,
            Arity::Two => self.memo_2d,
            Arity::Three => self.memo_3d,
        };
        match slot {
            Some(m) => if crate::math::nearly_eq(m.x, x) && crate::math::nearly_eq(m.y, y)
                && crate::math::nearly_eq(m.z, z) {
                Some(m.value)
            } else {
                None
            },
            None => None,
        }
    }
}

impl<T: Float> Aggregator<T> {
    /// The aggregation of `samples`, one per source, in source order.
    pub fn combine(&self, samples: &Vec<T>) -> (r: T)
        ensures
            r == aggregate_spec(self.op, self.initial, samples@),
    {
        let mut acc = self.initial;
        let mut i: usize = 0;
        while i < samples.len()
            invariant
                i <= samples.len(),
                acc == fold_spec(self.op, self.initial, samples@.subrange(0, i as int)),
            decreases samples.len() - i,
        {
            proof {
                let s = samples@.subrange(0, i as int + 1);
                assert(s.drop_last() =~= samples@.subrange(0, i as int));
            }
            acc = aggregate_step(self.op, acc, samples[i]);
            i = i + 1;
        }
        proof {
            assert(samples@.subrange(0, samples.len() as int) =~= samples@);
        }
        if self.op == Operation::Avg && samples.len() > 0 {
            acc.div(T::from_usize(samples.len()))
        } else {
            acc
        }
    }
}

impl<T: Float> TaskSource<T> {
    /// Samples the node at `(x, y, z)`, reading as many coordinates as
    /// `arity` says (the others are passed as zero).
    pub fn sample_at(&mut self, arity: Arity, x: T, y: T, z: T) -> (r: T)
        ensures
            final(self).kind() == old(self).kind(),
            cache_free(*old(self)) ==> r == eval_spec(*old(self), arity, x, y, z),
            (match *old(self) {
                TaskSource::Constant(v) => r == v && *final(self) == *old(self),
                TaskSource::Fractal(f) => r == f.value_spec(arity, x, y, z) && *final(self)
                    == *old(self),
                TaskSource::Gradient(g) => r == crate::source::noise_spec(
                    crate::source::Noise::Gradient(*g),
                    arity,
                    x,
                    y,
                    z,
                ) && *final(self) == *old(self),
                TaskSource::Cache(c) => match c.memo(arity) {
                    Some(m) if Cache::hits(m, x, y, z) => r == m.value && *final(self)
                        == *old(self),
                    _ => final(self)->Cache_0.memo(arity) == Some(
                        CacheValue { x, y, z, value: r },
                    ) && (forall|a: Arity|
                        a != arity ==> #[trigger] final(self)->Cache_0.memo(a) == c.memo(a)) && (
                    cache_free(c.source) ==> r == eval_spec(c.source, arity, x, y, z)),
                },
                _ => true,
            }),
        decreases *old(self),
    {
        match self {
            TaskSource::Constant(v) => *v,
            TaskSource::Aggregate(a) => {
                let ghost old_a = *a;
                let ghost orig = a.sources@;
                proof {
                    assert(decreases_to!(*old(self) => old_a));
                }
                let mut rest: Vec<TaskSource<T>> = Vec::new();
                std::mem::swap(&mut rest, &mut a.sources);
                let mut done: Vec<TaskSource<T>> = Vec::new();
                let mut samples: Vec<T> = Vec::new();
                let n = rest.len();
                let mut i: usize = 0;
                while i < n
                    invariant
                        n == orig.len(),
                        i <= n,
                        rest@ == orig.subrange(i as int, n as int),
                        samples.len() == i,
                        cache_free(*old(self)) ==> cache_free_list(orig),
                        cache_free(*old(self)) ==> samples@ == eval_list(
                            orig.subrange(0, i as int),
                            arity,
                            x,
                            y,
                            z,
                        ),
                        decreases_to!(*old(self) => old_a),
                        orig == old_a.sources@,
                    decreases n - i,
                {
                    let mut c = rest.remove(0);
                    proof {
                        assert(c == old_a.sources[i as int]);
                        assert(decreases_to!(old_a.sources => old_a.sources[i as int]));
                        assert(decreases_to!(old_a => old_a.sources));
                    }
                    proof {
                        if cache_free(*old(self)) {
                            lemma_cache_free_list(orig, i as int);
                            assert(orig.subrange(0, i as int + 1).drop_last() =~= orig.subrange(
                                0,
                                i as int,
                            ));
                        }
                    }
                    let v = c.sample_at(arity, x, y, z);
                    samples.push(v);
                    done.push(c);
                    i = i + 1;
                }
                proof {
                    assert(orig.subrange(0, n as int) =~= orig);
                }
                a.sources = done;
                a.combine(&samples)
            },
            TaskSource::Bias(b) => {
                let v = b.source.sample_at(arity, x, y, z);
                let bv = b.bias.sample_at(arity, x, y, z);
                bias_value(v, bv, b.min, b.max)
            },
            TaskSource::Cache(c) => {
                match c.lookup(arity, x, y, z) {
                    Some(v) => v,
                    None => {
                        let v = c.source.sample_at(arity, x, y, z);
                        c.set_memo(arity, Some(CacheValue { x, y, z, value: v }));
                        v
                    },
                }
            },
            TaskSource::Scale(s) => {
                let v = s.source.sample_at(arity, x, y, z);
                let f = s.scale.sample_at(arity, x, y, z);
                v.mul(f)
            },
            TaskSource::ScaleOffset(s) => {
                let v = s.source.sample_at(arity, x, y, z);
                let f = s.scale.sample_at(arity, x, y, z);
                let o = s.offset.sample_at(arity, x, y, z);
                v.mul(f).add(o)
            },
            TaskSource::Selector(s) => {
                let c = s.condition.sample_at(arity, x, y, z);
                let f = s.falloff.sample_at(arity, x, y, z);
                let t = s.threshold.sample_at(arity, x, y, z);
                match selector_branch(s.blender, c, f, t) {
                    Branch::Lower => s.lower.sample_at(arity, x, y, z),
                    Branch::Upper => s.upper.sample_at(arity, x, y, z),
                    Branch::Blend(w) => {
                        let lo = s.lower.sample_at(arity, x, y, z);
                        let up = s.upper.sample_at(arity, x, y, z);
                        lerp(lo, up, w)
                    },
                }
            },
            TaskSource::Domain(d) => {
                let dx = d.value_x.sample_at(arity, x, y, z);
                let dy = d.value_y.sample_at(arity, x, y, z);
                let dz = d.value_z.sample_at(arity, x, y, z);
                let (nx, ny, nz) = match d.operation {
                    DomainOperation::Translate => (x.add(dx), y.add(dy), z.add(dz)),
                    DomainOperation::Scale => (x.mul(dx), y.mul(dy), z.mul(dz)),
                };
                d.source.sample_at(arity, nx, ny, nz)
            },
            TaskSource::Fractal(f) => f.sample_at(arity, x, y, z),
            TaskSource::Gradient(g) => match arity {
                Arity::One => g.sample_1d(x),
                Arity::Two => g.sample_2d(x, y),
                Arity::Three => g.sample_3d(x, y, z),
            },
        }
    }
}

impl<T: Float> TaskSource<T> {
    /// The variant of the node.
    pub open spec fn kind(&self) -> int {
        match self {
            TaskSource::Aggregate(_) => 0,
            TaskSource::Bias(_) => 1,
            TaskSource::Cache(_) => 2,
            TaskSource::Constant(_) => 3,
            TaskSource::Scale(_) => 4,
            TaskSource::ScaleOffset(_) => 5,
            TaskSource::Selector(_) => 6,
            TaskSource::Domain(_) => 7,
            TaskSource::Fractal(_) => 8,
            TaskSource::Gradient(_) => 9,
        }
    }

    /// A copy of the node and everything under it.
    pub fn duplicate(&self) -> (r: TaskSource<T>)
        ensures
            same_node(r, *self),
            r.kind() == self.kind(),
        decreases *self,
    {
        match self {
            TaskSource::Constant(v) => {
                TaskSource::Constant(*v)
            },
            TaskSource::Aggregate(a) => {
                let mut sources: Vec<TaskSource<T>> = Vec::new();
                let mut i: usize = 0;
                while i < a.sources.len()
                    invariant
                        *self == TaskSource::Aggregate(*a),
                        i <= a.sources.len(),
                        sources.len() == i,
                        same_list(sources@, a.sources@.subrange(0, i as int)),
                    decreases a.sources.len() - i,
                {
                    proof {
                        assert(decreases_to!(a.sources => a.sources[i as int]));
                        assert(decreases_to!(*a => a.sources));
                        assert(decreases_to!(*self => self->Aggregate_0));
                    }
                    let c = a.sources[i].duplicate();
                    proof {
                        let prev = sources@;
                        assert(sources@.push(c).drop_last() =~= prev);
                        assert(a.sources@.subrange(0, i as int + 1).drop_last() =~= a.sources@.subrange(
                            0,
                            i as int,
                        ));
                    }
                    sources.push(c);
                    i = i + 1;
                }
                proof {
                    assert(a.sources@.subrange(0, a.sources@.len() as int) =~= a.sources@);
                }
                TaskSource::Aggregate(Aggregator { op: a.op, initial: a.initial, sources })
            },
            TaskSource::Bias(b) => {
                let r = TaskSource::Bias(
                Box::new(
                    Bias {
                        bias: b.bias.duplicate(),
                        source: b.source.duplicate(),
                        min: b.min,
                        max: b.max,
                    },
                ),
            );
                r
            },
            TaskSource::Cache(c) => {
                let r = TaskSource::Cache(
                Box::new(
                    Cache {
                        memo_1d: c.memo_1d,
                        memo_2d: c.memo_2d,
                        memo_3d: c.memo_3d,
                        source: c.source.duplicate(),
                    },
                ),
            );
                r
            },
            TaskSource::Scale(sc) => {
                let r = TaskSource::Scale(
                Box::new(Scale { scale: sc.scale.duplicate(), source: sc.source.duplicate() }),
            );
                r
            },
            TaskSource::ScaleOffset(so) => {
                let r = TaskSource::ScaleOffset(
                Box::new(
                    ScaleOffset {
                        offset: so.offset.duplicate(),
                        scale: so.scale.duplicate(),
                        source: so.source.duplicate(),
                    },
                ),
            );
                r
            },
            TaskSource::Selector(se) => {
                let r = TaskSource::Selector(
                Box::new(
                    Selector {
                        blender: se.blender,
                        condition: se.condition.duplicate(),
                        lower: se.lower.duplicate(),
                        upper: se.upper.duplicate(),
                        falloff: se.falloff.duplicate(),
                        threshold: se.threshold.duplicate(),
                    },
                ),
            );
                r
            },
            TaskSource::Domain(d) => {
                let r = TaskSource::Domain(
                Box::new(
                    TransformDomain {
                        source: d.source.duplicate(),
                        operation: d.operation,
                        value_x: d.value_x.duplicate(),
                        value_y: d.value_y.duplicate(),
                        value_z: d.value_z.duplicate(),
                    },
                ),
            );
                r
            },
            TaskSource::Fractal(f) => TaskSource::Fractal(Box::new(f.duplicate())),
            TaskSource::Gradient(g) => TaskSource::Gradient(
                Box::new(Gradient { s1: g.s1, dir: g.dir, mag: g.mag }),
            ),
        }
    }
}

impl<T: Float> TaskSource<T> {
    /// Samples the node at `x`.
    pub fn sample_1d(&mut self, x: T) -> (r: T)
        ensures
            cache_free(*old(self)) ==> r == eval_spec(*old(self), Arity::One, x, crate::float::zero::<T>(), crate::float::zero::<T>()),
            (match *old(self) {
                TaskSource::Constant(v) => r == v,
                _ => true,
            }),
    {
        let zero = T::from_u16(0);
        self.sample_at(Arity::One, x, zero, zero)
    }

    /// Samples the node at `(x, y)`.
    pub fn sample_2d(&mut self, x: T, y: T) -> (r: T)
        ensures
            cache_free(*old(self)) ==> r == eval_spec(*old(self), Arity::Two, x, y, crate::float::zero::<T>()),
            (match *old(self) {
                TaskSource::Constant(v) => r == v,
                _ => true,
            }),
    {
        self.sample_at(Arity::Two, x, y, T::from_u16(0))
    }

    /// Samples the node at `(x, y, z)`.
    pub fn sample_3d(&mut self, x: T, y: T, z: T) -> (r: T)
        ensures
            cache_free(*old(self)) ==> r == eval_spec(*old(self), Arity::Three, x, y, z),
            (match *old(self) {
                TaskSource::Constant(v) => r == v,
                _ => true,
            }),
    {
        self.sample_at(Arity::Three, x, y, z)
    }

    /// Stores `m` in a cache node's memo slot for `arity`; other nodes are
    /// left as they are.
    pub fn set_memo(&mut self, arity: Arity, m: Option<CacheValue<T>>)
        ensures
            *old(self) is Cache ==> *final(self) is Cache && final(self)->Cache_0.memo(arity) == m,
            !(*old(self) is Cache) ==> *final(self) == *old(self),
    {
        match self {
            TaskSource::Cache(c) => c.set_memo(arity, m),
            _ => {},
        }
    }
}

} // verus!
