//! Declarative node descriptions, the names each one depends on, and the
//! construction of a registry from a set of named descriptions.
use vstd::prelude::*;
use crate::builder::{
    all_resolved, AggregatorBuilder, BiasBuilder, BuildError, CacheBuilder, ScaleBuilder, ScaleOffsetBuilder,
    SelectorBuilder, TransformDomainBuilder,
};
use crate::float::Float;
use crate::fractal::{FractalBuilder, FractalSource, FractalType};
use crate::math::FractalBlender;
use crate::source::{Gradient, Noise, Perlin};
use crate::task::{DomainOperation, Operation, TaskSource};
use crate::tree::{extends, lemma_first_extends, linked, TaskTree};

verus! {

/// A child given by name or as a constant value.
#[derive(Debug)]
pub enum NameOrConst<T> {
    Named(String),
    Value(T),
}

impl<T: Float> NameOrConst<T> {
    /// The names this child refers to: its name, or none.
    pub open spec fn names(&self) -> Seq<Seq<char>> {
        match self {
            NameOrConst::Named(n) => seq![n@],
            NameOrConst::Value(_) => Seq::empty(),
        }
    }

    pub fn is_named(&self) -> (r: bool)
        ensures
            r == (self is Named),
    {
        match self {
            NameOrConst::Named(_) => true,
            NameOrConst::Value(_) => false,
        }
    }

    /// Appends the name this child refers to, if any.
    fn push_name(&self, out: &mut Vec<String>)
        ensures
            keys_of(final(out)@) == keys_of(old(out)@) + self.names(),
    {
        match self {
            NameOrConst::Named(n) => {
                out.push(n.clone());
                proof {
                    assert(keys_of(final(out)@) =~= keys_of(old(out)@) + self.names());
                }
            },
            NameOrConst::Value(_) => {
                proof {
                    assert(keys_of(final(out)@) =~= keys_of(old(out)@) + self.names());
                }
            },
        }
    }
}

/// The names of `names`, as character sequences.
pub open spec fn keys_of(names: Seq<String>) -> Seq<Seq<char>> {
    crate::tree::keys_of(names)
}

/// An aggregation of children.
#[derive(Debug)]
pub struct AggregateConfig<T> {
    pub operator: Operation,
    pub initial: T,
    pub source: Vec<NameOrConst<T>>,
}

/// A bias node: `source` eased with an exponent read from `bias`.
#[derive(Debug)]
pub struct BiasConfig<T> {
    pub bias: NameOrConst<T>,
    pub source: NameOrConst<T>,
    pub min: T,
    pub max: T,
}

/// `source · scale`.
#[derive(Debug)]
pub struct ScaleConfig<T> {
    pub scale: NameOrConst<T>,
    pub source: NameOrConst<T>,
}

/// `source · scale + offset`.
#[derive(Debug)]
pub struct ScaleOffsetConfig<T> {
    pub offset: NameOrConst<T>,
    pub scale: NameOrConst<T>,
    pub source: NameOrConst<T>,
}

/// A selector between `lower` and `upper`.
#[derive(Debug)]
pub struct SelectorConfig<T> {
    pub interp: FractalBlender,
    pub condition: NameOrConst<T>,
    pub lower: NameOrConst<T>,
    pub upper: NameOrConst<T>,
    pub falloff: NameOrConst<T>,
    pub threshold: NameOrConst<T>,
}

/// A domain transform of `source` by `(dx, dy, dz)`.
#[derive(Debug)]
pub struct TransformDomainConfig<T> {
    pub operation: DomainOperation,
    pub dx: NameOrConst<T>,
    pub dy: NameOrConst<T>,
    pub dz: NameOrConst<T>,
    pub source: NameOrConst<T>,
}

/// A fractal over a primitive generator; `exponent` and `offset` are the
/// ridged-multi parameters and keep their defaults when absent.
#[derive(Debug)]
pub struct FractalConfig<T> {
    pub amplitude: T,
    pub exponent: Option<T>,
    pub fractal: FractalType,
    pub frequency: T,
    pub gain: T,
    pub interp: FractalBlender,
    pub lacunarity: T,
    pub octaves: u16,
    pub offset: Option<T>,
    pub source: FractalSource,
}

/// A linear ramp from `(x1, y1, z1)` to `(x2, y2, z2)`.
#[derive(Debug)]
pub struct GradientConfig<T> {
    pub x1: T,
    pub y1: T,
    pub z1: T,
    pub x2: T,
    pub y2: T,
    pub z2: T,
}

/// The description of one named node.
#[derive(Debug)]
pub enum TaskConfig<T> {
    Aggregate(AggregateConfig<T>),
    Bias(BiasConfig<T>),
    Cache(String),
    Constant(T),
    Fractal(FractalConfig<T>),
    Gradient(GradientConfig<T>),
    Scale(ScaleConfig<T>),
    ScaleOffset(ScaleOffsetConfig<T>),
    Selector(SelectorConfig<T>),
    TransformDomain(TransformDomainConfig<T>),
}

/// The names referred to by a list of children, in order.
pub open spec fn names_of_list<T: Float>(s: Seq<NameOrConst<T>>) -> Seq<Seq<char>>
    decreases s.len(),
{
    if s.len() == 0 {
        Seq::empty()
    } else {
        names_of_list(s.drop_last()) + s.last().names()
    }
}

impl<T: Float> TaskConfig<T> {
    /// The names this description refers to, in field order, one entry per
    /// reference.
    pub open spec fn deps(&self) -> Seq<Seq<char>> {
        match self {
            TaskConfig::Aggregate(a) => names_of_list(a.source@),
            TaskConfig::Bias(b) => b.bias.names() + b.source.names(),
            TaskConfig::Cache(n) => seq![n@],
            TaskConfig::Constant(_) => Seq::empty(),
            TaskConfig::Fractal(_) => Seq::empty(),
            TaskConfig::Gradient(_) => Seq::empty(),
            TaskConfig::Scale(s) => s.scale.names() + s.source.names(),
            TaskConfig::ScaleOffset(s) => s.offset.names() + s.scale.names() + s.source.names(),
            TaskConfig::Selector(s) => s.condition.names() + s.lower.names() + s.upper.names()
                + s.falloff.names() + s.threshold.names(),
            TaskConfig::TransformDomain(d) => d.dx.names() + d.dy.names() + d.dz.names()
                + d.source.names(),
        }
    }

    /// The names this description refers to.
    pub fn dependencies(&self) -> (r: Vec<String>)
        ensures
            keys_of(r@) == self.deps(),
    {
        let mut r: Vec<String> = Vec::new();
        proof {
            assert(keys_of(r@) =~= Seq::<Seq<char>>::empty());
        }
        match self {
            TaskConfig::Aggregate(a) => {
                let mut i: usize = 0;
                while i < a.source.len()
                    invariant
                        i <= a.source.len(),
                        keys_of(r@) == names_of_list(a.source@.subrange(0, i as int)),
                    decreases a.source.len() - i,
                {
                    proof {
                        assert(a.source@.subrange(0, i as int + 1).drop_last() =~= a.source@.subrange(
                            0,
                            i as int,
                        ));
                    }
                    a.source[i].push_name(&mut r);
                    i = i + 1;
                }
                proof {
                    assert(a.source@.subrange(0, a.source.len() as int) =~= a.source@);
                }
            },
            TaskConfig::Bias(b) => {
                b.bias.push_name(&mut r);
                b.source.push_name(&mut r);
            },
            TaskConfig::Cache(n) => {
                r.push(n.clone());
                proof {
                    assert(keys_of(r@) =~= seq![n@]);
                }
            },
            TaskConfig::Constant(_) => {},
            TaskConfig::Fractal(_) => {},
            TaskConfig::Gradient(_) => {},
            TaskConfig::Scale(s) => {
                s.scale.push_name(&mut r);
                s.source.push_name(&mut r);
            },
            TaskConfig::ScaleOffset(s) => {
                s.offset.push_name(&mut r);
                s.scale.push_name(&mut r);
                s.source.push_name(&mut r);
            },
            TaskConfig::Selector(s) => {
                s.condition.push_name(&mut r);
                s.lower.push_name(&mut r);
                s.upper.push_name(&mut r);
                s.falloff.push_name(&mut r);
                s.threshold.push_name(&mut r);
            },
            TaskConfig::TransformDomain(d) => {
                d.dx.push_name(&mut r);
                d.dy.push_name(&mut r);
                d.dz.push_name(&mut r);
                d.source.push_name(&mut r);
            },
        }
        r
    }
}

/// Why a registry could not be built from descriptions.
#[derive(Debug)]
pub enum LoadError {
    Graph(crate::sort::GraphError),
    Build(BuildError),
}

/// `f` is the builder field for child `c`.
pub open spec fn child_of<T: Float>(c: NameOrConst<T>, f: crate::tree::NameOrSource<T>) -> bool {
    match c {
        NameOrConst::Named(n) => f is Named && f->Named_0@ == n@,
        NameOrConst::Value(v) => f == crate::tree::NameOrSource::Source(TaskSource::Constant(v)),
    }
}

/// The builder value for a child given by name or as a constant.
fn child<T: Float>(c: &NameOrConst<T>) -> (r: crate::tree::NameOrSource<T>)
    ensures
        child_of(*c, r),
{
    match c {
        NameOrConst::Named(n) => crate::tree::NameOrSource::Named(n.clone()),
        NameOrConst::Value(v) => crate::tree::NameOrSource::Source(TaskSource::Constant(*v)),
    }
}

/// `c` can be resolved against `tree`: a constant, or a registered name.
pub open spec fn known<T: Float>(c: NameOrConst<T>, tree: TaskTree<T>) -> bool {
    match c {
        NameOrConst::Named(n) => tree.contains(n@),
        NameOrConst::Value(_) => true,
    }
}

/// `t` is the node that child `c` stands for in `tree`: the constant, or a
/// copy of the node first registered under the name.
pub open spec fn resolves<T: Float>(c: NameOrConst<T>, t: TaskSource<T>, tree: TaskTree<T>) -> bool {
    match c {
        NameOrConst::Named(n) => exists|i: int|
            tree.is_first(i, n@) && crate::task::same_node(t, tree.task_at(i)),
        NameOrConst::Value(v) => t == TaskSource::Constant(v),
    }
}

/// The two gradient points differ.
pub open spec fn apart<T: Float>(g: GradientConfig<T>) -> bool {
    crate::float::zero::<T>().less(
        crate::source::dot_spec(
            [g.x2.diff(g.x1), g.y2.diff(g.y1), g.z2.diff(g.z1)],
            [g.x2.diff(g.x1), g.y2.diff(g.y1), g.z2.diff(g.z1)],
        ),
    )
}

impl<T: Float> TaskConfig<T> {
    /// The description can be built against `tree`: every child it names
    /// is registered, a gradient's points are apart, and a fractal has at
    /// least one octave.
    pub open spec fn buildable(&self, tree: TaskTree<T>) -> bool {
        match self {
            TaskConfig::Aggregate(a) => forall|i: int|
                0 <= i < a.source@.len() ==> known(#[trigger] a.source@[i], tree),
            TaskConfig::Bias(b) => known(b.bias, tree) && known(b.source, tree),
            TaskConfig::Cache(n) => tree.contains(n@),
            TaskConfig::Constant(_) => true,
            TaskConfig::Fractal(f) => f.octaves >= 1,
            TaskConfig::Gradient(g) => apart(*g),
            TaskConfig::Scale(c) => known(c.scale, tree) && known(c.source, tree),
            TaskConfig::ScaleOffset(c) => known(c.offset, tree) && known(c.scale, tree) && known(
                c.source,
                tree,
            ),
            TaskConfig::Selector(c) => known(c.condition, tree) && known(c.lower, tree) && known(
                c.upper,
                tree,
            ) && known(c.falloff, tree) && known(c.threshold, tree),
            TaskConfig::TransformDomain(c) => known(c.dx, tree) && known(c.dy, tree) && known(
                c.dz,
                tree,
            ) && known(c.source, tree),
        }
    }

    /// `t` is the node this description stands for in `tree`.
    pub open spec fn built_from(&self, t: TaskSource<T>, tree: TaskTree<T>) -> bool {
        match self {
            TaskConfig::Aggregate(a) => t is Aggregate && t->Aggregate_0.op == a.operator
                && t->Aggregate_0.initial == a.initial && t->Aggregate_0.sources@.len()
                == a.source@.len() && forall|i: int|
                0 <= i < a.source@.len() ==> resolves(
                    a.source@[i],
                    #[trigger] t->Aggregate_0.sources@[i],
                    tree,
                ),
            TaskConfig::Bias(b) => t is Bias && t->Bias_0.min == b.min && t->Bias_0.max == b.max
                && resolves(b.bias, t->Bias_0.bias, tree) && resolves(b.source, t->Bias_0.source, tree),
            TaskConfig::Cache(n) => t is Cache && t->Cache_0.memo_1d is None && t->Cache_0.memo_2d is None
                && t->Cache_0.memo_3d is None && exists|i: int|
                tree.is_first(i, n@) && crate::task::same_node(t->Cache_0.source, tree.task_at(i)),
            TaskConfig::Constant(v) => t == TaskSource::Constant(*v),
            TaskConfig::Fractal(f) => t is Fractal && t->Fractal_0.fractal == f.fractal
                && t->Fractal_0.config == (crate::fractal::NoiseConfig {
                octaves: f.octaves,
                lacunarity: f.lacunarity,
                gain: f.gain,
                frequency: f.frequency,
                amplitude: f.amplitude,
            }),
            TaskConfig::Gradient(g) => t is Gradient && t->Gradient_0.s1 == [g.x1, g.y1, g.z1],
            TaskConfig::Scale(c) => t is Scale && resolves(c.scale, t->Scale_0.scale, tree) && resolves(
                c.source,
                t->Scale_0.source,
                tree,
            ),
            TaskConfig::ScaleOffset(c) => t is ScaleOffset && resolves(
                c.offset,
                t->ScaleOffset_0.offset,
                tree,
            ) && resolves(c.scale, t->ScaleOffset_0.scale, tree) && resolves(
                c.source,
                t->ScaleOffset_0.source,
                tree,
            ),
            TaskConfig::Selector(c) => t is Selector && t->Selector_0.blender == c.interp && resolves(
                c.condition,
                t->Selector_0.condition,
                tree,
            ) && resolves(c.lower, t->Selector_0.lower, tree) && resolves(
                c.upper,
                t->Selector_0.upper,
                tree,
            ) && resolves(c.falloff, t->Selector_0.falloff, tree) && resolves(
                c.threshold,
                t->Selector_0.threshold,
                tree,
            ),
            TaskConfig::TransformDomain(c) => t is Domain && t->Domain_0.operation == c.operation
                && resolves(c.dx, t->Domain_0.value_x, tree) && resolves(
                c.dy,
                t->Domain_0.value_y,
                tree,
            ) && resolves(c.dz, t->Domain_0.value_z, tree) && resolves(
                c.source,
                t->Domain_0.source,
                tree,
            ),
        }
    }

    /// Builds the node this description stands for, looking the names it
    /// refers to up in `tree`. It succeeds exactly when the description is
    /// buildable.
    pub fn config_into(&self, tree: &TaskTree<T>) -> (r: Result<TaskSource<T>, BuildError>)
        requires
            tree.wf(),
        ensures
            r is Ok <==> self.buildable(*tree),
            r is Ok ==> self.built_from(r->Ok_0, *tree),
    {
        match self {
            TaskConfig::Aggregate(a) => {
                let mut b = AggregatorBuilder::new().initial(a.initial).operation(a.operator);
                let mut i: usize = 0;
                while i < a.source.len()
                    invariant
                        i <= a.source.len(),
                        b.op == a.operator,
                        b.initial == Some(a.initial),
                        b.sources@.len() == i,
                        forall|k: int|
                            0 <= k < i ==> child_of(a.source@[k], #[trigger] b.sources@[k]),
                    decreases a.source.len() - i,
                {
                    let ghost prev = b.sources@;
                    b = b.add_child(child(&a.source[i]));
                    proof {
                        assert forall|k: int| 0 <= k < i + 1 implies child_of(
                            a.source@[k],
                            #[trigger] b.sources@[k],
                        ) by {
                            if k < i {
                                assert(b.sources@[k] == prev[k]);
                            }
                        }
                    }
                    i = i + 1;
                }
                let linked_b = b.link(tree);
                let r = linked_b.build();
                proof {
                    assert(all_resolved(linked_b.sources@) <==> self.buildable(*tree)) by {
                        if self.buildable(*tree) {
                            assert forall|k: int| 0 <= k < linked_b.sources@.len() implies (
                            #[trigger] linked_b.sources@[k]) is Source by {
                                assert(known(a.source@[k], *tree));
                                assert(linked(b.sources@[k], linked_b.sources@[k], *tree));
                            }
                        } else {
                            let k = choose|k: int|
                                0 <= k < a.source@.len() && !known(#[trigger] a.source@[k], *tree);
                            assert(linked(b.sources@[k], linked_b.sources@[k], *tree));
                            assert(!(linked_b.sources@[k] is Source));
                        }
                    }
                    if r is Ok {
                        let t = r->Ok_0;
                        assert forall|k: int| 0 <= k < a.source@.len() implies resolves(
                            a.source@[k],
                            #[trigger] t->Aggregate_0.sources@[k],
                            *tree,
                        ) by {
                            assert(linked(b.sources@[k], linked_b.sources@[k], *tree));
                            assert(t->Aggregate_0.sources@[k] == linked_b.sources@[k]->Source_0);
                        }
                    }
                }
                r
            },
            TaskConfig::Bias(c) => {
                let b = BiasBuilder {
                    min: c.min,
                    max: c.max,
                    bias: child(&c.bias),
                    source: child(&c.source),
                };
                b.link(tree).build()
            },
            TaskConfig::Cache(n) => CacheBuilder::new().named_source(n.as_str()).link(tree).build(),
            TaskConfig::Constant(v) => Ok(TaskSource::Constant(*v)),
            TaskConfig::Fractal(c) => {
                if c.octaves == 0 {
                    return Err(
                        BuildError {
                            builder: crate::builder::BuilderKind::Fractal,
                            field: crate::builder::Field::Octaves,
                            name: String::new(),
                        },
                    );
                }
                let noise = match c.source {
                    FractalSource::Perlin => Noise::Perlin(Perlin::new(c.interp)),
                };
                let defaults = FractalBuilder::<T>::new();
                let b = FractalBuilder {
                    source: noise,
                    fractal: c.fractal,
                    octaves: c.octaves,
                    lacunarity: c.lacunarity,
                    gain: c.gain,
                    frequency: c.frequency,
                    amplitude: c.amplitude,
                    offset: match c.offset {
                        Some(o) => o,
                        None => defaults.offset,
                    },
                    exponent: match c.exponent {
                        Some(e) => e,
                        None => defaults.exponent,
                    },
                };
                Ok(TaskSource::Fractal(Box::new(b.build())))
            },
            TaskConfig::Gradient(c) => {
                match Gradient::try_new([c.x1, c.y1, c.z1], [c.x2, c.y2, c.z2]) {
                    Some(g) => Ok(TaskSource::Gradient(Box::new(g))),
                    None => Err(
                        BuildError {
                            builder: crate::builder::BuilderKind::Gradient,
                            field: crate::builder::Field::Points,
                            name: String::new(),
                        },
                    ),
                }
            },
            TaskConfig::Scale(c) => {
                let b = ScaleBuilder { scale: child(&c.scale), source: child(&c.source) };
                b.link(tree).build()
            },
            TaskConfig::ScaleOffset(c) => {
                let b = ScaleOffsetBuilder {
                    offset: child(&c.offset),
                    scale: child(&c.scale),
                    source: child(&c.source),
                };
                b.link(tree).build()
            },
            TaskConfig::Selector(c) => {
                let b = SelectorBuilder {
                    blender: c.interp,
                    condition: child(&c.condition),
                    lower: child(&c.lower),
                    upper: child(&c.upper),
                    falloff: child(&c.falloff),
                    threshold: child(&c.threshold),
                };
                b.link(tree).build()
            },
            TaskConfig::TransformDomain(c) => {
                let b = TransformDomainBuilder {
                    operation: c.operation,
                    value_x: child(&c.dx),
                    value_y: child(&c.dy),
                    value_z: child(&c.dz),
                    source: child(&c.source),
                };
                b.link(tree).build()
            },
        }
    }
}

proof fn lemma_resolves_extends<T: Float>(c: NameOrConst<T>, t: TaskSource<T>, t1: TaskTree<T>, t2: TaskTree<T>)
    requires
        extends(t2, t1),
        resolves(c, t, t1),
    ensures
        resolves(c, t, t2),
{
    if let NameOrConst::Named(n) = c {
        let i = choose|i: int| t1.is_first(i, n@) && crate::task::same_node(t, t1.task_at(i));
        lemma_first_extends(t2, t1, i, n@);
    }
}

/// A node built against a registry is still the node its description
/// stands for once the registry has grown.
proof fn lemma_built_extends<T: Float>(c: TaskConfig<T>, t: TaskSource<T>, t1: TaskTree<T>, t2: TaskTree<T>)
    requires
        extends(t2, t1),
        c.built_from(t, t1),
    ensures
        c.built_from(t, t2),
{
    match c {
        TaskConfig::Aggregate(a) => {
            assert forall|i: int| 0 <= i < a.source@.len() implies resolves(
                a.source@[i],
                #[trigger] t->Aggregate_0.sources@[i],
                t2,
            ) by {
                lemma_resolves_extends(a.source@[i], t->Aggregate_0.sources@[i], t1, t2);
            }
        },
        TaskConfig::Bias(b) => {
            lemma_resolves_extends(b.bias, t->Bias_0.bias, t1, t2);
            lemma_resolves_extends(b.source, t->Bias_0.source, t1, t2);
        },
        TaskConfig::Cache(n) => {
            let i = choose|i: int|
                t1.is_first(i, n@) && crate::task::same_node(t->Cache_0.source, t1.task_at(i));
            lemma_first_extends(t2, t1, i, n@);
        },
        TaskConfig::Scale(x) => {
            lemma_resolves_extends(x.scale, t->Scale_0.scale, t1, t2);
            lemma_resolves_extends(x.source, t->Scale_0.source, t1, t2);
        },
        TaskConfig::ScaleOffset(x) => {
            lemma_resolves_extends(x.offset, t->ScaleOffset_0.offset, t1, t2);
            lemma_resolves_extends(x.scale, t->ScaleOffset_0.scale, t1, t2);
            lemma_resolves_extends(x.source, t->ScaleOffset_0.source, t1, t2);
        },
        TaskConfig::Selector(x) => {
            lemma_resolves_extends(x.condition, t->Selector_0.condition, t1, t2);
            lemma_resolves_extends(x.lower, t->Selector_0.lower, t1, t2);
            lemma_resolves_extends(x.upper, t->Selector_0.upper, t1, t2);
            lemma_resolves_extends(x.falloff, t->Selector_0.falloff, t1, t2);
            lemma_resolves_extends(x.threshold, t->Selector_0.threshold, t1, t2);
        },
        TaskConfig::TransformDomain(x) => {
            lemma_resolves_extends(x.dx, t->Domain_0.value_x, t1, t2);
            lemma_resolves_extends(x.dy, t->Domain_0.value_y, t1, t2);
            lemma_resolves_extends(x.dz, t->Domain_0.value_z, t1, t2);
            lemma_resolves_extends(x.source, t->Domain_0.source, t1, t2);
        },
        _ => {},
    }
}

/// `t` registers, first under `name`, the node that `c` stands for.
pub open spec fn holds_built<T: Float>(t: TaskTree<T>, name: Seq<char>, c: TaskConfig<T>) -> bool {
    exists|j: int| t.is_first(j, name) && c.built_from(t.task_at(j), t)
}

/// The description is sound apart from the names it refers to: a
/// gradient's points are apart, and a fractal has at least one octave.
pub open spec fn sound<T: Float>(c: TaskConfig<T>) -> bool {
    match c {
        TaskConfig::Gradient(g) => apart(g),
        TaskConfig::Fractal(f) => f.octaves >= 1,
        _ => true,
    }
}

/// Every name in `names` is registered in `tree`.
pub open spec fn all_known<T: Float>(names: Seq<Seq<char>>, tree: TaskTree<T>) -> bool {
    forall|i: int| 0 <= i < names.len() ==> tree.contains(#[trigger] names[i])
}

proof fn lemma_known_in<T: Float>(
    a: Seq<Seq<char>>,
    c: NameOrConst<T>,
    b: Seq<Seq<char>>,
    tree: TaskTree<T>,
)
    requires
        all_known(a + c.names() + b, tree),
    ensures
        known(c, tree),
{
    if c is Named {
        assert((a + c.names() + b)[a.len() as int] == c.names()[0]);
    }
}

proof fn lemma_known_list<T: Float>(s: Seq<NameOrConst<T>>, tree: TaskTree<T>)
    requires
        all_known(names_of_list(s), tree),
    ensures
        forall|i: int| 0 <= i < s.len() ==> known(#[trigger] s[i], tree),
    decreases s.len(),
{
    if s.len() > 0 {
        let p = names_of_list(s.drop_last());
        assert(all_known(p, tree)) by {
            assert forall|i: int| 0 <= i < p.len() implies tree.contains(#[trigger] p[i]) by {
                assert(names_of_list(s)[i] == p[i]);
            }
        }
        lemma_known_list(s.drop_last(), tree);
        lemma_known_in(p, s.last(), Seq::<Seq<char>>::empty(), tree);
        assert(p + s.last().names() + Seq::<Seq<char>>::empty() =~= names_of_list(s));
        assert forall|i: int| 0 <= i < s.len() implies known(#[trigger] s[i], tree) by {
            if i < s.len() - 1 {
                assert(s[i] == s.drop_last()[i]);
            }
        }
    }
}

/// A sound description whose references are all registered can be built.
proof fn lemma_buildable<T: Float>(c: TaskConfig<T>, tree: TaskTree<T>)
    requires
        sound(c),
        all_known(c.deps(), tree),
    ensures
        c.buildable(tree),
{
    let e = Seq::<Seq<char>>::empty();
    match c {
        TaskConfig::Aggregate(a) => {
            lemma_known_list(a.source@, tree);
        },
        TaskConfig::Bias(b) => {
            assert(e + b.bias.names() + b.source.names() =~= c.deps());
            assert(b.bias.names() + b.source.names() + e =~= c.deps());
            lemma_known_in(e, b.bias, b.source.names(), tree);
            lemma_known_in(b.bias.names(), b.source, e, tree);
        },
        TaskConfig::Cache(n) => {
            assert(c.deps()[0] == n@);
        },
        TaskConfig::Scale(x) => {
            assert(e + x.scale.names() + x.source.names() =~= c.deps());
            assert(x.scale.names() + x.source.names() + e =~= c.deps());
            lemma_known_in(e, x.scale, x.source.names(), tree);
            lemma_known_in(x.scale.names(), x.source, e, tree);
        },
        TaskConfig::ScaleOffset(x) => {
            let (o, sc, so) = (x.offset.names(), x.scale.names(), x.source.names());
            assert(e + o + (sc + so) =~= c.deps());
            assert(o + sc + so =~= c.deps());
            assert((o + sc) + so + e =~= c.deps());
            lemma_known_in(e, x.offset, sc + so, tree);
            lemma_known_in(o, x.scale, so, tree);
            lemma_known_in(o + sc, x.source, e, tree);
        },
        TaskConfig::Selector(x) => {
            let (n0, n1, n2, n3, n4) = (
                x.condition.names(),
                x.lower.names(),
                x.upper.names(),
                x.falloff.names(),
                x.threshold.names(),
            );
            assert(e + n0 + (n1 + n2 + n3 + n4) =~= c.deps());
            assert(n0 + n1 + (n2 + n3 + n4) =~= c.deps());
            assert((n0 + n1) + n2 + (n3 + n4) =~= c.deps());
            assert((n0 + n1 + n2) + n3 + n4 =~= c.deps());
            assert((n0 + n1 + n2 + n3) + n4 + e =~= c.deps());
            lemma_known_in(e, x.condition, n1 + n2 + n3 + n4, tree);
            lemma_known_in(n0, x.lower, n2 + n3 + n4, tree);
            lemma_known_in(n0 + n1, x.upper, n3 + n4, tree);
            lemma_known_in(n0 + n1 + n2, x.falloff, n4, tree);
            lemma_known_in(n0 + n1 + n2 + n3, x.threshold, e, tree);
        },
        TaskConfig::TransformDomain(x) => {
            let (n0, n1, n2, n3) = (x.dx.names(), x.dy.names(), x.dz.names(), x.source.names());
            assert(e + n0 + (n1 + n2 + n3) =~= c.deps());
            assert(n0 + n1 + (n2 + n3) =~= c.deps());
            assert((n0 + n1) + n2 + n3 =~= c.deps());
            assert((n0 + n1 + n2) + n3 + e =~= c.deps());
            lemma_known_in(e, x.dx, n1 + n2 + n3, tree);
            lemma_known_in(n0, x.dy, n2 + n3, tree);
            lemma_known_in(n0 + n1, x.dz, n3, tree);
            lemma_known_in(n0 + n1 + n2, x.source, e, tree);
        },
        _ => {},
    }
}

/// Builds a registry from named descriptions: orders them so that each
/// comes after the names it refers to, then builds and registers each in
/// that order.
///
/// It succeeds exactly when every name referred to is known, a valid order
/// exists and every description is sound; the errors say which of these
/// failed.
pub fn from_configs<T: Float>(tasks: &Vec<(String, TaskConfig<T>)>) -> (r: Result<
    TaskTree<T>,
    LoadError,
>)
    requires
        crate::sort::config_keys(tasks@).no_duplicates(),
    ensures
        r is Ok <==> (crate::sort::deps_known(
            crate::sort::config_keys(tasks@),
            crate::sort::config_deps(tasks@),
        ) && (exists|ord: Seq<Seq<char>>|
            crate::sort::valid_order(
                crate::sort::config_keys(tasks@),
                crate::sort::config_deps(tasks@),
                ord,
            )) && forall|i: int| 0 <= i < tasks.len() ==> sound(#[trigger] tasks@[i].1)),
        match r {
            Ok(t) => t.wf() && (forall|i: int|
                0 <= i < tasks.len() ==> t.contains(#[trigger] tasks@[i].0@)) && forall|i: int|
                0 <= i < tasks.len() ==> holds_built(t, tasks@[i].0@, #[trigger] tasks@[i].1),
            Err(LoadError::Graph(crate::sort::GraphError::CycleDetected)) => crate::sort::deps_known(
                crate::sort::config_keys(tasks@),
                crate::sort::config_deps(tasks@),
            ) && forall|ord: Seq<Seq<char>>|
                !crate::sort::valid_order(
                    crate::sort::config_keys(tasks@),
                    crate::sort::config_deps(tasks@),
                    ord,
                ),
            Err(LoadError::Graph(crate::sort::GraphError::UnknownTask(n))) => !crate::sort::config_keys(
                tasks@,
            ).contains(n@) && !crate::sort::deps_known(
                crate::sort::config_keys(tasks@),
                crate::sort::config_deps(tasks@),
            ),
            Err(LoadError::Build(_)) => exists|i: int|
                0 <= i < tasks.len() && !sound(#[trigger] tasks@[i].1),
        },
{
    let order = match crate::sort::sort_tasks(tasks) {
        Ok(o) => o,
        Err(e) => return Err(LoadError::Graph(e)),
    };
    let ghost keys = crate::sort::config_keys(tasks@);
    let ghost deps = crate::sort::config_deps(tasks@);
    let mut tree = TaskTree::new();
    let mut k: usize = 0;
    while k < order.len()
        invariant
            tree.wf(),
            keys == crate::sort::config_keys(tasks@),
            deps == crate::sort::config_deps(tasks@),
            crate::sort::deps_known(keys, deps),
            crate::sort::valid_order(keys, deps, keys_of(order@)),
            k <= order.len(),
            forall|m: int| 0 <= m < k ==> tree.contains(#[trigger] keys_of(order@)[m]),
            keys.no_duplicates(),
            forall|j: int|
                0 <= j < tasks.len() && tree.contains(#[trigger] keys[j]) ==> sound(tasks@[j].1),
            tree.keys() == keys_of(order@).subrange(0, k as int),
            forall|m: int|
                0 <= m < k ==> exists|j: int|
                    0 <= j < tasks.len() && keys[j] == keys_of(order@)[m] && tasks@[j].1.built_from(
                        #[trigger] tree.task_at(m),
                        tree,
                    ),
        decreases order.len() - k,
    {
        let name = &order[k];
        let ghost before = tree;
        match crate::sort::find_key(tasks, name) {
            Some(i) => {
                let ghost ord = keys_of(order@);
                proof {
                    assert(ord[k as int] == name@);
                    assert(keys[i as int] == name@);
                    assert(deps[i as int] == tasks@[i as int].1.deps());
                    assert forall|j: int|
                        0 <= j < deps[i as int].len() implies tree.contains(
                        #[trigger] deps[i as int][j],
                    ) by {
                        assert(ord.subrange(0, k as int).contains(deps[i as int][j]));
                        let m = choose|m: int|
                            0 <= m < k && ord.subrange(0, k as int)[m] == deps[i as int][j];
                        assert(ord[m] == deps[i as int][j]);
                    }
                    if sound(tasks@[i as int].1) {
                        lemma_buildable(tasks@[i as int].1, tree);
                    }
                }
                let node = match tasks[i].1.config_into(&tree) {
                    Ok(t) => t,
                    Err(e) => {
                        proof {
                            assert(!sound(tasks@[i as int].1));
                        }
                        return Err(LoadError::Build(e));
                    },
                };
                proof {
                    let ord = keys_of(order@);
                    if before.contains(name@) {
                        let m = choose|m: int| 0 <= m < before.keys().len() && before.keys()[m] == name@;
                        assert(ord[m] == ord[k as int]);
                    }
                }
                let ghost built = node;
                tree.add_task(name.as_str(), node);
                proof {
                    let ord = keys_of(order@);
                    assert(tree.keys() =~= ord.subrange(0, k as int + 1));
                    assert(extends(tree, before));
                    assert forall|m: int| 0 <= m < k + 1 implies exists|j: int|
                        0 <= j < tasks.len() && keys[j] == ord[m] && tasks@[j].1.built_from(
                            #[trigger] tree.task_at(m),
                            tree,
                        ) by {
                        if m < k {
                            let j = choose|j: int|
                                0 <= j < tasks.len() && keys[j] == ord[m] && tasks@[j].1.built_from(
                                    before.task_at(m),
                                    before,
                                );
                            lemma_built_extends(tasks@[j].1, before.task_at(m), before, tree);
                            assert(tree.task_at(m) == before.task_at(m));
                        } else {
                            lemma_built_extends(tasks@[i as int].1, built, before, tree);
                            assert(tree.task_at(m) == built);
                        }
                    }
                    assert(sound(tasks@[i as int].1));
                    assert forall|j: int|
                        0 <= j < tasks.len() && tree.contains(#[trigger] keys[j]) implies sound(
                        tasks@[j].1,
                    ) by {
                        if keys[j] == name@ {
                            assert(keys[j] == keys[i as int]);
                        } else {
                            assert(before.contains(keys[j]));
                        }
                    }
                    assert forall|m: int| 0 <= m < k + 1 implies tree.contains(
                        #[trigger] keys_of(order@)[m],
                    ) by {
                        if m < k {
                            assert(before.contains(keys_of(order@)[m]));
                            if keys_of(order@)[m] != name@ {
                            }
                        } else {
                            assert(keys_of(order@)[m] == name@);
                        }
                    }
                }
            },
            None => {
                proof {
                    assert(keys.contains(keys_of(order@)[k as int]));
                    assert(keys_of(order@)[k as int] == name@);
                }
                return Err(LoadError::Build(BuildError {
                    builder: crate::builder::BuilderKind::Cache,
                    field: crate::builder::Field::Source,
                    name: name.clone(),
                }));
            },
        }
        k = k + 1;
    }
    proof {
        assert forall|i: int| 0 <= i < tasks.len() implies tree.contains(#[trigger] tasks@[i].0@) by {
            assert(keys[i] == tasks@[i].0@);
            assert(keys_of(order@).contains(keys[i]));
            let m = choose|m: int| 0 <= m < keys_of(order@).len() && keys_of(order@)[m] == keys[i];
            assert(tree.contains(keys_of(order@)[m]));
        }
        assert forall|i: int| 0 <= i < tasks.len() implies sound(#[trigger] tasks@[i].1) by {
            assert(keys[i] == tasks@[i].0@);
            assert(tree.contains(keys[i]));
        }
        assert(crate::sort::valid_order(keys, deps, keys_of(order@)));
        let ord = keys_of(order@);
        assert(tree.keys() =~= ord);
        assert forall|i: int|
            0 <= i < tasks.len() implies holds_built(tree, tasks@[i].0@, #[trigger] tasks@[i].1) by {
            assert(keys[i] == tasks@[i].0@);
            assert(ord.contains(keys[i]));
            let m = choose|m: int| 0 <= m < ord.len() && ord[m] == keys[i];
            let j = choose|j: int|
                0 <= j < tasks.len() && keys[j] == ord[m] && tasks@[j].1.built_from(tree.task_at(m), tree);
            assert(keys[j] == keys[i]);
            assert(j == i);
            assert forall|q: int| 0 <= q < m implies tree.keys()[q] != tasks@[i].0@ by {
                assert(ord[q] != ord[m]);
            }
            assert(tree.is_first(m, tasks@[i].0@));
            assert(tasks@[i].1.built_from(tree.task_at(m), tree));
        }
    }
    Ok(tree)
}

} // verus!
