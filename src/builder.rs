//! Builders for the graph nodes. A child may be given as a node or by name;
//! `link` looks names up in a registry, and `build` refuses a field that is
//! still a name.
use vstd::prelude::*;
use crate::float::Float;
use crate::math::FractalBlender;
use crate::task::{
    default_initial, Aggregator, Bias, Cache, DomainOperation, Operation, Scale, ScaleOffset,
    Selector, TaskSource, TransformDomain,
};
use crate::tree::{linked, NameOrSource, TaskTree};

verus! {

/// The builder that an error comes from.
#[derive(Clone, Copy, Debug, PartialEq, Eq, Structural)]
pub enum BuilderKind {
    Aggregator,
    Bias,
    Fractal,
    Gradient,
    Cache,
    Scale,
    ScaleOffset,
    Selector,
    TransformDomain,
}

/// The builder field that an error is about.
#[derive(Clone, Copy, Debug, PartialEq, Eq, Structural)]
pub enum Field {
    Bias,
    Source,
    Scale,
    Offset,
    Condition,
    Lower,
    Upper,
    Falloff,
    Threshold,
    ValueX,
    ValueY,
    ValueZ,
    Points,
    Octaves,
}

/// A field still held a name when the node was built: `link` was not
/// called, or the registry did not hold the name.
#[derive(Debug)]
pub struct BuildError {
    pub builder: BuilderKind,
    pub field: Field,
    pub name: String,
}

/// A constant node.
pub fn constant<T: Float>(v: T) -> (r: TaskSource<T>)
    ensures
        r == TaskSource::Constant(v),
{
    TaskSource::Constant(v)
}

/// The node a field holds, or the error naming the builder, the field and
/// the unresolved name.
pub fn resolve<T: Float>(f: NameOrSource<T>, builder: BuilderKind, field: Field) -> (r: Result<
    TaskSource<T>,
    BuildError,
>)
    ensures
        match f {
            NameOrSource::Source(t) => r == Ok::<TaskSource<T>, BuildError>(t),
            NameOrSource::Named(n) => r is Err && r->Err_0.builder == builder && r->Err_0.field
                == field && r->Err_0.name@ == n@,
        },
{
    match f {
        NameOrSource::Source(t) => Ok(t),
        NameOrSource::Named(n) => Err(BuildError { builder, field, name: n }),
    }
}

/// The nodes of `fields`, which all hold one.
pub open spec fn nodes_of<T>(fields: Seq<NameOrSource<T>>) -> Seq<TaskSource<T>> {
    fields.map_values(|f: NameOrSource<T>| f->Source_0)
}

/// Every one of `fields` holds a node.
pub open spec fn all_resolved<T>(fields: Seq<NameOrSource<T>>) -> bool {
    forall|i: int| 0 <= i < fields.len() ==> (#[trigger] fields[i]) is Source
}

/// Builds an [`Aggregator`]: the sources, given as nodes or by name, in the
/// order they were added.
pub struct AggregatorBuilder<T> {
    pub op: Operation,
    pub initial: Option<T>,
    pub sources: Vec<NameOrSource<T>>,
}

impl<T: Float> AggregatorBuilder<T> {
    /// `Add`, no initial value, no sources.
    pub fn new() -> (r: AggregatorBuilder<T>)
        ensures
            r.op == Operation::Add,
            r.initial is None,
            r.sources@.len() == 0,
    {
        AggregatorBuilder { op: Operation::Add, initial: None, sources: Vec::new() }
    }

    pub fn operation(self, op: Operation) -> (r: AggregatorBuilder<T>)
        ensures
            r.op == op,
            r.initial == self.initial,
            r.sources@ == self.sources@,
    {
        AggregatorBuilder { op, ..self }
    }

    pub fn initial(self, v: T) -> (r: AggregatorBuilder<T>)
        ensures
            r.op == self.op,
            r.initial == Some(v),
            r.sources@ == self.sources@,
    {
        AggregatorBuilder { initial: Some(v), ..self }
    }

    /// Appends a source.
    pub fn add_task(self, t: TaskSource<T>) -> (r: AggregatorBuilder<T>)
        ensures
            r.op == self.op,
            r.initial == self.initial,
            r.sources@ == self.sources@.push(NameOrSource::Source(t)),
    {
        let mut b = self;
        b.sources.push(NameOrSource::Source(t));
        b
    }

    /// Appends a source given as a node or by name.
    pub fn add_child(self, f: NameOrSource<T>) -> (r: AggregatorBuilder<T>)
        ensures
            r.op == self.op,
            r.initial == self.initial,
            r.sources@ == self.sources@.push(f),
    {
        let mut b = self;
        b.sources.push(f);
        b
    }

    /// Appends a source to be looked up by name when linking.
    pub fn add_named_task(self, name: &str) -> (r: AggregatorBuilder<T>)
        ensures
            r.op == self.op,
            r.initial == self.initial,
            r.sources@.len() == self.sources@.len() + 1,
            r.sources@.drop_last() == self.sources@,
            r.sources@.last() is Named && r.sources@.last()->Named_0@ == name@,
    {
        let mut b = self;
        b.sources.push(NameOrSource::Named(name.to_owned()));
        proof {
            assert(b.sources@.drop_last() =~= self.sources@);
        }
        b
    }

    /// Looks each source given by name up in `tree`, keeping the order.
    pub fn link(self, tree: &TaskTree<T>) -> (r: AggregatorBuilder<T>)
        requires
            tree.wf(),
        ensures
            r.op == self.op,
            r.initial == self.initial,
            r.sources@.len() == self.sources@.len(),
            forall|i: int|
                0 <= i < self.sources@.len() ==> linked(
                    self.sources@[i],
                    #[trigger] r.sources@[i],
                    *tree,
                ),
    {
        let ghost before = self.sources@;
        let mut rest: Vec<NameOrSource<T>> = self.sources;
        let mut done: Vec<NameOrSource<T>> = Vec::new();
        let n = rest.len();
        let mut i: usize = 0;
        while i < n
            invariant
                tree.wf(),
                n == before.len(),
                i <= n,
                rest@ == before.subrange(i as int, n as int),
                done@.len() == i,
                forall|k: int| 0 <= k < i ==> linked(before[k], #[trigger] done@[k], *tree),
            decreases n - i,
        {
            let f = rest.remove(0);
            proof {
                assert(f == before[i as int]);
            }
            let g = f.link(tree);
            done.push(g);
            i = i + 1;
        }
        AggregatorBuilder { op: self.op, initial: self.initial, sources: done }
    }

    /// The aggregator: the configured initial value, or the operation's
    /// default one, and the sources in the order they were added; an error
    /// naming the first source that is still a name.
    pub fn build(self) -> (r: Result<TaskSource<T>, BuildError>)
        ensures
            r is Ok <==> all_resolved(self.sources@),
            r is Ok ==> r->Ok_0 is Aggregate && r->Ok_0->Aggregate_0.op == self.op
                && r->Ok_0->Aggregate_0.initial == match self.initial {
                Some(v) => v,
                None => crate::task::default_initial_spec::<T>(self.op),
            } && r->Ok_0->Aggregate_0.sources@ == nodes_of(self.sources@),
    {
        let initial = match self.initial {
            Some(v) => v,
            None => default_initial(self.op),
        };
        let ghost before = self.sources@;
        let mut rest: Vec<NameOrSource<T>> = self.sources;
        let mut nodes: Vec<TaskSource<T>> = Vec::new();
        let n = rest.len();
        let mut i: usize = 0;
        while i < n
            invariant
                before == self.sources@,
                n == before.len(),
                i <= n,
                rest@ == before.subrange(i as int, n as int),
                nodes@ == nodes_of(before.subrange(0, i as int)),
                forall|k: int| 0 <= k < i ==> (#[trigger] before[k]) is Source,
            decreases n - i,
        {
            let f = rest.remove(0);
            proof {
                assert(f == before[i as int]);
            }
            match f {
                NameOrSource::Source(t) => {
                    nodes.push(t);
                    proof {
                        assert(nodes@ =~= nodes_of(before.subrange(0, i as int + 1)));
                    }
                },
                NameOrSource::Named(name) => {
                    proof {
                        assert(!(before[i as int] is Source));
                        assert(!all_resolved(before));
                    }
                    return Err(
                        BuildError { builder: BuilderKind::Aggregator, field: Field::Source, name },
                    );
                },
            }
            i = i + 1;
        }
        proof {
            assert(before.subrange(0, n as int) =~= before);
        }
        Ok(TaskSource::Aggregate(Aggregator { op: self.op, initial, sources: nodes }))
    }
}

/// Builds a [`Bias`]: source and bias default to constant zero, the
/// exponent range to `[1, 5]` (`min` 1, `max` 4).
pub struct BiasBuilder<T> {
    pub bias: NameOrSource<T>,
    pub source: NameOrSource<T>,
    pub min: T,
    pub max: T,
}

impl<T: Float> BiasBuilder<T> {
    pub fn new() -> (r: BiasBuilder<T>)
        ensures
            r.bias == NameOrSource::Source(TaskSource::Constant(crate::float::zero::<T>())),
            r.source == NameOrSource::Source(TaskSource::Constant(crate::float::zero::<T>())),
            r.min == crate::float::one::<T>(),
            r.max == T::of_u16(4),
    {
        BiasBuilder {
            bias: NameOrSource::Source(TaskSource::Constant(T::from_u16(0))),
            source: NameOrSource::Source(TaskSource::Constant(T::from_u16(0))),
            min: T::from_u16(1),
            max: T::from_u16(4),
        }
    }

    pub fn bias(self, t: TaskSource<T>) -> (r: BiasBuilder<T>)
        ensures
            r == (BiasBuilder { bias: NameOrSource::Source(t), ..self }),
    {
        BiasBuilder { bias: NameOrSource::Source(t), ..self }
    }

    pub fn named_bias(self, name: &str) -> (r: BiasBuilder<T>)
        ensures
            r.bias is Named && r.bias->Named_0@ == name@,
            r.source == self.source,
    {
        BiasBuilder { bias: NameOrSource::Named(name.to_owned()), ..self }
    }

    pub fn source(self, t: TaskSource<T>) -> (r: BiasBuilder<T>)
        ensures
            r == (BiasBuilder { source: NameOrSource::Source(t), ..self }),
    {
        BiasBuilder { source: NameOrSource::Source(t), ..self }
    }

    pub fn named_source(self, name: &str) -> (r: BiasBuilder<T>)
        ensures
            r.source is Named && r.source->Named_0@ == name@,
            r.bias == self.bias,
    {
        BiasBuilder { source: NameOrSource::Named(name.to_owned()), ..self }
    }

    /// Looks the fields given by name up in `tree`.
    pub fn link(self, tree: &TaskTree<T>) -> (r: BiasBuilder<T>)
        requires
            tree.wf(),
        ensures
            linked(self.bias, r.bias, *tree),
            linked(self.source, r.source, *tree),
            r.min == self.min,
            r.max == self.max,
    {
        BiasBuilder {
            bias: self.bias.link(tree),
            source: self.source.link(tree),
            min: self.min,
            max: self.max,
        }
    }

    /// The node, or the error naming the first field that still holds a
    /// name.
    pub fn build(self) -> (r: Result<TaskSource<T>, BuildError>)
        ensures
            r is Ok <==> (self.bias is Source && self.source is Source),
            r is Ok ==> r->Ok_0 == TaskSource::Bias(Box::new(Bias { bias: self.bias->Source_0, source: self.source->Source_0, min: self.min, max: self.max })),
    {
        let bias = match resolve(self.bias, BuilderKind::Bias, Field::Bias) {
            Ok(t) => t,
            Err(e) => return Err(e),
        };
        let source = match resolve(self.source, BuilderKind::Bias, Field::Source) {
            Ok(t) => t,
            Err(e) => return Err(e),
        };
        Ok(TaskSource::Bias(Box::new(Bias { bias, source, min: self.min, max: self.max })))
    }
}

/// Builds a [`Cache`] with empty memo slots; the source defaults to
/// constant zero.
pub struct CacheBuilder<T> {
    pub source: NameOrSource<T>,
}

impl<T: Float> CacheBuilder<T> {
    pub fn new() -> (r: CacheBuilder<T>)
        ensures
            r.source == NameOrSource::Source(TaskSource::Constant(crate::float::zero::<T>())),
    {
        CacheBuilder { source: NameOrSource::Source(TaskSource::Constant(T::from_u16(0))) }
    }

    pub fn source(self, t: TaskSource<T>) -> (r: CacheBuilder<T>)
        ensures
            r.source == NameOrSource::Source(t),
    {
        CacheBuilder { source: NameOrSource::Source(t) }
    }

    pub fn named_source(self, name: &str) -> (r: CacheBuilder<T>)
        ensures
            r.source is Named && r.source->Named_0@ == name@,
    {
        CacheBuilder { source: NameOrSource::Named(name.to_owned()) }
    }

    /// Looks the fields given by name up in `tree`.
    pub fn link(self, tree: &TaskTree<T>) -> (r: CacheBuilder<T>)
        requires
            tree.wf(),
        ensures
            linked(self.source, r.source, *tree),
    {
        CacheBuilder { source: self.source.link(tree) }
    }

    /// The node, or the error naming the first field that still holds a
    /// name.
    pub fn build(self) -> (r: Result<TaskSource<T>, BuildError>)
        ensures
            r is Ok <==> (self.source is Source),
            r is Ok ==> r->Ok_0 == TaskSource::Cache(Box::new(Cache { memo_1d: None, memo_2d: None, memo_3d: None, source: self.source->Source_0 })),
    {
        let source = match resolve(self.source, BuilderKind::Cache, Field::Source) {
            Ok(t) => t,
            Err(e) => return Err(e),
        };
        Ok(TaskSource::Cache(Box::new(Cache { memo_1d: None, memo_2d: None, memo_3d: None, source })))
    }
}

/// Builds a [`Scale`]; both children default to constant zero.
pub struct ScaleBuilder<T> {
    pub scale: NameOrSource<T>,
    pub source: NameOrSource<T>,
}

impl<T: Float> ScaleBuilder<T> {
    pub fn new() -> (r: ScaleBuilder<T>)
        ensures
            r.scale == NameOrSource::Source(TaskSource::Constant(crate::float::zero::<T>())),
            r.source == NameOrSource::Source(TaskSource::Constant(crate::float::zero::<T>())),
    {
        ScaleBuilder {
            scale: NameOrSource::Source(TaskSource::Constant(T::from_u16(0))),
            source: NameOrSource::Source(TaskSource::Constant(T::from_u16(0))),
        }
    }

    pub fn scale(self, t: TaskSource<T>) -> (r: ScaleBuilder<T>)
        ensures
            r.scale == NameOrSource::Source(t),
            r.source == self.source,
    {
        ScaleBuilder { scale: NameOrSource::Source(t), ..self }
    }

    pub fn named_scale(self, name: &str) -> (r: ScaleBuilder<T>)
        ensures
            r.scale is Named && r.scale->Named_0@ == name@,
            r.source == self.source,
    {
        ScaleBuilder { scale: NameOrSource::Named(name.to_owned()), ..self }
    }

    pub fn source(self, t: TaskSource<T>) -> (r: ScaleBuilder<T>)
        ensures
            r.source == NameOrSource::Source(t),
            r.scale == self.scale,
    {
        ScaleBuilder { source: NameOrSource::Source(t), ..self }
    }

    pub fn named_source(self, name: &str) -> (r: ScaleBuilder<T>)
        ensures
            r.source is Named && r.source->Named_0@ == name@,
            r.scale == self.scale,
    {
        ScaleBuilder { source: NameOrSource::Named(name.to_owned()), ..self }
    }

    /// Looks the fields given by name up in `tree`.
    pub fn link(self, tree: &TaskTree<T>) -> (r: ScaleBuilder<T>)
        requires
            tree.wf(),
        ensures
            linked(self.scale, r.scale, *tree),
            linked(self.source, r.source, *tree),
    {
        ScaleBuilder { scale: self.scale.link(tree), source: self.source.link(tree) }
    }

    /// The node, or the error naming the first field that still holds a
    /// name.
    pub fn build(self) -> (r: Result<TaskSource<T>, BuildError>)
        ensures
            r is Ok <==> (self.scale is Source && self.source is Source),
            r is Ok ==> r->Ok_0 == TaskSource::Scale(Box::new(Scale { scale: self.scale->Source_0, source: self.source->Source_0 })),
    {
        let scale = match resolve(self.scale, BuilderKind::Scale, Field::Scale) {
            Ok(t) => t,
            Err(e) => return Err(e),
        };
        let source = match resolve(self.source, BuilderKind::Scale, Field::Source) {
            Ok(t) => t,
            Err(e) => return Err(e),
        };
        Ok(TaskSource::Scale(Box::new(Scale { scale, source })))
    }
}

/// Builds a [`ScaleOffset`]: offset and source default to constant zero,
/// scale to constant one.
pub struct ScaleOffsetBuilder<T> {
    pub offset: NameOrSource<T>,
    pub scale: NameOrSource<T>,
    pub source: NameOrSource<T>,
}

impl<T: Float> ScaleOffsetBuilder<T> {
    pub fn new() -> (r: ScaleOffsetBuilder<T>)
        ensures
            r.offset == NameOrSource::Source(TaskSource::Constant(crate::float::zero::<T>())),
            r.scale == NameOrSource::Source(TaskSource::Constant(crate::float::one::<T>())),
            r.source == NameOrSource::Source(TaskSource::Constant(crate::float::zero::<T>())),
    {
        ScaleOffsetBuilder {
            offset: NameOrSource::Source(TaskSource::Constant(T::from_u16(0))),
            scale: NameOrSource::Source(TaskSource::Constant(T::from_u16(1))),
            source: NameOrSource::Source(TaskSource::Constant(T::from_u16(0))),
        }
    }

    pub fn offset(self, t: TaskSource<T>) -> (r: ScaleOffsetBuilder<T>)
        ensures
            r == (ScaleOffsetBuilder { offset: NameOrSource::Source(t), ..self }),
    {
        ScaleOffsetBuilder { offset: NameOrSource::Source(t), ..self }
    }

    pub fn named_offset(self, name: &str) -> (r: ScaleOffsetBuilder<T>)
        ensures
            r.offset is Named && r.offset->Named_0@ == name@,
    {
        ScaleOffsetBuilder { offset: NameOrSource::Named(name.to_owned()), ..self }
    }

    pub fn scale(self, t: TaskSource<T>) -> (r: ScaleOffsetBuilder<T>)
        ensures
            r == (ScaleOffsetBuilder { scale: NameOrSource::Source(t), ..self }),
    {
        ScaleOffsetBuilder { scale: NameOrSource::Source(t), ..self }
    }

    pub fn named_scale(self, name: &str) -> (r: ScaleOffsetBuilder<T>)
        ensures
            r.scale is Named && r.scale->Named_0@ == name@,
    {
        ScaleOffsetBuilder { scale: NameOrSource::Named(name.to_owned()), ..self }
    }

    pub fn source(self, t: TaskSource<T>) -> (r: ScaleOffsetBuilder<T>)
        ensures
            r == (ScaleOffsetBuilder { source: NameOrSource::Source(t), ..self }),
    {
        ScaleOffsetBuilder { source: NameOrSource::Source(t), ..self }
    }

    pub fn named_source(self, name: &str) -> (r: ScaleOffsetBuilder<T>)
        ensures
            r.source is Named && r.source->Named_0@ == name@,
    {
        ScaleOffsetBuilder { source: NameOrSource::Named(name.to_owned()), ..self }
    }

    /// Looks the fields given by name up in `tree`.
    pub fn link(self, tree: &TaskTree<T>) -> (r: ScaleOffsetBuilder<T>)
        requires
            tree.wf(),
        ensures
            linked(self.offset, r.offset, *tree),
            linked(self.scale, r.scale, *tree),
            linked(self.source, r.source, *tree),
    {
        ScaleOffsetBuilder {
            offset: self.offset.link(tree),
            scale: self.scale.link(tree),
            source: self.source.link(tree),
        }
    }

    /// The node, or the error naming the first field that still holds a
    /// name.
    pub fn build(self) -> (r: Result<TaskSource<T>, BuildError>)
        ensures
            r is Ok <==> (self.offset is Source && self.scale is Source && self.source is Source),
            r is Ok ==> r->Ok_0 == TaskSource::ScaleOffset(Box::new(ScaleOffset { offset: self.offset->Source_0, scale: self.scale->Source_0, source: self.source->Source_0 })),
    {
        let offset = match resolve(self.offset, BuilderKind::ScaleOffset, Field::Offset) {
            Ok(t) => t,
            Err(e) => return Err(e),
        };
        let scale = match resolve(self.scale, BuilderKind::ScaleOffset, Field::Scale) {
            Ok(t) => t,
            Err(e) => return Err(e),
        };
        let source = match resolve(self.source, BuilderKind::ScaleOffset, Field::Source) {
            Ok(t) => t,
            Err(e) => return Err(e),
        };
        Ok(TaskSource::ScaleOffset(Box::new(ScaleOffset { offset, scale, source })))
    }
}

/// Builds a [`Selector`]: linear blend; condition, falloff default to
/// constant zero, lower to minus one, upper to one, threshold to one half.
pub struct SelectorBuilder<T> {
    pub blender: FractalBlender,
    pub condition: NameOrSource<T>,
    pub lower: NameOrSource<T>,
    pub upper: NameOrSource<T>,
    pub falloff: NameOrSource<T>,
    pub threshold: NameOrSource<T>,
}

impl<T: Float> SelectorBuilder<T> {
    pub fn new() -> (r: SelectorBuilder<T>)
        ensures
            r.blender == FractalBlender::Linear,
            r.condition == NameOrSource::Source(TaskSource::Constant(crate::float::zero::<T>())),
            r.lower == NameOrSource::Source(
                TaskSource::Constant(crate::float::one::<T>().negated()),
            ),
            r.upper == NameOrSource::Source(TaskSource::Constant(crate::float::one::<T>())),
            r.falloff == NameOrSource::Source(TaskSource::Constant(crate::float::zero::<T>())),
            r.threshold == NameOrSource::Source(TaskSource::Constant(crate::float::half::<T>())),
    {
        let one = T::from_u16(1);
        SelectorBuilder {
            blender: FractalBlender::Linear,
            condition: NameOrSource::Source(TaskSource::Constant(T::from_u16(0))),
            lower: NameOrSource::Source(TaskSource::Constant(one.neg())),
            upper: NameOrSource::Source(TaskSource::Constant(one)),
            falloff: NameOrSource::Source(TaskSource::Constant(T::from_u16(0))),
            threshold: NameOrSource::Source(TaskSource::Constant(one.div(T::from_u16(2)))),
        }
    }

    pub fn blender(self, blender: FractalBlender) -> (r: SelectorBuilder<T>)
        ensures
            r == (SelectorBuilder { blender, ..self }),
    {
        SelectorBuilder { blender, ..self }
    }

    pub fn condition(self, t: TaskSource<T>) -> (r: SelectorBuilder<T>)
        ensures
            r == (SelectorBuilder { condition: NameOrSource::Source(t), ..self }),
    {
        SelectorBuilder { condition: NameOrSource::Source(t), ..self }
    }

    pub fn named_condition(self, name: &str) -> (r: SelectorBuilder<T>)
        ensures
            r.condition is Named && r.condition->Named_0@ == name@,
            r.lower == self.lower,
            r.upper == self.upper,
            r.falloff == self.falloff,
            r.threshold == self.threshold,
    {
        SelectorBuilder { condition: NameOrSource::Named(name.to_owned()), ..self }
    }

    pub fn lower(self, t: TaskSource<T>) -> (r: SelectorBuilder<T>)
        ensures
            r == (SelectorBuilder { lower: NameOrSource::Source(t), ..self }),
    {
        SelectorBuilder { lower: NameOrSource::Source(t), ..self }
    }

    pub fn named_lower(self, name: &str) -> (r: SelectorBuilder<T>)
        ensures
            r.lower is Named && r.lower->Named_0@ == name@,
            r.condition == self.condition,
            r.upper == self.upper,
            r.falloff == self.falloff,
            r.threshold == self.threshold,
    {
        SelectorBuilder { lower: NameOrSource::Named(name.to_owned()), ..self }
    }

    pub fn upper(self, t: TaskSource<T>) -> (r: SelectorBuilder<T>)
        ensures
            r == (SelectorBuilder { upper: NameOrSource::Source(t), ..self }),
    {
        SelectorBuilder { upper: NameOrSource::Source(t), ..self }
    }

    pub fn named_upper(self, name: &str) -> (r: SelectorBuilder<T>)
        ensures
            r.upper is Named && r.upper->Named_0@ == name@,
            r.condition == self.condition,
            r.lower == self.lower,
            r.falloff == self.falloff,
            r.threshold == self.threshold,
    {
        SelectorBuilder { upper: NameOrSource::Named(name.to_owned()), ..self }
    }

    pub fn falloff(self, t: TaskSource<T>) -> (r: SelectorBuilder<T>)
        ensures
            r == (SelectorBuilder { falloff: NameOrSource::Source(t), ..self }),
    {
        SelectorBuilder { falloff: NameOrSource::Source(t), ..self }
    }

    pub fn named_falloff(self, name: &str) -> (r: SelectorBuilder<T>)
        ensures
            r.falloff is Named && r.falloff->Named_0@ == name@,
            r.condition == self.condition,
            r.lower == self.lower,
            r.upper == self.upper,
            r.threshold == self.threshold,
    {
        SelectorBuilder { falloff: NameOrSource::Named(name.to_owned()), ..self }
    }

    pub fn threshold(self, t: TaskSource<T>) -> (r: SelectorBuilder<T>)
        ensures
            r == (SelectorBuilder { threshold: NameOrSource::Source(t), ..self }),
    {
        SelectorBuilder { threshold: NameOrSource::Source(t), ..self }
    }

    pub fn named_threshold(self, name: &str) -> (r: SelectorBuilder<T>)
        ensures
            r.threshold is Named && r.threshold->Named_0@ == name@,
            r.condition == self.condition,
            r.lower == self.lower,
            r.upper == self.upper,
            r.falloff == self.falloff,
    {
        SelectorBuilder { threshold: NameOrSource::Named(name.to_owned()), ..self }
    }

    /// Looks the fields given by name up in `tree`.
    pub fn link(self, tree: &TaskTree<T>) -> (r: SelectorBuilder<T>)
        requires
            tree.wf(),
        ensures
            linked(self.condition, r.condition, *tree),
            linked(self.lower, r.lower, *tree),
            linked(self.upper, r.upper, *tree),
            linked(self.falloff, r.falloff, *tree),
            linked(self.threshold, r.threshold, *tree),
            r.blender == self.blender,
    {
        SelectorBuilder {
            blender: self.blender,
            condition: self.condition.link(tree),
            lower: self.lower.link(tree),
            upper: self.upper.link(tree),
            falloff: self.falloff.link(tree),
            threshold: self.threshold.link(tree),
        }
    }

    /// The node, or the error naming the first field that still holds a
    /// name.
    pub fn build(self) -> (r: Result<TaskSource<T>, BuildError>)
        ensures
            r is Ok <==> (self.condition is Source && self.lower is Source && self.upper is Source && self.falloff is Source && self.threshold is Source),
            r is Ok ==> r->Ok_0 == TaskSource::Selector(Box::new(Selector { blender: self.blender, condition: self.condition->Source_0, lower: self.lower->Source_0, upper: self.upper->Source_0, falloff: self.falloff->Source_0, threshold: self.threshold->Source_0 })),
    {
        let condition = match resolve(self.condition, BuilderKind::Selector, Field::Condition) {
            Ok(t) => t,
            Err(e) => return Err(e),
        };
        let lower = match resolve(self.lower, BuilderKind::Selector, Field::Lower) {
            Ok(t) => t,
            Err(e) => return Err(e),
        };
        let upper = match resolve(self.upper, BuilderKind::Selector, Field::Upper) {
            Ok(t) => t,
            Err(e) => return Err(e),
        };
        let falloff = match resolve(self.falloff, BuilderKind::Selector, Field::Falloff) {
            Ok(t) => t,
            Err(e) => return Err(e),
        };
        let threshold = match resolve(self.threshold, BuilderKind::Selector, Field::Threshold) {
            Ok(t) => t,
            Err(e) => return Err(e),
        };
        Ok(
            TaskSource::Selector(
                Box::new(
                    Selector { blender: self.blender, condition, lower, upper, falloff, threshold },
                ),
            ),
        )
    }
}

/// Builds a [`TransformDomain`]: translation, all children constant zero.
pub struct TransformDomainBuilder<T> {
    pub operation: DomainOperation,
    pub value_x: NameOrSource<T>,
    pub value_y: NameOrSource<T>,
    pub value_z: NameOrSource<T>,
    pub source: NameOrSource<T>,
}

impl<T: Float> TransformDomainBuilder<T> {
    pub fn new() -> (r: TransformDomainBuilder<T>)
        ensures
            r.operation == DomainOperation::Translate,
            r.value_x == NameOrSource::Source(TaskSource::Constant(crate::float::zero::<T>())),
            r.value_y == NameOrSource::Source(TaskSource::Constant(crate::float::zero::<T>())),
            r.value_z == NameOrSource::Source(TaskSource::Constant(crate::float::zero::<T>())),
            r.source == NameOrSource::Source(TaskSource::Constant(crate::float::zero::<T>())),
    {
        TransformDomainBuilder {
            operation: DomainOperation::Translate,
            value_x: NameOrSource::Source(TaskSource::Constant(T::from_u16(0))),
            value_y: NameOrSource::Source(TaskSource::Constant(T::from_u16(0))),
            value_z: NameOrSource::Source(TaskSource::Constant(T::from_u16(0))),
            source: NameOrSource::Source(TaskSource::Constant(T::from_u16(0))),
        }
    }

    pub fn operation(self, operation: DomainOperation) -> (r: TransformDomainBuilder<T>)
        ensures
            r == (TransformDomainBuilder { operation, ..self }),
    {
        TransformDomainBuilder { operation, ..self }
    }

    pub fn value_x(self, t: TaskSource<T>) -> (r: TransformDomainBuilder<T>)
        ensures
            r == (TransformDomainBuilder { value_x: NameOrSource::Source(t), ..self }),
    {
        TransformDomainBuilder { value_x: NameOrSource::Source(t), ..self }
    }

    pub fn named_value_x(self, name: &str) -> (r: TransformDomainBuilder<T>)
        ensures
            r.value_x is Named && r.value_x->Named_0@ == name@,
            r.value_y == self.value_y,
            r.value_z == self.value_z,
            r.source == self.source,
    {
        TransformDomainBuilder { value_x: NameOrSource::Named(name.to_owned()), ..self }
    }

    pub fn value_y(self, t: TaskSource<T>) -> (r: TransformDomainBuilder<T>)
        ensures
            r == (TransformDomainBuilder { value_y: NameOrSource::Source(t), ..self }),
    {
        TransformDomainBuilder { value_y: NameOrSource::Source(t), ..self }
    }

    pub fn named_value_y(self, name: &str) -> (r: TransformDomainBuilder<T>)
        ensures
            r.value_y is Named && r.value_y->Named_0@ == name@,
            r.value_x == self.value_x,
            r.value_z == self.value_z,
            r.source == self.source,
    {
        TransformDomainBuilder { value_y: NameOrSource::Named(name.to_owned()), ..self }
    }

    pub fn value_z(self, t: TaskSource<T>) -> (r: TransformDomainBuilder<T>)
        ensures
            r == (TransformDomainBuilder { value_z: NameOrSource::Source(t), ..self }),
    {
        TransformDomainBuilder { value_z: NameOrSource::Source(t), ..self }
    }

    pub fn named_value_z(self, name: &str) -> (r: TransformDomainBuilder<T>)
        ensures
            r.value_z is Named && r.value_z->Named_0@ == name@,
            r.value_x == self.value_x,
            r.value_y == self.value_y,
            r.source == self.source,
    {
        TransformDomainBuilder { value_z: NameOrSource::Named(name.to_owned()), ..self }
    }

    pub fn source(self, t: TaskSource<T>) -> (r: TransformDomainBuilder<T>)
        ensures
            r == (TransformDomainBuilder { source: NameOrSource::Source(t), ..self }),
    {
        TransformDomainBuilder { source: NameOrSource::Source(t), ..self }
    }

    pub fn named_source(self, name: &str) -> (r: TransformDomainBuilder<T>)
        ensures
            r.source is Named && r.source->Named_0@ == name@,
            r.value_x == self.value_x,
            r.value_y == self.value_y,
            r.value_z == self.value_z,
    {
        TransformDomainBuilder { source: NameOrSource::Named(name.to_owned()), ..self }
    }

    /// Looks the fields given by name up in `tree`.
    pub fn link(self, tree: &TaskTree<T>) -> (r: TransformDomainBuilder<T>)
        requires
            tree.wf(),
        ensures
            linked(self.value_x, r.value_x, *tree),
            linked(self.value_y, r.value_y, *tree),
            linked(self.value_z, r.value_z, *tree),
            linked(self.source, r.source, *tree),
            r.operation == self.operation,
    {
        TransformDomainBuilder {
            operation: self.operation,
            value_x: self.value_x.link(tree),
            value_y: self.value_y.link(tree),
            value_z: self.value_z.link(tree),
            source: self.source.link(tree),
        }
    }

    /// The node, or the error naming the first field that still holds a
    /// name.
    pub fn build(self) -> (r: Result<TaskSource<T>, BuildError>)
        ensures
            r is Ok <==> (self.value_x is Source && self.value_y is Source && self.value_z is Source && self.source is Source),
            r is Ok ==> r->Ok_0 == TaskSource::Domain(Box::new(TransformDomain { source: self.source->Source_0, operation: self.operation, value_x: self.value_x->Source_0, value_y: self.value_y->Source_0, value_z: self.value_z->Source_0 })),
    {
        let source = match resolve(self.source, BuilderKind::TransformDomain, Field::Source) {
            Ok(t) => t,
            Err(e) => return Err(e),
        };
        let value_x = match resolve(self.value_x, BuilderKind::TransformDomain, Field::ValueX) {
            Ok(t) => t,
            Err(e) => return Err(e),
        };
        let value_y = match resolve(self.value_y, BuilderKind::TransformDomain, Field::ValueY) {
            Ok(t) => t,
            Err(e) => return Err(e),
        };
        let value_z = match resolve(self.value_z, BuilderKind::TransformDomain, Field::ValueZ) {
            Ok(t) => t,
            Err(e) => return Err(e),
        };
        Ok(
            TaskSource::Domain(
                Box::new(
                    TransformDomain { source, operation: self.operation, value_x, value_y, value_z },
                ),
            ),
        )
    }
}

} // verus!
