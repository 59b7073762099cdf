use ferro_noise::builder::{
    constant, AggregatorBuilder, BiasBuilder, BuildError, BuilderKind, CacheBuilder, Field,
    ScaleBuilder, ScaleOffsetBuilder, SelectorBuilder, TransformDomainBuilder,
};
use ferro_noise::cellular::{Cellular, Distance};
use ferro_noise::config::{
    from_configs, AggregateConfig, FractalConfig, GradientConfig, LoadError, NameOrConst,
    ScaleConfig, TaskConfig,
};
use ferro_noise::fractal::FractalSource;
use ferro_noise::float::Float;
use ferro_noise::fractal::{FractalBuilder, FractalType, Perlin as PerlinTask, PerlinConfig};
use ferro_noise::rng::{Xorshift, PCG};
use ferro_noise::source::{Gradient, Noise, Perlin};
use ferro_noise::math::{
    clamp, cubic_curve, ease_in_out, lerp, quintic_curve, FloorDiv, FractalBlender,
};
use ferro_noise::sort::{sort_tasks, GraphError};
use ferro_noise::task::{
    aggregate_step, selector_branch, Arity, Branch, CacheValue, DomainOperation, Operation,
    TaskSource,
};
use ferro_noise::tree::TaskTree;

#[derive(Clone, Copy, Debug, PartialEq, PartialOrd)]
struct F(f64);

impl Float for F {
    fn fract_of(self) -> F {
        self.fract()
    }
    fn cell_of(self) -> i32 {
        self.as_cell()
    }
    fn fract(self) -> F {
        F(self.0.fract())
    }
    fn as_cell(self) -> i32 {
        self.0 as i32
    }
    fn sum(self, o: F) -> F {
        self.add(o)
    }
    fn diff(self, o: F) -> F {
        self.sub(o)
    }
    fn prod(self, o: F) -> F {
        self.mul(o)
    }
    fn quot(self, o: F) -> F {
        self.div(o)
    }
    fn negated(self) -> F {
        self.neg()
    }
    fn less(self, o: F) -> bool {
        self.lt(o)
    }
    fn absolute(self) -> F {
        self.abs()
    }
    fn floor_of(self) -> F {
        self.floor()
    }
    fn sqrt_of(self) -> F {
        self.sqrt()
    }
    fn pow_of(self, n: F) -> F {
        self.powf(n)
    }
    fn index_of(self) -> usize {
        self.as_index()
    }
    fn of_u16(n: u16) -> F {
        F::from_u16(n)
    }
    fn of_usize(n: usize) -> F {
        F::from_usize(n)
    }
    fn of_draw(bits: u64) -> F {
        F::from_draw(bits)
    }
    fn max_value() -> F {
        F::max_val()
    }
    fn min_value() -> F {
        F::min_val()
    }
    fn epsilon_value() -> F {
        F::epsilon()
    }
    fn add(self, o: F) -> F {
        F(self.0 + o.0)
    }
    fn sub(self, o: F) -> F {
        F(self.0 - o.0)
    }
    fn mul(self, o: F) -> F {
        F(self.0 * o.0)
    }
    fn div(self, o: F) -> F {
        F(self.0 / o.0)
    }
    fn neg(self) -> F {
        F(-self.0)
    }
    fn lt(self, o: F) -> bool {
        self.0 < o.0
    }
    fn abs(self) -> F {
        F(self.0.abs())
    }
    fn floor(self) -> F {
        F(self.0.floor())
    }
    fn sqrt(self) -> F {
        F(self.0.sqrt())
    }
    fn powf(self, n: F) -> F {
        F(self.0.powf(n.0))
    }
    fn as_index(self) -> usize {
        self.0 as usize
    }
    fn from_u16(n: u16) -> F {
        F(n as f64)
    }
    fn from_usize(n: usize) -> F {
        F(n as f64)
    }
    fn from_draw(bits: u64) -> F {
        F(bits as f64 / u64::MAX as f64)
    }
    fn max_val() -> F {
        F(f64::MAX)
    }
    fn min_val() -> F {
        F(f64::MIN)
    }
    fn epsilon() -> F {
        F(f64::EPSILON)
    }
}

#[derive(Clone, Copy, Debug, PartialEq, PartialOrd)]
struct G(f32);

impl Float for G {
    fn fract_of(self) -> G {
        self.fract()
    }
    fn cell_of(self) -> i32 {
        self.as_cell()
    }
    fn fract(self) -> G {
        G(self.0.fract())
    }
    fn as_cell(self) -> i32 {
        self.0 as i32
    }
    fn sum(self, o: G) -> G {
        self.add(o)
    }
    fn diff(self, o: G) -> G {
        self.sub(o)
    }
    fn prod(self, o: G) -> G {
        self.mul(o)
    }
    fn quot(self, o: G) -> G {
        self.div(o)
    }
    fn negated(self) -> G {
        self.neg()
    }
    fn less(self, o: G) -> bool {
        self.lt(o)
    }
    fn absolute(self) -> G {
        self.abs()
    }
    fn floor_of(self) -> G {
        self.floor()
    }
    fn sqrt_of(self) -> G {
        self.sqrt()
    }
    fn pow_of(self, n: G) -> G {
        self.powf(n)
    }
    fn index_of(self) -> usize {
        self.as_index()
    }
    fn of_u16(n: u16) -> G {
        G::from_u16(n)
    }
    fn of_usize(n: usize) -> G {
        G::from_usize(n)
    }
    fn of_draw(bits: u64) -> G {
        G::from_draw(bits)
    }
    fn max_value() -> G {
        G::max_val()
    }
    fn min_value() -> G {
        G::min_val()
    }
    fn epsilon_value() -> G {
        G::epsilon()
    }
    fn add(self, o: G) -> G {
        G(self.0 + o.0)
    }
    fn sub(self, o: G) -> G {
        G(self.0 - o.0)
    }
    fn mul(self, o: G) -> G {
        G(self.0 * o.0)
    }
    fn div(self, o: G) -> G {
        G(self.0 / o.0)
    }
    fn neg(self) -> G {
        G(-self.0)
    }
    fn lt(self, o: G) -> bool {
        self.0 < o.0
    }
    fn abs(self) -> G {
        G(self.0.abs())
    }
    fn floor(self) -> G {
        G(self.0.floor())
    }
    fn sqrt(self) -> G {
        G(self.0.sqrt())
    }
    fn powf(self, n: G) -> G {
        G(self.0.powf(n.0))
    }
    fn as_index(self) -> usize {
        self.0 as usize
    }
    fn from_u16(n: u16) -> G {
        G(n as f32)
    }
    fn from_usize(n: usize) -> G {
        G(n as f32)
    }
    fn from_draw(bits: u64) -> G {
        G(bits as f32 / u64::MAX as f32)
    }
    fn max_val() -> G {
        G(f32::MAX)
    }
    fn min_val() -> G {
        G(f32::MIN)
    }
    fn epsilon() -> G {
        G(f32::EPSILON)
    }
}

fn c(v: f64) -> TaskSource<F> {
    constant(F(v))
}

fn check_all(t: &mut TaskSource<F>, expected: f64) {
    for v in [1.0, 2.0, 3.0] {
        assert_eq!(t.sample_1d(F(v)), F(expected));
        assert_eq!(t.sample_2d(F(v), F(v)), F(expected));
        assert_eq!(t.sample_3d(F(v), F(v), F(v)), F(expected));
    }
}

#[test]
fn algorithm_lerp_tests() {
    assert_eq!(lerp(F(0.0), F(1.0), F(0.4)), F(0.4));
    assert_eq!(lerp(F(0.0), F(10.0), F(0.4)), F(4.0));
}

#[test]
fn algorithm_clamp_tests() {
    assert_eq!(clamp(F(0.0), F(1.0), F(5.0)), F(1.0));
    assert_eq!(clamp(F(2.0), F(1.0), F(5.0)), F(2.0));
    assert_eq!(clamp(F(6.0), F(1.0), F(5.0)), F(5.0));
}

#[test]
fn algorithm_cubic_curve_tests() {
    assert_eq!(cubic_curve(F(0.0)), F(0.0));
    assert_eq!(cubic_curve(F(1.0)), F(1.0));
    assert_eq!(cubic_curve(F(1.5)), F(0.0));
    assert_eq!(cubic_curve(F(2.0)), F(-4.0));
}

#[test]
fn algorithm_quintic_curve_tests() {
    assert_eq!(quintic_curve(F(0.0)), F(0.0));
    assert_eq!(quintic_curve(F(1.0)), F(1.0));
    assert_eq!(quintic_curve(F(2.0)), F(32.0));
}

#[test]
fn easing_ease_in_out_tests() {
    assert_eq!(ease_in_out(F(1.0), F(2.0)), F(1.0));
    assert_eq!(ease_in_out(F(1.0), F(2.0)), F(1.0));
}

#[test]
fn ease_in_out_lower_half() {
    // 2^(2-1) * 0.25^2
    assert_eq!(ease_in_out(F(0.25), F(2.0)), F(0.125));
    assert_eq!(ease_in_out(F(0.75), F(2.0)), F(0.875));
}

#[test]
fn blender_curves() {
    assert_eq!(FractalBlender::Linear.apply(F(0.3)), F(0.3));
    assert_eq!(FractalBlender::Cubic.apply(F(0.5)), F(0.5));
    assert_eq!(FractalBlender::Quintic.apply(F(1.0)), F(1.0));
    assert_eq!(FractalBlender::default(), FractalBlender::Quintic);
}

#[test]
fn floor_div_unsigned() {
    assert_eq!(10u64.floor_div(3), 3);
    assert_eq!(15u32.floor_div(4), 3);
    assert_eq!(7usize.floor_div(7), 1);
}

#[test]
fn aggregator_aggregator_add_tests() {
    let mut result = AggregatorBuilder::new()
        .operation(Operation::Add)
        .initial(F(0.0))
        .add_task(c(0.5))
        .add_task(c(0.5))
        .build().unwrap();
    check_all(&mut result, 1.0);
    let mut result = AggregatorBuilder::new()
        .operation(Operation::Add)
        .initial(F(0.0))
        .add_task(c(0.5))
        .add_task(c(0.25))
        .build().unwrap();
    check_all(&mut result, 0.75);
}

#[test]
fn aggregator_aggregator_avg_tests() {
    let mut result = AggregatorBuilder::new()
        .operation(Operation::Avg)
        .initial(F(0.0))
        .add_task(c(0.5))
        .add_task(c(0.5))
        .build().unwrap();
    check_all(&mut result, 0.5);
    let mut result = AggregatorBuilder::new()
        .operation(Operation::Avg)
        .initial(F::from_u16(0))
        .add_task(c(0.5))
        .add_task(c(0.5))
        .build().unwrap();
    check_all(&mut result, 0.5);
}

#[test]
fn aggregator_aggregator_div_tests() {
    let mut result = AggregatorBuilder::new()
        .operation(Operation::Div)
        .initial(F(2.0))
        .add_task(c(1.0))
        .add_task(c(4.0))
        .build().unwrap();
    check_all(&mut result, 0.5);
    let mut result = AggregatorBuilder::new()
        .operation(Operation::Div)
        .initial(F(2.0))
        .add_task(c(4.0))
        .add_task(c(1.0))
        .build().unwrap();
    check_all(&mut result, 0.5);
}

#[test]
fn aggregator_aggregator_max_tests() {
    let mut result = AggregatorBuilder::new()
        .operation(Operation::Max)
        .add_task(c(0.2))
        .add_task(c(0.5))
        .build().unwrap();
    check_all(&mut result, 0.5);
    let mut result = AggregatorBuilder::new()
        .operation(Operation::Max)
        .initial(F(-2.0))
        .add_task(c(-0.05))
        .add_task(c(0.5))
        .build().unwrap();
    check_all(&mut result, 0.5);
}

#[test]
fn aggregator_aggregator_min_tests() {
    let mut result = AggregatorBuilder::new()
        .operation(Operation::Min)
        .add_task(c(0.5))
        .add_task(c(3.0))
        .build().unwrap();
    check_all(&mut result, 0.5);
    let mut result = AggregatorBuilder::new()
        .operation(Operation::Min)
        .initial(F(2.0))
        .add_task(c(5.0))
        .add_task(c(0.5))
        .build().unwrap();
    check_all(&mut result, 0.5);
}

#[test]
fn aggregator_aggregator_mul_tests() {
    let mut result = AggregatorBuilder::new()
        .operation(Operation::Mul)
        .add_task(c(0.5))
        .add_task(c(0.5))
        .build().unwrap();
    check_all(&mut result, 0.25);
    let mut result = AggregatorBuilder::new()
        .operation(Operation::Mul)
        .add_task(c(0.5))
        .add_task(c(0.5))
        .build().unwrap();
    check_all(&mut result, 0.25);
}

#[test]
fn aggregator_aggregator_sub_tests() {
    let mut result = AggregatorBuilder::new()
        .operation(Operation::Sub)
        .initial(F(1.0))
        .add_task(c(0.5))
        .add_task(c(0.5))
        .build().unwrap();
    check_all(&mut result, 0.0);
    let mut result = AggregatorBuilder::new()
        .operation(Operation::Sub)
        .initial(F(1.0))
        .add_task(c(0.5))
        .add_task(c(0.25))
        .build().unwrap();
    check_all(&mut result, 0.25);
}

#[test]
fn aggregator_empty_avg_is_initial() {
    let mut result = AggregatorBuilder::new().operation(Operation::Avg).initial(F(0.7)).build().unwrap();
    check_all(&mut result, 0.7);
}

#[test]
fn aggregator_default_initials() {
    let mut result = AggregatorBuilder::<F>::new().operation(Operation::Min).build().unwrap();
    assert_eq!(result.sample_1d(F(0.0)), F(f64::MAX));
    let mut result = AggregatorBuilder::<F>::new().operation(Operation::Max).build().unwrap();
    assert_eq!(result.sample_1d(F(0.0)), F(f64::MIN));
    let mut result = AggregatorBuilder::<F>::new().operation(Operation::Mul).build().unwrap();
    assert_eq!(result.sample_1d(F(0.0)), F(1.0));
    let mut result = AggregatorBuilder::<F>::new().operation(Operation::Add).build().unwrap();
    assert_eq!(result.sample_1d(F(0.0)), F(0.0));
}

#[test]
fn aggregate_step_values() {
    assert_eq!(aggregate_step(Operation::Sub, F(1.0), F(0.25)), F(0.75));
    assert_eq!(aggregate_step(Operation::Div, F(1.0), F(4.0)), F(0.25));
    assert_eq!(aggregate_step(Operation::Max, F(1.0), F(4.0)), F(4.0));
    assert_eq!(aggregate_step(Operation::Min, F(1.0), F(4.0)), F(1.0));
}

#[test]
fn task_type_bias_tests() {
    let mut result = BiasBuilder::new().bias(c(1.0)).source(c(0.5)).build().unwrap();
    check_all(&mut result, 0.5);
    let mut result = BiasBuilder::new().bias(c(0.5)).source(c(0.25)).build().unwrap();
    check_all(&mut result, 0.0625);
}

#[test]
fn cache_value_cached() {
    let mut result = CacheBuilder::new().source(c(1.0)).build().unwrap();
    assert_eq!(result.sample_1d(F(1.0)), F(1.0));
    assert_eq!(result.sample_2d(F(1.0), F(1.0)), F(1.0));
    assert_eq!(result.sample_3d(F(1.0), F(1.0), F(1.0)), F(1.0));
    result.set_memo(
        Arity::One,
        Some(CacheValue { x: F(1.0), y: F(0.0), z: F(0.0), value: F(2.0) }),
    );
    result.set_memo(
        Arity::Two,
        Some(CacheValue { x: F(1.0), y: F(1.0), z: F(0.0), value: F(12345.0) }),
    );
    result.set_memo(
        Arity::Three,
        Some(CacheValue { x: F(1.0), y: F(1.0), z: F(1.0), value: F(54321.0) }),
    );
    assert_eq!(result.sample_1d(F(1.0)), F(2.0));
    assert_eq!(result.sample_2d(F(1.0), F(1.0)), F(12345.0));
    assert_eq!(result.sample_3d(F(1.0), F(1.0), F(1.0)), F(54321.0));
    result.set_memo(Arity::One, None);
    result.set_memo(Arity::Two, None);
    result.set_memo(Arity::Three, None);
    assert_eq!(result.sample_1d(F(1.0)), F(1.0));
    assert_eq!(result.sample_2d(F(1.0), F(1.0)), F(1.0));
    assert_eq!(result.sample_3d(F(1.0), F(1.0), F(1.0)), F(1.0));
}

#[test]
fn cache_other_coordinate_reads_source() {
    let mut result = CacheBuilder::new().source(c(1.0)).build().unwrap();
    result.set_memo(
        Arity::One,
        Some(CacheValue { x: F(1.0), y: F(0.0), z: F(0.0), value: F(2.0) }),
    );
    assert_eq!(result.sample_1d(F(1.0)), F(2.0));
    assert_eq!(result.sample_1d(F(3.0)), F(1.0));
    // the miss replaced the memo, so the first coordinate now reads the source
    assert_eq!(result.sample_1d(F(1.0)), F(1.0));
}

#[test]
fn scale_scale_half() {
    let mut result = ScaleBuilder::new().scale(c(0.5)).source(c(1.0)).build().unwrap();
    check_all(&mut result, 0.5);
}

#[test]
fn scale_scale_double() {
    let mut result = ScaleBuilder::new().scale(c(2.0)).source(c(1.0)).build().unwrap();
    check_all(&mut result, 2.0);
}

#[test]
fn scale_offset_scale_half() {
    let mut result = ScaleOffsetBuilder::new().scale(c(0.5)).source(c(1.0)).build().unwrap();
    check_all(&mut result, 0.5);
}

#[test]
fn scale_offset_scale_double_negative_offset() {
    let mut result = ScaleOffsetBuilder::new()
        .scale(c(2.0))
        .source(c(1.0))
        .offset(c(-1.0))
        .build()
        .unwrap();
    check_all(&mut result, 1.0);
}

fn check_selector(t: &mut TaskSource<F>, expected: f64) {
    assert_eq!(t.sample_1d(F(0.0)), F(expected));
    assert_eq!(t.sample_2d(F(0.0), F(0.0)), F(expected));
    assert_eq!(t.sample_3d(F(0.0), F(0.0), F(0.0)), F(expected));
}

#[test]
fn selector_task_type_selector_tests() {
    let mut r = SelectorBuilder::new().lower(c(0.0)).upper(c(1.0)).condition(c(1.0)).build().unwrap();
    check_selector(&mut r, 1.0);
    let mut r = SelectorBuilder::new().lower(c(0.0)).upper(c(1.0)).condition(c(0.0)).build().unwrap();
    check_selector(&mut r, 0.0);
    let mut r = SelectorBuilder::new()
        .lower(c(0.0))
        .condition(c(0.5))
        .falloff(c(0.25))
        .build()
        .unwrap();
    check_selector(&mut r, 0.5);
    let mut r = SelectorBuilder::new()
        .lower(c(0.0))
        .upper(c(1.0))
        .threshold(c(0.5))
        .condition(c(1.0))
        .build()
        .unwrap();
    check_selector(&mut r, 1.0);
    let mut r = SelectorBuilder::new()
        .lower(c(0.0))
        .upper(c(1.0))
        .threshold(c(0.5))
        .condition(c(0.0))
        .build()
        .unwrap();
    check_selector(&mut r, 0.0);
    let mut r = SelectorBuilder::new()
        .lower(c(0.0))
        .upper(c(1.0))
        .threshold(c(0.5))
        .falloff(c(0.25))
        .condition(c(0.5))
        .build()
        .unwrap();
    check_selector(&mut r, 0.5);
}

#[test]
fn selector_branch_decisions() {
    let b = selector_branch(FractalBlender::Linear, F(1.0), F(0.0), F(0.5));
    assert!(matches!(b, Branch::Upper));
    let b = selector_branch(FractalBlender::Linear, F(0.0), F(0.0), F(0.5));
    assert!(matches!(b, Branch::Lower));
    let b = selector_branch(FractalBlender::Linear, F(0.5), F(0.25), F(0.5));
    assert!(matches!(b, Branch::Blend(F(w)) if w == 0.5));
    let b = selector_branch(FractalBlender::Linear, F(0.1), F(0.25), F(0.5));
    assert!(matches!(b, Branch::Lower));
}

#[test]
fn transform_domain_translates_input() {
    // a constant source reads the same wherever the domain moves the input
    let mut t = TransformDomainBuilder::new()
        .operation(DomainOperation::Scale)
        .value_x(c(2.0))
        .source(c(3.0))
        .build()
        .unwrap();
    assert_eq!(t.sample_1d(F(1.0)), F(3.0));
    let mut t = TransformDomainBuilder::new()
        .value_x(c(2.0))
        .source(
            CacheBuilder::new().source(c(4.0)).build().unwrap(),
        )
        .build()
        .unwrap();
    assert_eq!(t.sample_1d(F(1.0)), F(4.0));
}

#[test]
fn task_task_type_constant_tests() {
    let mut result = c(0.5);
    check_all(&mut result, 0.5);
}

#[test]
fn task_task_type_cache_tests() {
    let mut result = CacheBuilder::new().source(c(0.5)).build().unwrap();
    check_all(&mut result, 0.5);
}

#[test]
fn task_tree_aggregate_named_result() {
    let mut tree = TaskTree::new();
    tree.add_task("task 1", c(1.0));
    let node = AggregatorBuilder::new()
        .operation(Operation::Add)
        .add_named_task("task 1")
        .add_named_task("task 1")
        .link(&tree)
        .build().unwrap();
    tree.add_task("task 2", node);
    assert_eq!(tree.sample_1d("task 2", F(1.0)), F(2.0));
}

#[test]
fn task_tree_constant_result() {
    let mut tree = TaskTree::new();
    tree.add_task("task 1", c(1.0));
    assert_eq!(tree.sample_1d("task 1", F(1.0)), F(1.0));
}

#[test]
fn task_tree_bias_result() {
    let mut tree = TaskTree::new();
    tree.add_task("task 1", c(1.0));
    tree.add_task("task 2", c(0.0));
    let node = BiasBuilder::new()
        .named_source("task 1")
        .named_bias("task 2")
        .link(&tree)
        .build()
        .unwrap();
    tree.add_task("task 3", node);
    assert_eq!(tree.sample_1d("task 3", F(1.0)), F(1.0));
}

#[test]
fn task_tree_cache_result() {
    let mut tree = TaskTree::new();
    tree.add_task("task 1", c(1.0));
    let node = CacheBuilder::new().named_source("task 1").link(&tree).build().unwrap();
    tree.add_task("task 2", node);
    assert_eq!(tree.sample_1d("task 2", F(1.0)), F(1.0));
}

#[test]
fn task_tree_selector_result() {
    let mut tree = TaskTree::new();
    tree.add_task("task 1", c(1.0));
    tree.add_task("task 2", c(0.0));
    tree.add_task("task 3", c(0.0));
    tree.add_task("task 4", c(0.5));
    tree.add_task("task 5", c(1.0));
    let node = SelectorBuilder::new()
        .named_condition("task 1")
        .named_falloff("task 2")
        .named_lower("task 3")
        .named_threshold("task 4")
        .named_upper("task 5")
        .link(&tree)
        .build()
        .unwrap();
    tree.add_task("task 6", node);
    assert_eq!(tree.sample_1d("task 6", F(1.0)), F(1.0));
}

#[test]
fn task_tree_unknown_name_samples_zero() {
    let mut tree = TaskTree::new();
    tree.add_task("task 1", c(1.0));
    assert_eq!(tree.sample_1d("missing", F(1.0)), F(0.0));
    assert_eq!(tree.sample_2d("missing", F(1.0), F(2.0)), F(0.0));
    assert_eq!(tree.sample_3d("missing", F(1.0), F(2.0), F(3.0)), F(0.0));
    assert!(tree.get("task 1").is_some());
    assert!(tree.get("missing").is_none());
}

#[test]
fn task_tree_replaces_same_name() {
    let mut tree = TaskTree::new();
    tree.add_task("a", c(1.0));
    tree.add_task("a", c(2.0));
    assert_eq!(tree.len(), 1);
    assert_eq!(tree.sample_1d("a", F(0.0)), F(2.0));
}

#[test]
fn build_without_link_is_error() {
    let r = CacheBuilder::<F>::new().named_source("nowhere").build();
    match r {
        Err(BuildError { builder, field, name }) => {
            assert_eq!(builder, BuilderKind::Cache);
            assert_eq!(field, Field::Source);
            assert_eq!(name, "nowhere");
        },
        Ok(_) => panic!("an unlinked name must not build"),
    }
    let tree = TaskTree::<F>::new();
    let r = ScaleBuilder::new().named_scale("absent").link(&tree).build();
    assert!(matches!(r, Err(BuildError { field: Field::Scale, .. })));
}

fn named(n: &str) -> NameOrConst<F> {
    NameOrConst::Named(n.to_string())
}

fn sample_config() -> Vec<(String, TaskConfig<F>)> {
    vec![
        ("const_a".to_string(), TaskConfig::Constant(F(1.0))),
        ("cache_b".to_string(), TaskConfig::Cache("fractal_a".to_string())),
        (
            "fractal_a".to_string(),
            TaskConfig::Scale(ScaleConfig { scale: NameOrConst::Value(F(0.5)), source: named("const_a") }),
        ),
    ]
}

fn position(order: &[String], name: &str) -> usize {
    order.iter().position(|n| n == name).unwrap()
}

#[test]
fn generic_sort() {
    let config = sample_config();
    let sorted = sort_tasks(&config);
    assert!(sorted.is_ok());
    let sorted = sorted.unwrap();
    assert_eq!(sorted.len(), 3);
    assert!(position(&sorted, "const_a") < position(&sorted, "fractal_a"));
    assert!(position(&sorted, "fractal_a") < position(&sorted, "cache_b"));
}

#[test]
fn sort_reports_cycle() {
    let config = vec![
        ("a".to_string(), TaskConfig::Cache("b".to_string())),
        ("b".to_string(), TaskConfig::Cache("a".to_string())),
        ("c".to_string(), TaskConfig::Constant(F(1.0))),
    ];
    assert!(matches!(sort_tasks(&config), Err(GraphError::CycleDetected)));
    let selfref = vec![("s".to_string(), TaskConfig::<F>::Cache("s".to_string()))];
    assert!(matches!(sort_tasks(&selfref), Err(GraphError::CycleDetected)));
}

#[test]
fn sort_reports_unknown_task() {
    let config = vec![("a".to_string(), TaskConfig::<F>::Cache("ghost".to_string()))];
    match sort_tasks(&config) {
        Err(GraphError::UnknownTask(n)) => assert_eq!(n, "ghost"),
        _ => panic!("expected an unknown task"),
    }
}

#[test]
fn sort_duplicate_references() {
    let config = vec![
        (
            "sum".to_string(),
            TaskConfig::Aggregate(AggregateConfig {
                operator: Operation::Add,
                initial: F(0.0),
                source: vec![named("one"), named("one"), NameOrConst::Value(F(1.0))],
            }),
        ),
        ("one".to_string(), TaskConfig::Constant(F(1.0))),
    ];
    let sorted = sort_tasks(&config).unwrap();
    assert_eq!(sorted, vec!["one".to_string(), "sum".to_string()]);
    let mut tree = from_configs(&config).unwrap();
    assert_eq!(tree.sample_1d("sum", F(0.0)), F(3.0));
}

#[test]
fn helper_from_configs() {
    let config = sample_config();
    let mut tree = from_configs(&config).unwrap();
    assert!(tree.get("const_a").is_some());
    assert!(tree.get("cache_b").is_some());
    assert!(tree.get("fractal_a").is_some());
    assert_eq!(tree.sample_1d("const_a", F(1.0)), F(1.0));
    assert_eq!(tree.sample_1d("cache_b", F(1.0)), F(0.5));
}

#[test]
fn construction_is_repeatable() {
    let mut first = from_configs(&sample_config()).unwrap();
    let mut second = from_configs(&sample_config()).unwrap();
    for x in [0.0, 0.3, 1.7] {
        assert_eq!(first.sample_1d("cache_b", F(x)), second.sample_1d("cache_b", F(x)));
        assert_eq!(
            first.sample_2d("fractal_a", F(x), F(x)),
            second.sample_2d("fractal_a", F(x), F(x))
        );
    }
    let bad = vec![("a".to_string(), TaskConfig::<F>::Cache("a".to_string()))];
    assert!(matches!(from_configs(&bad), Err(LoadError::Graph(GraphError::CycleDetected))));
}

#[test]
fn pcg_f32_generate_random() {
    let mut rand = PCG::default();
    let x = rand.next_fraction::<G>();
    assert_eq!(x, G(0.07794019));
}

#[test]
fn pcg_f64_generate_random() {
    let mut rand = PCG::default();
    let x = rand.next_fraction::<F>();
    assert_eq!(x, F(0.07794018875620168));
}

#[test]
fn xorshift_f32_generate_random() {
    let mut rand = Xorshift::default();
    let x = rand.next_fraction::<G>();
    assert_eq!(x, G(0.061289262));
}

#[test]
fn xorshift_f64_generate_random() {
    let mut rand = Xorshift::default();
    let x = rand.next_fraction::<F>();
    assert_eq!(x, F(0.06128926091707416));
}

#[test]
fn perlin_noise_perlin_tests() {
    let perlin = Perlin::new(FractalBlender::Quintic);
    assert_eq!(perlin.sample_1d(F(0.0)), F(0.0));
    assert_eq!(perlin.sample_1d(F(0.1)), F(-0.004688999999999998));
}

#[test]
fn perlin_noise_perlin_seeded_tests() {
    let perlin = Perlin::new_from_seed(FractalBlender::Quintic, 12345);
    assert_eq!(perlin.sample_1d(F(0.0)), F(0.0));
    assert_eq!(perlin.sample_1d(F(0.1)), F(0.09252900000000001));
}

#[test]
fn perlin_lattice_is_doubled() {
    let perlin = Perlin::new(FractalBlender::Cubic);
    assert_eq!(perlin.lattice_value(0), 151);
    assert_eq!(perlin.lattice_value(256), 151);
    assert_eq!(perlin.lattice_value(511), 180);
    assert!((0..512).all(|i| perlin.lattice_value(i) < 256));
}

fn near(a: F, b: f64, eps: f64) {
    assert!((a.0 - b).abs() < eps, "{} vs {}", a.0, b);
}

#[test]
fn gradient_task_type_gradient_tests() {
    let result: Gradient<F> = Gradient::default();
    near(result.sample_1d(F(1.0)), 1.0, f64::EPSILON);
    near(result.sample_1d(F(-1.0)), -1.0, f64::EPSILON);
    near(result.sample_1d(F(0.6)), 0.2, f64::EPSILON);
    near(result.sample_2d(F(0.75), F(0.75)), 0.5, f64::EPSILON);
    near(result.sample_2d(F(2.0), F(2.0)), 1.0, f64::EPSILON);
    near(result.sample_2d(F(-2.0), F(-2.0)), -1.0, f64::EPSILON);
    near(result.sample_3d(F(0.75), F(0.75), F(0.0)), 0.5, f64::EPSILON);
    near(result.sample_3d(F(2.0), F(2.0), F(0.0)), 1.0, f64::EPSILON);
    near(result.sample_3d(F(-3.0), F(-3.0), F(0.0)), -1.0, f64::EPSILON);
}

#[test]
fn gradient_along_axis() {
    let result = Gradient::new([F(0.0), F(0.0), F(0.0)], [F(1.0), F(0.0), F(0.0)]);
    assert_eq!(result.sample_1d(F(1.0)), F(1.0));
    assert_eq!(result.sample_3d(F(0.0), F(5.0), F(5.0)), F(-1.0));
}

fn continuity(mut s: impl FnMut(f64, f64, f64, u8) -> f64) {
    assert!((s(0.11, 0.0, 0.0, 1) - s(0.1, 0.0, 0.0, 1)).abs() < 0.1);
    assert!((s(0.11, 0.11, 0.0, 2) - s(0.1, 0.1, 0.0, 2)).abs() < 0.1);
    assert!((s(0.11, 0.11, 0.11, 3) - s(0.1, 0.1, 0.1, 3)).abs() < 0.1);
}

fn fractal_of(kind: FractalType) -> ferro_noise::fractal::Fractal<F> {
    FractalBuilder::new()
        .fractal(kind)
        .source(Noise::Perlin(Perlin::new(FractalBlender::Cubic)))
        .octaves(1)
        .build()
}

fn sample_dims(f: &ferro_noise::fractal::Fractal<F>, x: f64, y: f64, z: f64, d: u8) -> f64 {
    match d {
        1 => f.sample_1d(F(x)).0,
        2 => f.sample_2d(F(x), F(y)).0,
        _ => f.sample_3d(F(x), F(y), F(z)).0,
    }
}

#[test]
fn fractal_fbm_is_continuous() {
    let f = fractal_of(FractalType::Brownian);
    continuity(|x, y, z, d| sample_dims(&f, x, y, z, d));
}

#[test]
fn fractal_billowing_is_continuous() {
    let f = fractal_of(FractalType::Billowing);
    continuity(|x, y, z, d| sample_dims(&f, x, y, z, d));
}

#[test]
fn fractal_ridged_multi_is_continuous() {
    let f = fractal_of(FractalType::RidgedMulti);
    continuity(|x, y, z, d| sample_dims(&f, x, y, z, d));
}

fn perlin_task() -> PerlinTask<F> {
    let mut config = PerlinConfig::default();
    config.octaves = 1;
    PerlinTask::new_with_config(Noise::Perlin(Perlin::new(FractalBlender::Cubic)), config)
}

#[test]
fn task_type_perlin_is_smooth() {
    let result = perlin_task();
    let mut value_total = 0.0;
    for x in [0.1, 0.2, 0.23, 0.14] {
        value_total = result.sample_1d(F(x)).0;
    }
    value_total /= 4.0;
    assert!(value_total < 0.1);
    let xs = [0.4, 0.6, 0.5, 0.5];
    let ys = [0.5, 0.5, 0.4, 0.6];
    let zs = [0.4, 0.5, 0.5, 0.6];
    let mut value_total = 0.0;
    for i in 0..4 {
        value_total = result.sample_2d(F(xs[i]), F(ys[i])).0;
    }
    value_total /= 4.0;
    assert!(value_total < 0.1);
    let mut value_total = 0.0;
    for i in 0..4 {
        value_total = result.sample_3d(F(xs[i]), F(ys[i]), F(zs[i])).0;
    }
    value_total /= 4.0;
    assert!(value_total < 0.1);
}

#[test]
fn task_type_perlin_is_continuous() {
    let result = perlin_task();
    continuity(|x, y, z, d| match d {
        1 => result.sample_1d(F(x)).0,
        2 => result.sample_2d(F(x), F(y)).0,
        _ => result.sample_3d(F(x), F(y), F(z)).0,
    });
    let default_task: PerlinTask<F> = PerlinTask::new(Noise::Perlin(Perlin::new(FractalBlender::Quintic)));
    assert_eq!(default_task.config.octaves, 6);
}

#[test]
fn cellular_two_nearest_points() {
    // Cells of side 10 around (5, 5): the normalised gap between the two
    // nearest feature points, as the cell hashes and PCG draws place them.
    let cellular = Cellular::new([G(10.0), G(10.0), G(10.0)], Distance::Euclidean);
    let x = cellular.sample_2d(G(5.0), G(5.0));
    assert_eq!(x, G(-0.34514946));
}

#[test]
fn cellular_cell_seeds() {
    let cellular: Cellular<F> = Cellular::new_seeded([F(1.0), F(1.0), F(1.0)], Distance::Manhattan, 7);
    assert_eq!(cellular.seed_from_x(0), 7 ^ 13844389427);
    assert_eq!(cellular.seed_from_x(1), (2053u64 + 7) ^ 13844389427);
    let minus_one = (u64::MAX).wrapping_mul(2053).wrapping_add(7) ^ 13844389427;
    assert_eq!(cellular.seed_from_x(-1), minus_one);
    assert_eq!(
        cellular.seed_from_xy(1, 2),
        cellular.seed_from_x(1).wrapping_add((2u64 * 7177) ^ 24384685848)
    );
    assert_eq!(
        cellular.seed_from_xyz(1, 2, 3),
        cellular.seed_from_xy(1, 2).wrapping_add((3u64 * 4943) ^ 9413284231)
    );
    let v = cellular.sample_3d(F(0.5), F(0.5), F(0.5));
    assert!(v.0 >= -1.0 && v.0 <= 5.0);
}

#[test]
fn graph_with_fractal_and_gradient() {
    let config = vec![
        (
            "ramp".to_string(),
            TaskConfig::Gradient(GradientConfig {
                x1: F(0.0),
                y1: F(0.0),
                z1: F(0.0),
                x2: F(1.0),
                y2: F(1.0),
                z2: F(0.0),
            }),
        ),
        (
            "hills".to_string(),
            TaskConfig::Fractal(FractalConfig {
                amplitude: F(1.0),
                exponent: None,
                fractal: FractalType::Brownian,
                frequency: F(0.5),
                gain: F(0.5),
                interp: FractalBlender::Quintic,
                lacunarity: F(2.0),
                octaves: 1,
                offset: None,
                source: FractalSource::Perlin,
            }),
        ),
        ("cached".to_string(), TaskConfig::Cache("hills".to_string())),
    ];
    let mut tree = from_configs(&config).unwrap();
    near(tree.sample_1d("ramp", F(1.0)), 1.0, 1e-12);
    let direct = fractal_of(FractalType::Brownian);
    let a = tree.sample_2d("cached", F(0.3), F(0.7));
    let b = tree.sample_2d("cached", F(0.3), F(0.7));
    assert_eq!(a, b);
    assert!(direct.sample_1d(F(0.2)).0.abs() <= 1.0);
    let flat = vec![(
        "flat".to_string(),
        TaskConfig::Gradient(GradientConfig {
            x1: F(1.0),
            y1: F(1.0),
            z1: F(1.0),
            x2: F(1.0),
            y2: F(1.0),
            z2: F(1.0),
        }),
    )];
    assert!(matches!(
        from_configs(&flat),
        Err(LoadError::Build(BuildError { builder: BuilderKind::Gradient, field: Field::Points, .. }))
    ));
}

#[test]
fn aggregator_keeps_configured_order() {
    let mut tree = TaskTree::new();
    tree.add_task("four", c(4.0));
    let node = AggregatorBuilder::new()
        .operation(Operation::Div)
        .initial(F(2.0))
        .add_named_task("four")
        .add_task(c(1.0))
        .link(&tree)
        .build()
        .unwrap();
    tree.add_task("ratio", node);
    assert_eq!(tree.sample_1d("ratio", F(0.0)), F(0.5));
    let missing = AggregatorBuilder::<F>::new().add_named_task("absent").link(&tree).build();
    assert!(matches!(
        missing,
        Err(BuildError { builder: BuilderKind::Aggregator, field: Field::Source, .. })
    ));
}
