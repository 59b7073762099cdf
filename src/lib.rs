//! Composable scalar noise: primitive generators (Perlin, cellular, linear
//! gradient), fractal octave combinators and a graph of named combinator
//! nodes built in dependency order.
pub mod float;
pub mod math;
pub mod rng;
pub mod task;
pub mod tree;
pub mod builder;
pub mod cellular;
pub mod config;
pub mod sort;
pub mod source;
pub mod fractal;
