//! A generic two-dimensional coordinate with componentwise arithmetic and
//! conversions from scalars, pairs, arrays and vectors.
mod arith;
mod convert;
mod coord;
mod laws;

pub use coord::Coord;

pub use laws::{
    operations_are_componentwise, pair_and_array_agree, scalar_operand_broadcasts, vec_converts_iff_pair,
};
