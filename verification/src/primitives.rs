//! The primitive data containers flowing through a pipeline.

use vstd::prelude::*;

verus! {

/// A raster: an ordered, fixed-length stream of elements of one primitive
/// type, produced fresh on every query.
#[derive(Debug, Clone)]
pub struct Raster<T> {
    pub v: Vec<T>,
}

/// A point, the one vector-data representation of this engine.  Coordinates
/// are kept as plain integers.
#[derive(Debug, Clone, Copy, PartialEq, Eq, Structural)]
pub struct Point {
    pub a: i64,
    pub b: i64,
}

/// A trait for vector data.
pub trait VectorData {
}

/// A `Point` is a vector-data format.
impl VectorData for Point {
}

} // verus!
