//! Chaining helpers: every source gains builder methods that wrap it in
//! further operators.

use vstd::prelude::*;

use crate::add_raster_operator::AddRasterOperator;
use crate::noop_operator::NoOpOperator;
use crate::plus_one_operator::PlusOneOperator;
use crate::raster_vector_operator::RasterVectorOperator;
use crate::source::{RasterSource, VectorSource};

verus! {

/// Chaining helpers for vector sources.
pub trait VectorOperatorExt: Sized {
    /// Wraps this operator in a pass-through stage.
    fn noop(self) -> (r: NoOpOperator<Self>)
        ensures
            r == (NoOpOperator { source: self }),
    {
        NoOpOperator { source: self }
    }

    /// Joins this vector operator with a raster operator; the join returns
    /// this operator's data.
    fn add_raster_values<R>(self, raster: R) -> (r: RasterVectorOperator<R, Self>)
        ensures
            r == (RasterVectorOperator { sources: (raster, self) }),
    {
        RasterVectorOperator { sources: (raster, self) }
    }

    /// Boxes this operator.
    fn boxed_vector(self) -> (r: Box<Self>)
        ensures
            r == self,
    {
        Box::new(self)
    }
}

/// Every vector source can be chained.
impl<S: VectorSource> VectorOperatorExt for S {

}

/// Chaining helpers for raster sources.
pub trait RasterOperatorExt: Sized {
    /// Wraps this operator in a pass-through stage.
    fn noop(self) -> (r: NoOpOperator<Self>)
        ensures
            r == (NoOpOperator { source: self }),
    {
        NoOpOperator { source: self }
    }

    /// Wraps this operator in an increment stage.
    fn plus_one(self) -> (r: PlusOneOperator<Self>)
        ensures
            r == (PlusOneOperator { source: self }),
    {
        PlusOneOperator { source: self }
    }

    /// Combines this operator with another raster operator elementwise.
    fn plus_raster<R2>(self, other: R2) -> (r: AddRasterOperator<Self, R2>)
        ensures
            r == (AddRasterOperator { source: (self, other) }),
    {
        AddRasterOperator { source: (self, other) }
    }

    /// Boxes this operator.
    fn boxed_raster(self) -> (r: Box<Self>)
        ensures
            r == self,
    {
        Box::new(self)
    }
}

/// Every raster source can be chained.
impl<S: RasterSource> RasterOperatorExt for S {

}

} // verus!
