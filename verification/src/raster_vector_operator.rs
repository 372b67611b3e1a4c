//! The raster/vector join operator.  It queries its raster subtree — the
//! backend may prefetch on that side — and returns its vector subtree's
//! result unchanged.

use vstd::prelude::*;

use crate::error::EngineError;
use crate::meta_raster_operator::{MetaRasterOperator, MetaVectorOperator};
use crate::primitives::VectorData;
use crate::source::{
    BoxedRasterOperatorInstance, BoxedVectorOperatorInstance, PointOperator, Query, RasterSource,
    Source, VectorSource,
};

verus! {

/// An operator consuming a raster source and a vector source, producing the
/// vector source's data.
#[derive(Debug)]
pub struct RasterVectorOperator<R, V> {
    pub sources: (R, V),
}

/// The join produces exactly its vector child's value; the raster child is
/// queried only for its side effects.
impl<R: RasterSource, V: VectorSource> VectorSource for RasterVectorOperator<
    R,
    V,
> where V::VectorType: VectorData {
    type VectorType = V::VectorType;

    open spec fn spec_vector_query(&self, query: Query) -> V::VectorType {
        self.sources.1.spec_vector_query(query)
    }

    fn vector_query(&self, query: Query) -> (r: V::VectorType)
        ensures
            r == self.spec_vector_query(query),
    {
        let _prefetch = self.sources.0.raster_query(query);
        self.sources.1.vector_query(query)
    }
}

/// The declarative description of a join stage: its raster child
/// descriptions and its vector child descriptions, in separate lists.
#[derive(Debug, PartialEq)]
pub struct MetaRasterVectorOperator {
    pub raster_sources: Vec<MetaRasterOperator>,
    pub vector_sources: Vec<MetaVectorOperator>,
}

impl MetaRasterVectorOperator {
    /// The raster child descriptions.
    pub fn raster_sources(&self) -> (r: &Vec<MetaRasterOperator>)
        ensures
            r == &self.raster_sources,
    {
        &self.raster_sources
    }

    /// The vector child descriptions.
    pub fn vector_sources(&self) -> (r: &Vec<MetaVectorOperator>)
        ensures
            r == &self.vector_sources,
    {
        &self.vector_sources
    }

    /// The collection type this node produces.  Points are the one vector
    /// representation, so there is nothing to choose.
    pub fn creates_collection_type(&self) -> () {
        ()
    }

    /// The create operation for points: resolves the raster child and the
    /// vector child, then pairs them in the join specialization matching
    /// the raster child's tag.  Only `U8` and `U16` raster children are
    /// supported.
    pub fn create_point_op(&self) -> (r: Result<PointOperator, EngineError>)
        ensures
            match r {
                Ok(p) => MetaVectorOperator::RasterVector(*self).spec_resolved_collection() == Ok::<
                    (),
                    EngineError,
                >(()) && p.spec_point() == MetaVectorOperator::RasterVector(*self).spec_point(),
                Err(e) => MetaVectorOperator::RasterVector(*self).spec_resolved_collection()
                    == Err::<(), EngineError>(e),
            },
        decreases *self, 2int,
    {
        if self.raster_sources.len() < 1 {
            return Err(EngineError::MissingSource);
        }
        let raster_source = match self.raster_sources[0].create_raster_op() {
            Ok(inst) => inst,
            Err(e) => {
                return Err(e);
            },
        };
        if self.vector_sources.len() < 1 {
            return Err(EngineError::MissingSource);
        }
        let vector_source = match self.vector_sources[0].create_vector_op() {
            Ok(inst) => inst,
            Err(e) => {
                return Err(e);
            },
        };
        match (raster_source, vector_source) {
            (
                BoxedRasterOperatorInstance::U8(r),
                BoxedVectorOperatorInstance::Points(p),
            ) => Ok(
                PointOperator::RasterVectorU8(
                    RasterVectorOperator { sources: (r, Box::new(p)) },
                ),
            ),
            (
                BoxedRasterOperatorInstance::U16(r),
                BoxedVectorOperatorInstance::Points(p),
            ) => Ok(
                PointOperator::RasterVectorU16(
                    RasterVectorOperator { sources: (r, Box::new(p)) },
                ),
            ),
            _ => Err(EngineError::UnsupportedTagCombination),
        }
    }
}

/// It is a source producing vector data.
impl<R: RasterSource, V: VectorSource> Source for RasterVectorOperator<
    R,
    V,
> where V::VectorType: VectorData {
    type Output = V::VectorType;

    open spec fn spec_query_post(&self, query: Query, r: V::VectorType) -> bool {
        r == self.spec_vector_query(query)
    }

    fn query(&self, query: Query) -> (r: V::VectorType)
        ensures
            self.spec_query_post(query, r),
    {
        self.vector_query(query)
    }
}

} // verus!
