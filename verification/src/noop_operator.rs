//! The pass-through operator.  It wraps any source and forwards its output
//! unchanged.

use vstd::prelude::*;

use crate::error::EngineError;
use crate::meta_raster_operator::{MetaRasterOperator, RasterWants};
use crate::primitives::Raster;
use crate::raster_type::RasterType;
use crate::source::{
    CreateUnaryOperator, Query, RasterOperatorU16, RasterOperatorU8, RasterSource, Source,
    VectorSource,
};

verus! {

/// Wraps any source and returns its output unchanged.
#[derive(Debug, Clone)]
pub struct NoOpOperator<S> {
    pub source: S,
}

/// Pass-through over raster data: the child's stream, exactly.
impl<S: RasterSource> RasterSource for NoOpOperator<S> {
    type RasterType = S::RasterType;

    open spec fn spec_raster_query(&self, query: Query) -> Seq<S::RasterType> {
        self.source.spec_raster_query(query)
    }

    fn raster_query(&self, query: Query) -> (r: Raster<S::RasterType>)
        ensures
            r.v@ == self.spec_raster_query(query),
    {
        self.source.raster_query(query)
    }
}

/// Pass-through over vector data: the child's value, exactly.
impl<S: VectorSource> VectorSource for NoOpOperator<S> {
    type VectorType = S::VectorType;

    open spec fn spec_vector_query(&self, query: Query) -> S::VectorType {
        self.source.spec_vector_query(query)
    }

    fn vector_query(&self, query: Query) -> (r: S::VectorType)
        ensures
            r == self.spec_vector_query(query),
    {
        self.source.vector_query(query)
    }
}

/// It works for any source at all.
impl<S: Source> Source for NoOpOperator<S> {
    type Output = S::Output;

    open spec fn spec_query_post(&self, query: Query, r: S::Output) -> bool {
        self.source.spec_query_post(query, r)
    }

    fn query(&self, query: Query) -> (r: S::Output)
        ensures
            self.spec_query_post(query, r),
    {
        self.source.query(query)
    }
}

/// The declarative description of a pass-through stage: only its child
/// descriptions.
#[derive(Debug, PartialEq)]
pub struct MetaNoopOperator {
    pub sources: Vec<MetaRasterOperator>,
}

impl MetaNoopOperator {
    /// A pass-through has one input and accepts any type there.
    pub fn requires_type(&self) -> (r: Vec<RasterWants>)
        ensures
            r@ == seq![RasterWants::Any],
    {
        let mut v: Vec<RasterWants> = Vec::new();
        v.push(RasterWants::Any);
        proof {
            assert(v@ =~= seq![RasterWants::Any]);
        }
        v
    }

    /// The child descriptions.
    pub fn raster_sources(&self) -> (r: &Vec<MetaRasterOperator>)
        ensures
            r == &self.sources,
    {
        &self.sources
    }

    /// The create-for-type operation for `u8`: resolves the child, unwraps
    /// its instance against `u8`, and wraps it in a pass-through stage.
    pub fn create_u8_raster_op(&self) -> (r: RasterOperatorU8)
        requires
            MetaRasterOperator::Noop(*self).spec_resolved_type() == Ok::<
                RasterType,
                EngineError,
            >(RasterType::U8),
        ensures
            r.spec_stream() == MetaRasterOperator::Noop(*self).spec_stream_u8(),
        decreases *self,
    {
        let inst = match self.sources[0].create_raster_op() {
            Ok(inst) => inst,
            Err(_) => vstd::pervasive::unreached(),
        };
        match inst.get_u8() {
            Some(op) => RasterOperatorU8::Noop(NoOpOperator { source: Box::new(op) }),
            None => vstd::pervasive::unreached(),
        }
    }

    /// The create-for-type operation for `u16`: resolves the child, unwraps
    /// its instance against `u16`, and wraps it in a pass-through stage.
    pub fn create_u16_raster_op(&self) -> (r: RasterOperatorU16)
        requires
            MetaRasterOperator::Noop(*self).spec_resolved_type() == Ok::<
                RasterType,
                EngineError,
            >(RasterType::U16),
        ensures
            r.spec_stream() == MetaRasterOperator::Noop(*self).spec_stream_u16(),
        decreases *self,
    {
        let inst = match self.sources[0].create_raster_op() {
            Ok(inst) => inst,
            Err(_) => vstd::pervasive::unreached(),
        };
        match inst.get_u16() {
            Some(op) => RasterOperatorU16::Noop(NoOpOperator { source: Box::new(op) }),
            None => vstd::pervasive::unreached(),
        }
    }
}

/// Pass-through resolution preserves its child exactly: the declarative
/// pass-through node resolves to its child's type for every type the
/// transforms support, and to its child's stream for both of them.
pub proof fn lemma_noop_preserves(m: MetaNoopOperator)
    requires
        m.sources@.len() >= 1,
    ensures
        (m.sources@[0].spec_resolved_type() == Ok::<RasterType, EngineError>(RasterType::U8)
            || m.sources@[0].spec_resolved_type() == Ok::<RasterType, EngineError>(
            RasterType::U16,
        )) ==> MetaRasterOperator::Noop(m).spec_resolved_type() == m.sources@[0].spec_resolved_type(),
        MetaRasterOperator::Noop(m).spec_stream_u8() == m.sources@[0].spec_stream_u8(),
        MetaRasterOperator::Noop(m).spec_stream_u16() == m.sources@[0].spec_stream_u16(),
{
}

impl<S> CreateUnaryOperator<S, String> for NoOpOperator<S> {
    open spec fn spec_create(source: S, params: String) -> Self {
        NoOpOperator { source }
    }

    fn create(source: S, _params: String) -> (r: Self)
        ensures
            r == Self::spec_create(source, _params),
    {
        NoOpOperator { source }
    }
}

} // verus!
