//! The increment operator.  It adds one — the element type's additive unit —
//! to every element of its child's stream, wrapping at the type's bounds.

use vstd::pervasive::VecAdditionalExecFns;
use vstd::prelude::*;

use crate::error::EngineError;
use crate::meta_raster_operator::{MetaRasterOperator, RasterWants};
use crate::operator_creation;
use crate::primitives::Raster;
use crate::raster_type::{RasterType, StaticRasterType};
use crate::source::{
    CreateBoxedUnaryOperator, CreateUnaryOperator, Query, RasterOperatorU16, RasterOperatorU8,
    RasterSource, Source,
};

verus! {

/// Wraps a raster source and increments every element of its stream.
#[derive(Debug, Clone)]
pub struct PlusOneOperator<S> {
    pub source: S,
}

/// The stream with every element increased by one, wrapping at the element
/// type's bounds.
pub open spec fn spec_inc_seq<T: StaticRasterType>(s: Seq<T>) -> Seq<T> {
    Seq::new(s.len(), |i: int| s[i].spec_inc())
}

/// Increments every element of a raster in place.
pub fn raster_plus_one<T: StaticRasterType>(r: &mut Raster<T>)
    ensures
        final(r).v@ == spec_inc_seq(old(r).v@),
{
    let len = r.v.len();
    let mut i: usize = 0;
    while i < len
        invariant
            i <= len,
            r.v@.len() == len,
            forall|j: int| 0 <= j < i ==> r.v@[j] == old(r).v@[j].spec_inc(),
            forall|j: int| i <= j < len ==> r.v@[j] == old(r).v@[j],
        decreases len - i,
    {
        let e = r.v[i].inc();
        r.v.set(i, e);
        i = i + 1;
    }
    proof {
        assert(r.v@ =~= spec_inc_seq(old(r).v@));
    }
}

/// Increment over raster data: the child's stream with one added to every
/// element.
impl<S: RasterSource> RasterSource for PlusOneOperator<S> where S::RasterType: StaticRasterType {
    type RasterType = S::RasterType;

    open spec fn spec_raster_query(&self, query: Query) -> Seq<S::RasterType> {
        spec_inc_seq(self.source.spec_raster_query(query))
    }

    fn raster_query(&self, query: Query) -> (r: Raster<S::RasterType>)
        ensures
            r.v@ == self.spec_raster_query(query),
    {
        let mut r = self.source.raster_query(query);
        raster_plus_one(&mut r);
        r
    }
}

/// It is a source producing incremented rasters.
impl<S: RasterSource> Source for PlusOneOperator<S> where S::RasterType: StaticRasterType {
    type Output = Raster<S::RasterType>;

    open spec fn spec_query_post(&self, query: Query, r: Raster<S::RasterType>) -> bool {
        r.v@ == self.spec_raster_query(query)
    }

    fn query(&self, query: Query) -> (r: Raster<S::RasterType>)
        ensures
            self.spec_query_post(query, r),
    {
        self.raster_query(query)
    }
}

/// The declarative description of an increment stage: only its child
/// descriptions.
#[derive(Debug, PartialEq)]
pub struct MetaPlusOneOperator {
    pub sources: Vec<MetaRasterOperator>,
}

/// The increment stage wraps a resolved pipeline and adds one to every
/// stream element.
impl CreateBoxedUnaryOperator<String> for MetaPlusOneOperator {
    open spec fn spec_unary_stream_u8(child: Seq<u8>) -> Seq<u8> {
        spec_inc_seq(child)
    }

    open spec fn spec_unary_stream_u16(child: Seq<u16>) -> Seq<u16> {
        spec_inc_seq(child)
    }

    fn create_unary_boxed_u8(source: RasterOperatorU8, _params: String) -> (r: RasterOperatorU8) {
        RasterOperatorU8::PlusOne(PlusOneOperator { source: Box::new(source) })
    }

    fn create_unary_boxed_u16(source: RasterOperatorU16, _params: String) -> (r:
        RasterOperatorU16) {
        RasterOperatorU16::PlusOne(PlusOneOperator { source: Box::new(source) })
    }
}

impl MetaPlusOneOperator {
    /// An increment has one input and accepts any type there.
    pub fn requires_type(&self) -> (r: Vec<RasterWants>)
        ensures
            r@ == seq![RasterWants::Any],
    {
        let mut v: Vec<RasterWants> = Vec::new();
        v.push(RasterWants::Any);
        proof {
            assert(v@ =~= seq![RasterWants::Any]);
        }
        v
    }

    /// The child descriptions.
    pub fn raster_sources(&self) -> (r: &Vec<MetaRasterOperator>)
        ensures
            r == &self.sources,
    {
        &self.sources
    }

    /// The create-for-type operation for `u8`: resolves the child and wraps
    /// its unwrapped instance in an increment stage.
    pub fn create_u8_raster_op(&self) -> (r: RasterOperatorU8)
        requires
            MetaRasterOperator::PlusOne(*self).spec_resolved_type() == Ok::<
                RasterType,
                EngineError,
            >(RasterType::U8),
        ensures
            r.spec_stream() == MetaRasterOperator::PlusOne(*self).spec_stream_u8(),
        decreases *self,
    {
        let inst = match self.sources[0].create_raster_op() {
            Ok(inst) => inst,
            Err(_) => vstd::pervasive::unreached(),
        };
        match operator_creation::create_operator_unary_raster_u8::<Self>(inst) {
            Ok(op) => op,
            Err(_) => vstd::pervasive::unreached(),
        }
    }

    /// The create-for-type operation for `u16`: resolves the child and
    /// wraps its unwrapped instance in an increment stage.
    pub fn create_u16_raster_op(&self) -> (r: RasterOperatorU16)
        requires
            MetaRasterOperator::PlusOne(*self).spec_resolved_type() == Ok::<
                RasterType,
                EngineError,
            >(RasterType::U16),
        ensures
            r.spec_stream() == MetaRasterOperator::PlusOne(*self).spec_stream_u16(),
        decreases *self,
    {
        let inst = match self.sources[0].create_raster_op() {
            Ok(inst) => inst,
            Err(_) => vstd::pervasive::unreached(),
        };
        match operator_creation::create_operator_unary_raster_u16::<Self>(inst) {
            Ok(op) => op,
            Err(_) => vstd::pervasive::unreached(),
        }
    }
}

/// Increment resolution adds exactly one to every `u8` element that is
/// not at the type's bound; at the bound the sum wraps.
pub proof fn lemma_plus_one_adds_one_u8(m: MetaPlusOneOperator, i: int)
    requires
        m.sources@.len() >= 1,
        0 <= i < m.sources@[0].spec_stream_u8().len(),
    ensures
        MetaRasterOperator::PlusOne(m).spec_stream_u8().len() == m.sources@[0].spec_stream_u8().len(),
        m.sources@[0].spec_stream_u8()[i] < u8::MAX ==> MetaRasterOperator::PlusOne(
            m,
        ).spec_stream_u8()[i] == m.sources@[0].spec_stream_u8()[i] + 1,
{
}

/// Increment resolution adds exactly one to every `u16` element that is
/// not at the type's bound; at the bound the sum wraps.
pub proof fn lemma_plus_one_adds_one_u16(m: MetaPlusOneOperator, i: int)
    requires
        m.sources@.len() >= 1,
        0 <= i < m.sources@[0].spec_stream_u16().len(),
    ensures
        MetaRasterOperator::PlusOne(m).spec_stream_u16().len() == m.sources@[0].spec_stream_u16().len(),
        m.sources@[0].spec_stream_u16()[i] < u16::MAX ==> MetaRasterOperator::PlusOne(
            m,
        ).spec_stream_u16()[i] == m.sources@[0].spec_stream_u16()[i] + 1,
{
}

impl<S> CreateUnaryOperator<S, String> for PlusOneOperator<S> {
    open spec fn spec_create(source: S, params: String) -> Self {
        PlusOneOperator { source }
    }

    fn create(source: S, _params: String) -> (r: Self)
        ensures
            r == Self::spec_create(source, _params),
    {
        PlusOneOperator { source }
    }
}

} // verus!
