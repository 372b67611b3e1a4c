//! The elementwise-combine operator.  It adds two raster streams: each
//! element of the second stream is promoted to the first stream's element
//! type and added, wrapping at that type's bounds.  Where the second stream
//! is shorter, the first stream's remaining elements pass unchanged.

use vstd::pervasive::VecAdditionalExecFns;
use vstd::prelude::*;

use crate::error::EngineError;
use crate::meta_raster_operator::{MetaRasterOperator, RasterWants};
use crate::operator_creation;
use crate::primitives::Raster;
use crate::raster_type::{Promote, RasterType, StaticRasterType};
use crate::source::{
    CreateBinaryOperator, CreateBoxedBinaryOperatorInplace, Query, RasterOperatorU16,
    RasterOperatorU8, RasterSource, Source,
};

verus! {

/// Combines two raster sources by elementwise addition.
#[derive(Debug)]
pub struct AddRasterOperator<S1, S2> {
    pub source: (S1, S2),
}

/// The elementwise sum of two streams: each element of `b` is promoted to
/// `a`'s element type and added to the matching element of `a`, wrapping at
/// the bounds; past `b`'s end the elements of `a` pass unchanged.
pub open spec fn spec_add_seq<T1: StaticRasterType, T2: Promote<T1>>(
    a: Seq<T1>,
    b: Seq<T2>,
) -> Seq<T1> {
    Seq::new(
        a.len(),
        |i: int|
            if i < b.len() {
                a[i].spec_add_element(b[i].spec_promote())
            } else {
                a[i]
            },
    )
}

/// Adds a raster's elements into another raster in place, promoting each
/// element first.
pub fn raster_add<T1: StaticRasterType, T2: Promote<T1>>(a: &mut Raster<T1>, b: &Raster<T2>)
    ensures
        final(a).v@ == spec_add_seq(old(a).v@, b.v@),
{
    let len = a.v.len();
    let mut i: usize = 0;
    while i < len
        invariant
            i <= len,
            old(a).v@.len() == len,
            a.v@.len() == len,
            forall|j: int|
                0 <= j < i ==> a.v@[j] == spec_add_seq(old(a).v@, b.v@)[j],
            forall|j: int| i <= j < len ==> a.v@[j] == old(a).v@[j],
        decreases len - i,
    {
        if i < b.v.len() {
            let e = a.v[i].add_element(b.v[i].promote());
            a.v.set(i, e);
        }
        i = i + 1;
    }
    proof {
        assert(a.v@ =~= spec_add_seq(old(a).v@, b.v@));
    }
}

/// Combine over raster data: the elementwise sum of the two children's
/// streams, in the first child's element type.
impl<S1: RasterSource, S2: RasterSource> RasterSource for AddRasterOperator<
    S1,
    S2,
> where S1::RasterType: StaticRasterType, S2::RasterType: Promote<S1::RasterType> {
    type RasterType = S1::RasterType;

    open spec fn spec_raster_query(&self, query: Query) -> Seq<S1::RasterType> {
        spec_add_seq(
            self.source.0.spec_raster_query(query),
            self.source.1.spec_raster_query(query),
        )
    }

    fn raster_query(&self, query: Query) -> (r: Raster<S1::RasterType>)
        ensures
            r.v@ == self.spec_raster_query(query),
    {
        let mut r1 = self.source.0.raster_query(query);
        let r2 = self.source.1.raster_query(query);
        raster_add(&mut r1, &r2);
        r1
    }
}

/// It is a source producing combined rasters.
impl<S1: RasterSource, S2: RasterSource> Source for AddRasterOperator<
    S1,
    S2,
> where S1::RasterType: StaticRasterType, S2::RasterType: Promote<S1::RasterType> {
    type Output = Raster<S1::RasterType>;

    open spec fn spec_query_post(&self, query: Query, r: Raster<S1::RasterType>) -> bool {
        r.v@ == self.spec_raster_query(query)
    }

    fn query(&self, query: Query) -> (r: Raster<S1::RasterType>)
        ensures
            self.spec_query_post(query, r),
    {
        self.raster_query(query)
    }
}

/// The declarative description of a combine stage: only its child
/// descriptions.
#[derive(Debug, PartialEq)]
pub struct MetaAddRasterOperator {
    pub sources: Vec<MetaRasterOperator>,
}

/// The combine stage wraps two resolved pipelines and adds their streams
/// elementwise, promoting the second stream's elements.
impl CreateBoxedBinaryOperatorInplace<String> for MetaAddRasterOperator {
    open spec fn spec_binary_stream_u8(a: Seq<u8>, b: Seq<u8>) -> Seq<u8> {
        spec_add_seq(a, b)
    }

    open spec fn spec_binary_stream_u16(a: Seq<u16>, b: Seq<u16>) -> Seq<u16> {
        spec_add_seq(a, b)
    }

    open spec fn spec_binary_stream_u16_u8(a: Seq<u16>, b: Seq<u8>) -> Seq<u16> {
        spec_add_seq(a, b)
    }

    fn create_binary_boxed_u8(
        source_a: RasterOperatorU8,
        source_b: RasterOperatorU8,
        _params: String,
    ) -> (r: RasterOperatorU8) {
        RasterOperatorU8::Add(
            AddRasterOperator { source: (Box::new(source_a), Box::new(source_b)) },
        )
    }

    fn create_binary_boxed_u16(
        source_a: RasterOperatorU16,
        source_b: RasterOperatorU16,
        _params: String,
    ) -> (r: RasterOperatorU16) {
        RasterOperatorU16::AddU16(
            AddRasterOperator { source: (Box::new(source_a), Box::new(source_b)) },
        )
    }

    fn create_binary_boxed_u16_u8(
        source_a: RasterOperatorU16,
        source_b: RasterOperatorU8,
        _params: String,
    ) -> (r: RasterOperatorU16) {
        RasterOperatorU16::AddU8(
            AddRasterOperator { source: (Box::new(source_a), Box::new(source_b)) },
        )
    }
}

impl MetaAddRasterOperator {
    /// A combine has two inputs and accepts any type on each; the pair is
    /// checked against the legal table at resolution.
    pub fn requires_type(&self) -> (r: Vec<RasterWants>)
        ensures
            r@ == seq![RasterWants::Any, RasterWants::Any],
    {
        let mut v: Vec<RasterWants> = Vec::new();
        v.push(RasterWants::Any);
        v.push(RasterWants::Any);
        proof {
            assert(v@ =~= seq![RasterWants::Any, RasterWants::Any]);
        }
        v
    }

    /// The child descriptions.
    pub fn raster_sources(&self) -> (r: &Vec<MetaRasterOperator>)
        ensures
            r == &self.sources,
    {
        &self.sources
    }

    /// The create-for-type operation for `u8`: resolves both children —
    /// child 0 and child 1 independently — and combines their unwrapped
    /// `u8` instances.
    pub fn create_u8_raster_op(&self) -> (r: RasterOperatorU8)
        requires
            MetaRasterOperator::AddRaster(*self).spec_resolved_type() == Ok::<
                RasterType,
                EngineError,
            >(RasterType::U8),
        ensures
            r.spec_stream() == MetaRasterOperator::AddRaster(*self).spec_stream_u8(),
        decreases *self,
    {
        let inst_a = match self.sources[0].create_raster_op() {
            Ok(inst) => inst,
            Err(_) => vstd::pervasive::unreached(),
        };
        let inst_b = match self.sources[1].create_raster_op() {
            Ok(inst) => inst,
            Err(_) => vstd::pervasive::unreached(),
        };
        match operator_creation::create_operator_binary_raster_u8_u8::<Self>(inst_a, inst_b) {
            Ok(op) => op,
            Err(_) => vstd::pervasive::unreached(),
        }
    }

    /// The create-for-type operation for `u16`: resolves both children —
    /// child 0 and child 1 independently — and combines their unwrapped
    /// instances through the commutative dispatch.
    pub fn create_u16_raster_op(&self) -> (r: RasterOperatorU16)
        requires
            MetaRasterOperator::AddRaster(*self).spec_resolved_type() == Ok::<
                RasterType,
                EngineError,
            >(RasterType::U16),
        ensures
            r.spec_stream() == MetaRasterOperator::AddRaster(*self).spec_stream_u16(),
        decreases *self,
    {
        let inst_a = match self.sources[0].create_raster_op() {
            Ok(inst) => inst,
            Err(_) => vstd::pervasive::unreached(),
        };
        let inst_b = match self.sources[1].create_raster_op() {
            Ok(inst) => inst,
            Err(_) => vstd::pervasive::unreached(),
        };
        match operator_creation::create_operator_binary_raster_u16_x_commutativ::<Self>(
            inst_a,
            inst_b,
        ) {
            Ok(op) => op,
            Err(_) => vstd::pervasive::unreached(),
        }
    }
}

/// Combine resolution is commutative in tag selection: dispatching a
/// `U16` child and a `U8` child in either order resolves to the same type
/// and the same stream, built by the same widening rule.
pub proof fn lemma_combine_commutative(
    m1: MetaAddRasterOperator,
    m2: MetaAddRasterOperator,
    x: MetaRasterOperator,
    y: MetaRasterOperator,
)
    requires
        m1.sources@ == seq![x, y],
        m2.sources@ == seq![y, x],
        x.spec_resolved_type() == Ok::<RasterType, EngineError>(RasterType::U16),
        y.spec_resolved_type() == Ok::<RasterType, EngineError>(RasterType::U8),
    ensures
        MetaRasterOperator::AddRaster(m1).spec_resolved_type() == MetaRasterOperator::AddRaster(
            m2,
        ).spec_resolved_type(),
        MetaRasterOperator::AddRaster(m1).spec_resolved_type() == Ok::<RasterType, EngineError>(
            RasterType::U16,
        ),
        MetaRasterOperator::AddRaster(m1).spec_stream_u16() == MetaRasterOperator::AddRaster(
            m2,
        ).spec_stream_u16(),
{
    assert(m1.sources@[0] == x && m1.sources@[1] == y);
    assert(m2.sources@[0] == y && m2.sources@[1] == x);
}

/// A combine node whose observed pair stands outside the legal table —
/// two `U32` children, or two `F64` children, among the rest — fails
/// resolution as an unsupported combination.
pub proof fn lemma_combine_unsupported(
    m: MetaAddRasterOperator,
    t0: RasterType,
    t1: RasterType,
)
    requires
        m.sources@.len() >= 2,
        m.sources@[0].spec_resolved_type() == Ok::<RasterType, EngineError>(t0),
        m.sources@[1].spec_resolved_type() == Ok::<RasterType, EngineError>(t1),
        crate::meta_raster_operator::spec_combine_type(t0, t1) is None,
    ensures
        MetaRasterOperator::AddRaster(m).spec_resolved_type() == Err::<RasterType, EngineError>(
            EngineError::UnsupportedTagCombination,
        ),
{
}

impl<S1, S2> CreateBinaryOperator<S1, S2, String> for AddRasterOperator<S1, S2> {
    open spec fn spec_create(source_a: S1, source_b: S2, params: String) -> Self {
        AddRasterOperator { source: (source_a, source_b) }
    }

    fn create(source_a: S1, source_b: S2, _params: String) -> (r: Self)
        ensures
            r == Self::spec_create(source_a, source_b, _params),
    {
        AddRasterOperator { source: (source_a, source_b) }
    }
}

} // verus!
