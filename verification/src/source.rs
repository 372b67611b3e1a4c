//! Queries and the source traits implemented by every concrete operator,
//! together with the tagged instances produced by resolution.

use vstd::prelude::*;

use crate::add_raster_operator::{spec_add_seq, raster_add, AddRasterOperator};
use crate::gdal_source::GdalSource;
use crate::my_vector_source::{spec_standin_point, MyVectorSource};
use crate::noop_operator::NoOpOperator;
use crate::plus_one_operator::{spec_inc_seq, raster_plus_one, PlusOneOperator};
use crate::primitives::{Point, Raster};
use crate::raster_vector_operator::RasterVectorOperator;

verus! {

/// The query descriptor handed to every source.  It carries no data in this
/// engine; a query only triggers the production of a fresh stream.
#[derive(Debug, Clone, Copy)]
pub struct Query;

/// The most generic source: something that produces an output for a query.
/// Each implementation fixes what the output is through `spec_query_post`.
pub trait Source {
    type Output;

    /// What the produced output looks like, as a predicate over the result.
    spec fn spec_query_post(&self, query: Query, r: Self::Output) -> bool;

    fn query(&self, query: Query) -> (r: Self::Output)
        ensures
            self.spec_query_post(query, r),
    ;
}

/// A source of raster data: it answers a query with a `Raster` whose element
/// stream is pinned down by `spec_raster_query`.
pub trait RasterSource {
    type RasterType;

    /// The element stream this source produces for a query.
    spec fn spec_raster_query(&self, query: Query) -> Seq<Self::RasterType>;

    fn raster_query(&self, query: Query) -> (r: Raster<Self::RasterType>)
        ensures
            r.v@ == self.spec_raster_query(query),
    ;
}

/// A source of vector data: it answers a query with the vector value pinned
/// down by `spec_vector_query`.
pub trait VectorSource {
    type VectorType;

    /// The vector value this source produces for a query.
    spec fn spec_vector_query(&self, query: Query) -> Self::VectorType;

    fn vector_query(&self, query: Query) -> (r: Self::VectorType)
        ensures
            r == self.spec_vector_query(query),
    ;
}

/// Builds a leaf operator from its parameters.
pub trait CreateSourceOperator<P>: Sized {
    /// What the built operator looks like.
    spec fn spec_created(params: P, r: Self) -> bool;

    fn create(params: P) -> (r: Self)
        ensures
            Self::spec_created(params, r),
    ;
}

/// Builds a unary operator around a source.
pub trait CreateUnaryOperator<S, P>: Sized {
    /// The operator built around the source.
    spec fn spec_create(source: S, params: P) -> Self;

    fn create(source: S, params: P) -> (r: Self)
        ensures
            r == Self::spec_create(source, params),
    ;
}

/// Builds a binary operator around two sources.
pub trait CreateBinaryOperator<S1, S2, P>: Sized {
    /// The operator built around the two sources.
    spec fn spec_create(source_a: S1, source_b: S2, params: P) -> Self;

    fn create(source_a: S1, source_b: S2, params: P) -> (r: Self)
        ensures
            r == Self::spec_create(source_a, source_b, params),
    ;
}

/// A factory wrapping an already-resolved raster pipeline in a unary
/// stage, one operation per supported tag.  The two spec functions fix how
/// the wrapped stage transforms its child's stream.
pub trait CreateBoxedUnaryOperator<P> {
    /// The transformation the stage applies to a `u8` child stream.
    spec fn spec_unary_stream_u8(child: Seq<u8>) -> Seq<u8>;

    /// The transformation the stage applies to a `u16` child stream.
    spec fn spec_unary_stream_u16(child: Seq<u16>) -> Seq<u16>;

    fn create_unary_boxed_u8(source: RasterOperatorU8, params: P) -> (r: RasterOperatorU8)
        ensures
            r.spec_stream() == Self::spec_unary_stream_u8(source.spec_stream()),
    ;

    fn create_unary_boxed_u16(source: RasterOperatorU16, params: P) -> (r: RasterOperatorU16)
        ensures
            r.spec_stream() == Self::spec_unary_stream_u16(source.spec_stream()),
    ;
}

/// A factory wrapping two already-resolved raster pipelines in a binary
/// stage, one operation per legal tag pair.  The spec functions fix how the
/// stage combines its children's streams.
pub trait CreateBoxedBinaryOperatorInplace<P> {
    /// How the stage combines two `u8` child streams.
    spec fn spec_binary_stream_u8(a: Seq<u8>, b: Seq<u8>) -> Seq<u8>;

    /// How the stage combines two `u16` child streams.
    spec fn spec_binary_stream_u16(a: Seq<u16>, b: Seq<u16>) -> Seq<u16>;

    /// How the stage combines a `u16` child stream with a promoted `u8`
    /// child stream.
    spec fn spec_binary_stream_u16_u8(a: Seq<u16>, b: Seq<u8>) -> Seq<u16>;

    fn create_binary_boxed_u8(
        source_a: RasterOperatorU8,
        source_b: RasterOperatorU8,
        params: P,
    ) -> (r: RasterOperatorU8)
        ensures
            r.spec_stream() == Self::spec_binary_stream_u8(
                source_a.spec_stream(),
                source_b.spec_stream(),
            ),
    ;

    fn create_binary_boxed_u16(
        source_a: RasterOperatorU16,
        source_b: RasterOperatorU16,
        params: P,
    ) -> (r: RasterOperatorU16)
        ensures
            r.spec_stream() == Self::spec_binary_stream_u16(
                source_a.spec_stream(),
                source_b.spec_stream(),
            ),
    ;

    fn create_binary_boxed_u16_u8(
        source_a: RasterOperatorU16,
        source_b: RasterOperatorU8,
        params: P,
    ) -> (r: RasterOperatorU16)
        ensures
            r.spec_stream() == Self::spec_binary_stream_u16_u8(
                source_a.spec_stream(),
                source_b.spec_stream(),
            ),
    ;
}

/// A concrete operator tree producing `u8` rasters, built by resolution.
#[derive(Debug)]
pub enum RasterOperatorU8 {
    Gdal(GdalSource<u8>),
    Noop(NoOpOperator<Box<RasterOperatorU8>>),
    PlusOne(PlusOneOperator<Box<RasterOperatorU8>>),
    Add(AddRasterOperator<Box<RasterOperatorU8>, Box<RasterOperatorU8>>),
}

impl RasterOperatorU8 {
    /// The stream this operator tree produces for any query.
    pub open spec fn spec_stream(self) -> Seq<u8>
        decreases self,
    {
        match self {
            RasterOperatorU8::Gdal(g) => g.elements@,
            RasterOperatorU8::Noop(op) => op.source.spec_stream(),
            RasterOperatorU8::PlusOne(op) => spec_inc_seq(op.source.spec_stream()),
            RasterOperatorU8::Add(op) => spec_add_seq(
                op.source.0.spec_stream(),
                op.source.1.spec_stream(),
            ),
        }
    }

    /// Answers a query with the tree's stream, built fresh on every call.
    pub fn raster_query(&self, query: Query) -> (r: Raster<u8>)
        ensures
            r.v@ == self.spec_stream(),
        decreases *self,
    {
        match self {
            RasterOperatorU8::Gdal(g) => g.raster_query(query),
            RasterOperatorU8::Noop(op) => op.source.raster_query(query),
            RasterOperatorU8::PlusOne(op) => {
                let mut r = op.source.raster_query(query);
                raster_plus_one(&mut r);
                r
            },
            RasterOperatorU8::Add(op) => {
                let mut r1 = op.source.0.raster_query(query);
                let r2 = op.source.1.raster_query(query);
                raster_add(&mut r1, &r2);
                r1
            },
        }
    }
}

/// A concrete operator tree producing `u16` rasters, built by resolution.
/// The combine stage exists in two specializations: over two `u16` children
/// and over a `u16` and a promoted `u8` child.
#[derive(Debug)]
pub enum RasterOperatorU16 {
    Gdal(GdalSource<u16>),
    Noop(NoOpOperator<Box<RasterOperatorU16>>),
    PlusOne(PlusOneOperator<Box<RasterOperatorU16>>),
    AddU16(AddRasterOperator<Box<RasterOperatorU16>, Box<RasterOperatorU16>>),
    AddU8(AddRasterOperator<Box<RasterOperatorU16>, Box<RasterOperatorU8>>),
}

impl RasterOperatorU16 {
    /// The stream this operator tree produces for any query.
    pub open spec fn spec_stream(self) -> Seq<u16>
        decreases self,
    {
        match self {
            RasterOperatorU16::Gdal(g) => g.elements@,
            RasterOperatorU16::Noop(op) => op.source.spec_stream(),
            RasterOperatorU16::PlusOne(op) => spec_inc_seq(op.source.spec_stream()),
            RasterOperatorU16::AddU16(op) => spec_add_seq(
                op.source.0.spec_stream(),
                op.source.1.spec_stream(),
            ),
            RasterOperatorU16::AddU8(op) => spec_add_seq(
                op.source.0.spec_stream(),
                op.source.1.spec_stream(),
            ),
        }
    }

    /// Answers a query with the tree's stream, built fresh on every call.
    pub fn raster_query(&self, query: Query) -> (r: Raster<u16>)
        ensures
            r.v@ == self.spec_stream(),
        decreases *self,
    {
        match self {
            RasterOperatorU16::Gdal(g) => g.raster_query(query),
            RasterOperatorU16::Noop(op) => op.source.raster_query(query),
            RasterOperatorU16::PlusOne(op) => {
                let mut r = op.source.raster_query(query);
                raster_plus_one(&mut r);
                r
            },
            RasterOperatorU16::AddU16(op) => {
                let mut r1 = op.source.0.raster_query(query);
                let r2 = op.source.1.raster_query(query);
                raster_add(&mut r1, &r2);
                r1
            },
            RasterOperatorU16::AddU8(op) => {
                let mut r1 = op.source.0.raster_query(query);
                let r2 = op.source.1.raster_query(query);
                raster_add(&mut r1, &r2);
                r1
            },
        }
    }
}

/// A concrete operator tree producing point data, built by resolution.  The
/// join stage exists once per raster tag it accepts.
#[derive(Debug)]
pub enum PointOperator {
    MyVector(MyVectorSource<Point>),
    RasterVectorU8(RasterVectorOperator<RasterOperatorU8, Box<PointOperator>>),
    RasterVectorU16(RasterVectorOperator<RasterOperatorU16, Box<PointOperator>>),
}

impl PointOperator {
    /// The point this operator tree produces for any query.
    pub open spec fn spec_point(self) -> Point
        decreases self,
    {
        match self {
            PointOperator::MyVector(s) => spec_standin_point(),
            PointOperator::RasterVectorU8(op) => op.sources.1.spec_point(),
            PointOperator::RasterVectorU16(op) => op.sources.1.spec_point(),
        }
    }

    /// Answers a query with the tree's point.  The raster side is queried
    /// for its side effects; the vector side's value is returned unchanged.
    pub fn vector_query(&self, query: Query) -> (r: Point)
        ensures
            r == self.spec_point(),
        decreases *self,
    {
        match self {
            PointOperator::MyVector(s) => s.vector_query(query),
            PointOperator::RasterVectorU8(op) => {
                let _prefetch = op.sources.0.raster_query(query);
                op.sources.1.vector_query(query)
            },
            PointOperator::RasterVectorU16(op) => {
                let _prefetch = op.sources.0.raster_query(query);
                op.sources.1.vector_query(query)
            },
        }
    }
}

/// Queries are deterministic: any two `u8` rasters a pipeline's query
/// contract admits hold bit-identical streams, since both equal the
/// pipeline's one stream.
pub proof fn lemma_query_deterministic_u8(op: RasterOperatorU8, r1: Raster<u8>, r2: Raster<u8>)
    requires
        r1.v@ == op.spec_stream(),
        r2.v@ == op.spec_stream(),
    ensures
        r1.v@ == r2.v@,
{
}

/// Queries are deterministic: any two `u16` rasters a pipeline's query
/// contract admits hold bit-identical streams.
pub proof fn lemma_query_deterministic_u16(op: RasterOperatorU16, r1: Raster<u16>, r2: Raster<u16>)
    requires
        r1.v@ == op.spec_stream(),
        r2.v@ == op.spec_stream(),
    ensures
        r1.v@ == r2.v@,
{
}

/// A resolved raster pipeline wrapped with the tag it was built for: the
/// tagged instance handed back by resolution, consumed exactly once by
/// unwrapping it against the expected tag.
///
/// The two float tags can be declared and resolved — a combine node rejects
/// them through its pair table — but their element streams lie outside this
/// core, so their variants carry no queryable tree.
#[derive(Debug)]
pub enum BoxedRasterOperatorInstance {
    U8(RasterOperatorU8),
    U16(RasterOperatorU16),
    U32(GdalSource<u32>),
    U64(GdalSource<u64>),
    I16(GdalSource<i16>),
    I32(GdalSource<i32>),
    I64(GdalSource<i64>),
    F32,
    F64,
}

/// A resolved vector pipeline wrapped with its collection type.  Points are
/// the one vector representation, so there is exactly one variant.
#[derive(Debug)]
pub enum BoxedVectorOperatorInstance {
    Points(PointOperator),
}

impl BoxedRasterOperatorInstance {
    /// The tag of the variant this instance holds.
    pub open spec fn spec_tag(self) -> crate::raster_type::RasterType {
        match self {
            BoxedRasterOperatorInstance::U8(_) => crate::raster_type::RasterType::U8,
            BoxedRasterOperatorInstance::U16(_) => crate::raster_type::RasterType::U16,
            BoxedRasterOperatorInstance::U32(_) => crate::raster_type::RasterType::U32,
            BoxedRasterOperatorInstance::U64(_) => crate::raster_type::RasterType::U64,
            BoxedRasterOperatorInstance::I16(_) => crate::raster_type::RasterType::I16,
            BoxedRasterOperatorInstance::I32(_) => crate::raster_type::RasterType::I32,
            BoxedRasterOperatorInstance::I64(_) => crate::raster_type::RasterType::I64,
            BoxedRasterOperatorInstance::F32 => crate::raster_type::RasterType::F32,
            BoxedRasterOperatorInstance::F64 => crate::raster_type::RasterType::F64,
        }
    }

    /// The held `u8` pipeline, if that is the variant.
    pub open spec fn spec_as_u8(self) -> Option<RasterOperatorU8> {
        match self {
            BoxedRasterOperatorInstance::U8(op) => Some(op),
            _ => None,
        }
    }

    /// Unwraps into the `u8` pipeline; any other held variant is a tag
    /// mismatch and yields nothing.  Unwrapping consumes the instance.
    pub fn get_u8(self) -> (r: Option<RasterOperatorU8>)
        ensures
            r == self.spec_as_u8(),
    {
        match self {
            BoxedRasterOperatorInstance::U8(op) => Some(op),
            _ => None,
        }
    }

    /// The held `u16` pipeline, if that is the variant.
    pub open spec fn spec_as_u16(self) -> Option<RasterOperatorU16> {
        match self {
            BoxedRasterOperatorInstance::U16(op) => Some(op),
            _ => None,
        }
    }

    /// Unwraps into the `u16` pipeline; any other held variant is a tag
    /// mismatch and yields nothing.  Unwrapping consumes the instance.
    pub fn get_u16(self) -> (r: Option<RasterOperatorU16>)
        ensures
            r == self.spec_as_u16(),
    {
        match self {
            BoxedRasterOperatorInstance::U16(op) => Some(op),
            _ => None,
        }
    }

    /// Unwrapping never coerces: a tagged instance unwraps into a pipeline
    /// exactly when the asked-for tag is the tag of its held variant, and
    /// a mismatch yields nothing.
    pub proof fn lemma_unwrap_against_tag(self)
        ensures
            self.spec_as_u8() is Some <==> self.spec_tag()
                == crate::raster_type::RasterType::U8,
            self.spec_as_u16() is Some <==> self.spec_tag()
                == crate::raster_type::RasterType::U16,
    {
    }

    /// The held `u32` leaf, if that is the variant.
    pub open spec fn spec_as_u32(self) -> Option<GdalSource<u32>> {
        match self {
            BoxedRasterOperatorInstance::U32(op) => Some(op),
            _ => None,
        }
    }

    /// Unwraps into the `u32` leaf source.  Unwrapping consumes the
    /// instance.
    pub fn get_u32(self) -> (r: Option<GdalSource<u32>>)
        ensures
            r == self.spec_as_u32(),
    {
        match self {
            BoxedRasterOperatorInstance::U32(op) => Some(op),
            _ => None,
        }
    }

    /// The held `u64` leaf, if that is the variant.
    pub open spec fn spec_as_u64(self) -> Option<GdalSource<u64>> {
        match self {
            BoxedRasterOperatorInstance::U64(op) => Some(op),
            _ => None,
        }
    }

    /// Unwraps into the `u64` leaf source.  Unwrapping consumes the
    /// instance.
    pub fn get_u64(self) -> (r: Option<GdalSource<u64>>)
        ensures
            r == self.spec_as_u64(),
    {
        match self {
            BoxedRasterOperatorInstance::U64(op) => Some(op),
            _ => None,
        }
    }

    /// The held `i16` leaf, if that is the variant.
    pub open spec fn spec_as_i16(self) -> Option<GdalSource<i16>> {
        match self {
            BoxedRasterOperatorInstance::I16(op) => Some(op),
            _ => None,
        }
    }

    /// Unwraps into the `i16` leaf source.  Unwrapping consumes the
    /// instance.
    pub fn get_i16(self) -> (r: Option<GdalSource<i16>>)
        ensures
            r == self.spec_as_i16(),
    {
        match self {
            BoxedRasterOperatorInstance::I16(op) => Some(op),
            _ => None,
        }
    }

    /// The held `i32` leaf, if that is the variant.
    pub open spec fn spec_as_i32(self) -> Option<GdalSource<i32>> {
        match self {
            BoxedRasterOperatorInstance::I32(op) => Some(op),
            _ => None,
        }
    }

    /// Unwraps into the `i32` leaf source.  Unwrapping consumes the
    /// instance.
    pub fn get_i32(self) -> (r: Option<GdalSource<i32>>)
        ensures
            r == self.spec_as_i32(),
    {
        match self {
            BoxedRasterOperatorInstance::I32(op) => Some(op),
            _ => None,
        }
    }

    /// The held `i64` leaf, if that is the variant.
    pub open spec fn spec_as_i64(self) -> Option<GdalSource<i64>> {
        match self {
            BoxedRasterOperatorInstance::I64(op) => Some(op),
            _ => None,
        }
    }

    /// Unwraps into the `i64` leaf source.  Unwrapping consumes the
    /// instance.
    pub fn get_i64(self) -> (r: Option<GdalSource<i64>>)
        ensures
            r == self.spec_as_i64(),
    {
        match self {
            BoxedRasterOperatorInstance::I64(op) => Some(op),
            _ => None,
        }
    }
}

} // verus!
