//! The leaf raster source.  It stands in for an external element provider:
//! the elements it serves are fixed when the source is built, and every
//! query returns them unchanged.

use vstd::prelude::*;

use crate::meta_raster_operator::{RasterCreates, RasterWants};
use crate::primitives::Raster;
use crate::raster_type::{RasterType, StaticRasterType};
use crate::source::{CreateSourceOperator, Query, RasterSource, Source};

verus! {

/// A typed leaf source producing `Raster<T>` data.  `dataset` names the
/// backing data set; `elements` holds the stream the provider serves for it.
#[derive(Debug, Clone)]
pub struct GdalSource<T> {
    pub dataset: String,
    pub elements: Vec<T>,
}

/// The number of elements in the deterministic stand-in stream.
pub const STANDIN_LEN: usize = 4;

/// The stand-in stream: `STANDIN_LEN` default elements.
pub open spec fn spec_standin_elements<T: StaticRasterType>() -> Seq<T> {
    Seq::new(STANDIN_LEN as nat, |i: int| T::spec_default_element())
}

/// Builds the stand-in stream served by sources created from parameters
/// alone.
pub fn standin_elements<T: StaticRasterType>() -> (r: Vec<T>)
    ensures
        r@ == spec_standin_elements::<T>(),
{
    let mut v: Vec<T> = Vec::new();
    let mut i: usize = 0;
    while i < STANDIN_LEN
        invariant
            i <= STANDIN_LEN,
            v@.len() == i,
            forall|j: int| 0 <= j < i ==> v@[j] == T::spec_default_element(),
        decreases STANDIN_LEN - i,
    {
        v.push(T::default_element());
        i = i + 1;
    }
    proof {
        assert(v@ =~= spec_standin_elements::<T>());
    }
    v
}

/// A `GdalSource` answers a query with exactly its stored elements.
impl<T: StaticRasterType> RasterSource for GdalSource<T> {
    type RasterType = T;

    open spec fn spec_raster_query(&self, query: Query) -> Seq<T> {
        self.elements@
    }

    fn raster_query(&self, query: Query) -> (r: Raster<T>)
        ensures
            r.v@ == self.spec_raster_query(query),
    {
        let mut v: Vec<T> = Vec::new();
        let mut i: usize = 0;
        while i < self.elements.len()
            invariant
                i <= self.elements.len(),
                v@ == self.elements@.subrange(0, i as int),
            decreases self.elements.len() - i,
        {
            v.push(self.elements[i]);
            proof {
                assert(v@ =~= self.elements@.subrange(0, i + 1));
            }
            i = i + 1;
        }
        proof {
            assert(v@ =~= self.elements@);
        }
        Raster { v }
    }
}

/// It is a source producing `Raster<T>`, so it is also a plain `Source`.
impl<T: StaticRasterType> Source for GdalSource<T> {
    type Output = Raster<T>;

    open spec fn spec_query_post(&self, query: Query, r: Raster<T>) -> bool {
        r.v@ == self.spec_raster_query(query)
    }

    fn query(&self, query: Query) -> (r: Raster<T>)
        ensures
            self.spec_query_post(query, r),
    {
        self.raster_query(query)
    }
}

/// The declarative description of a leaf source: it carries the raster type
/// the source will produce, and nothing else is persisted for it.
#[derive(Debug, Clone, Copy, PartialEq, Eq, Structural)]
pub struct MetaGdalSource {
    pub raster_type: RasterType,
}

impl MetaGdalSource {
    /// A leaf source produces a fixed concrete type: its declared one.
    pub fn creates_type(&self) -> (r: RasterCreates)
        ensures
            r == RasterCreates::SpecificType(self.raster_type),
    {
        RasterCreates::SpecificType(self.raster_type)
    }

    /// A leaf source has no inputs, so no requirements.
    pub fn requires_type(&self) -> (r: Vec<RasterWants>)
        ensures
            r@ == Seq::<RasterWants>::empty(),
    {
        Vec::new()
    }

    /// The create-for-type operation for `u8`: a stand-in leaf source.
    pub fn create_u8_raster_op(&self) -> (r: GdalSource<u8>)
        ensures
            r.elements@ == spec_standin_elements::<u8>(),
    {
        GdalSource { dataset: "default".to_owned(), elements: standin_elements::<u8>() }
    }

    /// The create-for-type operation for `u16`: a stand-in leaf source.
    pub fn create_u16_raster_op(&self) -> (r: GdalSource<u16>)
        ensures
            r.elements@ == spec_standin_elements::<u16>(),
    {
        GdalSource { dataset: "default".to_owned(), elements: standin_elements::<u16>() }
    }

    /// The create-for-type operation for `u32`: a stand-in leaf source.
    pub fn create_u32_raster_op(&self) -> (r: GdalSource<u32>)
        ensures
            r.elements@ == spec_standin_elements::<u32>(),
    {
        GdalSource { dataset: "default".to_owned(), elements: standin_elements::<u32>() }
    }

    /// The create-for-type operation for `u64`: a stand-in leaf source.
    pub fn create_u64_raster_op(&self) -> (r: GdalSource<u64>)
        ensures
            r.elements@ == spec_standin_elements::<u64>(),
    {
        GdalSource { dataset: "default".to_owned(), elements: standin_elements::<u64>() }
    }

    /// The create-for-type operation for `i16`: a stand-in leaf source.
    pub fn create_i16_raster_op(&self) -> (r: GdalSource<i16>)
        ensures
            r.elements@ == spec_standin_elements::<i16>(),
    {
        GdalSource { dataset: "default".to_owned(), elements: standin_elements::<i16>() }
    }

    /// The create-for-type operation for `i32`: a stand-in leaf source.
    pub fn create_i32_raster_op(&self) -> (r: GdalSource<i32>)
        ensures
            r.elements@ == spec_standin_elements::<i32>(),
    {
        GdalSource { dataset: "default".to_owned(), elements: standin_elements::<i32>() }
    }

    /// The create-for-type operation for `i64`: a stand-in leaf source.
    pub fn create_i64_raster_op(&self) -> (r: GdalSource<i64>)
        ensures
            r.elements@ == spec_standin_elements::<i64>(),
    {
        GdalSource { dataset: "default".to_owned(), elements: standin_elements::<i64>() }
    }
}

impl<T: StaticRasterType> CreateSourceOperator<String> for GdalSource<T> {
    open spec fn spec_created(params: String, r: Self) -> bool {
        r.dataset == params && r.elements@ == spec_standin_elements::<T>()
    }

    fn create(params: String) -> (r: Self)
        ensures
            Self::spec_created(params, r),
    {
        GdalSource { dataset: params, elements: standin_elements::<T>() }
    }
}

} // verus!
