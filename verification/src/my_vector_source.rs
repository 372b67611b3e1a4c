//! The leaf vector source.  A stand-in for an external vector-data backend:
//! it serves one fixed point.

use core::marker::PhantomData;
use vstd::prelude::*;

use crate::primitives::Point;
use crate::source::{CreateSourceOperator, PointOperator, Query, Source, VectorSource};

verus! {

/// A leaf source producing vector data of type `V`.
#[derive(Debug)]
pub struct MyVectorSource<V> {
    pub dataset: String,
    pub data: PhantomData<V>,
}

/// The fixed point the stand-in vector source serves.
pub open spec fn spec_standin_point() -> Point {
    Point { a: 12, b: 13 }
}

/// A point-typed `MyVectorSource` answers every query with the stand-in
/// point.
impl VectorSource for MyVectorSource<Point> {
    type VectorType = Point;

    open spec fn spec_vector_query(&self, query: Query) -> Point {
        spec_standin_point()
    }

    fn vector_query(&self, query: Query) -> (r: Point)
        ensures
            r == self.spec_vector_query(query),
    {
        Point { a: 12, b: 13 }
    }
}

/// It is a source producing vector data, so it is also a plain `Source`.
impl Source for MyVectorSource<Point> {
    type Output = Point;

    open spec fn spec_query_post(&self, query: Query, r: Point) -> bool {
        r == self.spec_vector_query(query)
    }

    fn query(&self, query: Query) -> (r: Point)
        ensures
            self.spec_query_post(query, r),
    {
        self.vector_query(query)
    }
}

/// The declarative description of a leaf vector source.  Nothing is
/// persisted for it beyond its discriminator.
#[derive(Debug, Clone, Copy, PartialEq, Eq, Structural)]
pub struct MetaMyVectorSourceOperator {
}

impl MetaMyVectorSourceOperator {
    /// The collection type this node produces.  Points are the one vector
    /// representation, so there is nothing to choose.
    pub fn creates_collection_type(&self) -> () {
        ()
    }

    /// The create operation for points: a stand-in leaf vector source.
    pub fn create_point_op(&self) -> (r: PointOperator)
        ensures
            r.spec_point() == spec_standin_point(),
    {
        PointOperator::MyVector(MyVectorSource { dataset: "dataset".to_owned(), data: PhantomData })
    }
}

impl<V> CreateSourceOperator<String> for MyVectorSource<V> {
    open spec fn spec_created(params: String, r: Self) -> bool {
        r.dataset == params
    }

    fn create(params: String) -> (r: Self)
        ensures
            Self::spec_created(params, r),
    {
        MyVectorSource { dataset: params, data: PhantomData }
    }
}

} // verus!
