//! A subgraph is an operator with sources that can be looked at.

use vstd::prelude::*;

use crate::add_raster_operator::AddRasterOperator;
use crate::noop_operator::NoOpOperator;
use crate::plus_one_operator::PlusOneOperator;
use crate::raster_vector_operator::RasterVectorOperator;
use crate::source::Source;

verus! {

/// Something with sources.
pub trait Subgraph {
    type Sources;

    /// The sources, as a value.
    spec fn spec_sources(self) -> Self::Sources;

    fn sources(&self) -> (r: &Self::Sources)
        ensures
            *r == self.spec_sources(),
    ;
}

impl<R: Source, V: Source> Subgraph for RasterVectorOperator<R, V> {
    type Sources = (R, V);

    open spec fn spec_sources(self) -> (R, V) {
        self.sources
    }

    fn sources(&self) -> (r: &(R, V))
        ensures
            *r == self.spec_sources(),
    {
        &self.sources
    }
}

impl<S: Source> Subgraph for NoOpOperator<S> {
    type Sources = S;

    open spec fn spec_sources(self) -> S {
        self.source
    }

    fn sources(&self) -> (r: &S)
        ensures
            *r == self.spec_sources(),
    {
        &self.source
    }
}

impl<S: Source> Subgraph for PlusOneOperator<S> {
    type Sources = S;

    open spec fn spec_sources(self) -> S {
        self.source
    }

    fn sources(&self) -> (r: &S)
        ensures
            *r == self.spec_sources(),
    {
        &self.source
    }
}

impl<S1: Source, S2: Source> Subgraph for AddRasterOperator<S1, S2> {
    type Sources = (S1, S2);

    open spec fn spec_sources(self) -> (S1, S2) {
        self.source
    }

    fn sources(&self) -> (r: &(S1, S2))
        ensures
            *r == self.spec_sources(),
    {
        &self.source
    }
}

} // verus!
