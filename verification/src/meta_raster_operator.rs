//! The declarative layer: serializable descriptions of pipeline stages, and
//! the resolution algorithm that turns a description tree into a concrete,
//! statically typed operator pipeline wrapped as a tagged instance.

use vstd::prelude::*;

use crate::add_raster_operator::{spec_add_seq, MetaAddRasterOperator};
use crate::error::EngineError;
use crate::gdal_source::{spec_standin_elements, MetaGdalSource};
use crate::my_vector_source::{spec_standin_point, MetaMyVectorSourceOperator};
use crate::noop_operator::MetaNoopOperator;
use crate::plus_one_operator::{spec_inc_seq, MetaPlusOneOperator};
use crate::primitives::Point;
use crate::raster_type::RasterType;
use crate::raster_vector_operator::MetaRasterVectorOperator;
use crate::source::{
    BoxedRasterOperatorInstance, BoxedVectorOperatorInstance, PointOperator, RasterOperatorU8,
    RasterOperatorU16,
};

verus! {

/// The rule for the raster type a declarative node produces.  Only the
/// fixed-type rule is exercised by the shipped node kinds; the other rules
/// are reserved.
#[derive(Debug, Clone, Copy, PartialEq, Eq, Structural)]
pub enum RasterCreates {
    /// Upgrades the raster type of the selected source, e.g. `U8 -> U16`.
    UpgradesInput(usize),
    /// Downgrades the raster type of the selected source, e.g. `U16 -> U8`.
    DowngradesInput(usize),
    /// The same type as the selected source.
    SameAsInput(usize),
    /// A fixed concrete type.
    SpecificType(RasterType),
}

/// The constraint a declarative node puts on one of its inputs.
#[derive(Debug, Clone, Copy, PartialEq, Eq, Structural)]
pub enum RasterWants {
    /// Accepts any input.
    Any,
    /// Requires an input of a fixed concrete type.
    ConcreteType(RasterType),
    /// No input.
    NoInput,
}

/// The legal pairs of the combine operator and the type each pair produces:
/// the result is the wider of the two input types, and only the `U8`/`U16`
/// corner of the tower is populated.
pub open spec fn spec_combine_type(a: RasterType, b: RasterType) -> Option<RasterType> {
    match (a, b) {
        (RasterType::U8, RasterType::U8) => Some(RasterType::U8),
        (RasterType::U16, RasterType::U8) => Some(RasterType::U16),
        (RasterType::U8, RasterType::U16) => Some(RasterType::U16),
        (RasterType::U16, RasterType::U16) => Some(RasterType::U16),
        _ => None,
    }
}

/// A declarative raster node: one pipeline stage description plus its child
/// descriptions.  Trees of these are the unit of persistence, and resolving
/// one produces a tagged concrete pipeline.
#[derive(Debug, PartialEq)]
pub enum MetaRasterOperator {
    GdalSource(MetaGdalSource),
    Noop(MetaNoopOperator),
    PlusOne(MetaPlusOneOperator),
    AddRaster(MetaAddRasterOperator),
}

/// A declarative vector node.
#[derive(Debug, PartialEq)]
pub enum MetaVectorOperator {
    MyVectorSource(MetaMyVectorSourceOperator),
    RasterVector(MetaRasterVectorOperator),
}

impl MetaRasterOperator {
    /// The raster type resolving this node produces, or the defect
    /// resolution reports: children are resolved left to right, a missing
    /// child is reported before anything else, a transform only supports
    /// the `U8` and `U16` specializations, and a combine pair must be in
    /// the legal table.
    pub open spec fn spec_resolved_type(self) -> Result<RasterType, EngineError>
        decreases self,
    {
        match self {
            MetaRasterOperator::GdalSource(m) => Ok(m.raster_type),
            MetaRasterOperator::Noop(m) => if m.sources@.len() < 1 {
                Err(EngineError::MissingSource)
            } else {
                match m.sources@[0].spec_resolved_type() {
                    Ok(t) => if t == RasterType::U8 || t == RasterType::U16 {
                        Ok(t)
                    } else {
                        Err(EngineError::UnsupportedTagCombination)
                    },
                    Err(e) => Err(e),
                }
            },
            MetaRasterOperator::PlusOne(m) => if m.sources@.len() < 1 {
                Err(EngineError::MissingSource)
            } else {
                match m.sources@[0].spec_resolved_type() {
                    Ok(t) => if t == RasterType::U8 || t == RasterType::U16 {
                        Ok(t)
                    } else {
                        Err(EngineError::UnsupportedTagCombination)
                    },
                    Err(e) => Err(e),
                }
            },
            MetaRasterOperator::AddRaster(m) => if m.sources@.len() < 2 {
                Err(EngineError::MissingSource)
            } else {
                match m.sources@[0].spec_resolved_type() {
                    Ok(t0) => match m.sources@[1].spec_resolved_type() {
                        Ok(t1) => match spec_combine_type(t0, t1) {
                            Some(t) => Ok(t),
                            None => Err(EngineError::UnsupportedTagCombination),
                        },
                        Err(e) => Err(e),
                    },
                    Err(e) => Err(e),
                }
            },
        }
    }

    /// The `u8` stream this node resolves to produce.  Meaningful when
    /// `spec_resolved_type` is `Ok(U8)`.
    pub open spec fn spec_stream_u8(self) -> Seq<u8>
        decreases self,
    {
        match self {
            MetaRasterOperator::GdalSource(m) => spec_standin_elements::<u8>(),
            MetaRasterOperator::Noop(m) => if m.sources@.len() >= 1 {
                m.sources@[0].spec_stream_u8()
            } else {
                Seq::empty()
            },
            MetaRasterOperator::PlusOne(m) => if m.sources@.len() >= 1 {
                spec_inc_seq(m.sources@[0].spec_stream_u8())
            } else {
                Seq::empty()
            },
            MetaRasterOperator::AddRaster(m) => if m.sources@.len() >= 2 {
                spec_add_seq(m.sources@[0].spec_stream_u8(), m.sources@[1].spec_stream_u8())
            } else {
                Seq::empty()
            },
        }
    }

    /// The `u16` stream this node resolves to produce.  Meaningful when
    /// `spec_resolved_type` is `Ok(U16)`.  A combine adds the narrower
    /// child's stream into the wider child's stream, whichever side each
    /// stands on.
    pub open spec fn spec_stream_u16(self) -> Seq<u16>
        decreases self,
    {
        match self {
            MetaRasterOperator::GdalSource(m) => spec_standin_elements::<u16>(),
            MetaRasterOperator::Noop(m) => if m.sources@.len() >= 1 {
                m.sources@[0].spec_stream_u16()
            } else {
                Seq::empty()
            },
            MetaRasterOperator::PlusOne(m) => if m.sources@.len() >= 1 {
                spec_inc_seq(m.sources@[0].spec_stream_u16())
            } else {
                Seq::empty()
            },
            MetaRasterOperator::AddRaster(m) => if m.sources@.len() >= 2 {
                if m.sources@[0].spec_resolved_type() == Ok::<RasterType, EngineError>(
                    RasterType::U16,
                ) && m.sources@[1].spec_resolved_type() == Ok::<RasterType, EngineError>(
                    RasterType::U8,
                ) {
                    spec_add_seq(m.sources@[0].spec_stream_u16(), m.sources@[1].spec_stream_u8())
                } else if m.sources@[0].spec_resolved_type() == Ok::<RasterType, EngineError>(
                    RasterType::U8,
                ) && m.sources@[1].spec_resolved_type() == Ok::<RasterType, EngineError>(
                    RasterType::U16,
                ) {
                    spec_add_seq(m.sources@[1].spec_stream_u16(), m.sources@[0].spec_stream_u8())
                } else {
                    spec_add_seq(m.sources@[0].spec_stream_u16(), m.sources@[1].spec_stream_u16())
                }
            } else {
                Seq::empty()
            },
        }
    }

    /// What resolution hands back for this node: on success, an instance
    /// whose tag is the resolved type and whose pipeline produces the
    /// resolved stream; on failure, exactly the reported defect.
    pub open spec fn spec_resolves_to(
        self,
        r: Result<BoxedRasterOperatorInstance, EngineError>,
    ) -> bool {
        match r {
            Ok(inst) => self.spec_resolved_type() == Ok::<RasterType, EngineError>(inst.spec_tag())
                && (inst matches BoxedRasterOperatorInstance::U8(op) ==> op.spec_stream()
                == self.spec_stream_u8()) && (inst matches BoxedRasterOperatorInstance::U16(op)
                ==> op.spec_stream() == self.spec_stream_u16()) && (inst
                matches BoxedRasterOperatorInstance::U32(g) ==> g.elements@
                == spec_standin_elements::<u32>()) && (inst
                matches BoxedRasterOperatorInstance::U64(g) ==> g.elements@
                == spec_standin_elements::<u64>()) && (inst
                matches BoxedRasterOperatorInstance::I16(g) ==> g.elements@
                == spec_standin_elements::<i16>()) && (inst
                matches BoxedRasterOperatorInstance::I32(g) ==> g.elements@
                == spec_standin_elements::<i32>()) && (inst
                matches BoxedRasterOperatorInstance::I64(g) ==> g.elements@
                == spec_standin_elements::<i64>()),
            Err(e) => self.spec_resolved_type() == Err::<RasterType, EngineError>(e),
        }
    }

    /// The raster type this node will produce, resolved recursively through
    /// its children.
    pub fn creates_type(&self) -> (r: Result<RasterType, EngineError>)
        ensures
            r == self.spec_resolved_type(),
        decreases *self,
    {
        match self {
            MetaRasterOperator::GdalSource(m) => Ok(m.raster_type),
            MetaRasterOperator::Noop(m) => {
                if m.sources.len() < 1 {
                    Err(EngineError::MissingSource)
                } else {
                    match m.sources[0].creates_type() {
                        Ok(t) => if t == RasterType::U8 || t == RasterType::U16 {
                            Ok(t)
                        } else {
                            Err(EngineError::UnsupportedTagCombination)
                        },
                        Err(e) => Err(e),
                    }
                }
            },
            MetaRasterOperator::PlusOne(m) => {
                if m.sources.len() < 1 {
                    Err(EngineError::MissingSource)
                } else {
                    match m.sources[0].creates_type() {
                        Ok(t) => if t == RasterType::U8 || t == RasterType::U16 {
                            Ok(t)
                        } else {
                            Err(EngineError::UnsupportedTagCombination)
                        },
                        Err(e) => Err(e),
                    }
                }
            },
            MetaRasterOperator::AddRaster(m) => {
                if m.sources.len() < 2 {
                    Err(EngineError::MissingSource)
                } else {
                    match m.sources[0].creates_type() {
                        Ok(t0) => match m.sources[1].creates_type() {
                            Ok(t1) => match (t0, t1) {
                                (RasterType::U8, RasterType::U8) => Ok(RasterType::U8),
                                (RasterType::U16, RasterType::U8) => Ok(RasterType::U16),
                                (RasterType::U8, RasterType::U16) => Ok(RasterType::U16),
                                (RasterType::U16, RasterType::U16) => Ok(RasterType::U16),
                                _ => Err(EngineError::UnsupportedTagCombination),
                            },
                            Err(e) => Err(e),
                        },
                        Err(e) => Err(e),
                    }
                }
            },
        }
    }

    /// Resolution: determines the type this node produces, builds the
    /// matching concrete specialization bottom-up, and wraps it as a tagged
    /// instance.
    pub fn create_raster_op(&self) -> (r: Result<BoxedRasterOperatorInstance, EngineError>)
        ensures
            self.spec_resolves_to(r),
        decreases *self,
    {
        let t = match self.creates_type() {
            Ok(t) => t,
            Err(e) => {
                return Err(e);
            },
        };
        match t {
            RasterType::U8 => {
                let op = match self {
                    MetaRasterOperator::GdalSource(m) => RasterOperatorU8::Gdal(
                        m.create_u8_raster_op(),
                    ),
                    MetaRasterOperator::Noop(m) => m.create_u8_raster_op(),
                    MetaRasterOperator::PlusOne(m) => m.create_u8_raster_op(),
                    MetaRasterOperator::AddRaster(m) => m.create_u8_raster_op(),
                };
                Ok(BoxedRasterOperatorInstance::U8(op))
            },
            RasterType::U16 => {
                let op = match self {
                    MetaRasterOperator::GdalSource(m) => RasterOperatorU16::Gdal(
                        m.create_u16_raster_op(),
                    ),
                    MetaRasterOperator::Noop(m) => m.create_u16_raster_op(),
                    MetaRasterOperator::PlusOne(m) => m.create_u16_raster_op(),
                    MetaRasterOperator::AddRaster(m) => m.create_u16_raster_op(),
                };
                Ok(BoxedRasterOperatorInstance::U16(op))
            },
            RasterType::U32 => {
                match self {
                    MetaRasterOperator::GdalSource(m) => Ok(
                        BoxedRasterOperatorInstance::U32(m.create_u32_raster_op()),
                    ),
                    _ => vstd::pervasive::unreached(),
                }
            },
            RasterType::U64 => {
                match self {
                    MetaRasterOperator::GdalSource(m) => Ok(
                        BoxedRasterOperatorInstance::U64(m.create_u64_raster_op()),
                    ),
                    _ => vstd::pervasive::unreached(),
                }
            },
            RasterType::I16 => {
                match self {
                    MetaRasterOperator::GdalSource(m) => Ok(
                        BoxedRasterOperatorInstance::I16(m.create_i16_raster_op()),
                    ),
                    _ => vstd::pervasive::unreached(),
                }
            },
            RasterType::I32 => {
                match self {
                    MetaRasterOperator::GdalSource(m) => Ok(
                        BoxedRasterOperatorInstance::I32(m.create_i32_raster_op()),
                    ),
                    _ => vstd::pervasive::unreached(),
                }
            },
            RasterType::I64 => {
                match self {
                    MetaRasterOperator::GdalSource(m) => Ok(
                        BoxedRasterOperatorInstance::I64(m.create_i64_raster_op()),
                    ),
                    _ => vstd::pervasive::unreached(),
                }
            },
            RasterType::F32 => Ok(BoxedRasterOperatorInstance::F32),
            RasterType::F64 => Ok(BoxedRasterOperatorInstance::F64),
        }
    }
}

/// Combine is commutative in its pair table: either order of two observed
/// tags selects the same result type.
pub proof fn lemma_combine_type_commutative(a: RasterType, b: RasterType)
    ensures
        spec_combine_type(a, b) == spec_combine_type(b, a),
{
}

/// Resolution is deterministic: any two outcomes that resolution's
/// contract admits for the same tree carry the same tag, the same
/// streams, and the same defect.
pub proof fn lemma_resolution_deterministic(
    m: MetaRasterOperator,
    r1: Result<BoxedRasterOperatorInstance, EngineError>,
    r2: Result<BoxedRasterOperatorInstance, EngineError>,
)
    requires
        m.spec_resolves_to(r1),
        m.spec_resolves_to(r2),
    ensures
        r1 is Ok <==> r2 is Ok,
        r1 matches Ok(i1) ==> (r2 matches Ok(i2) && i1.spec_tag() == i2.spec_tag()),
        r1 matches Ok(BoxedRasterOperatorInstance::U8(a)) ==> (r2 matches Ok(
            BoxedRasterOperatorInstance::U8(b),
        ) && a.spec_stream() == b.spec_stream()),
        r1 matches Ok(BoxedRasterOperatorInstance::U16(a)) ==> (r2 matches Ok(
            BoxedRasterOperatorInstance::U16(b),
        ) && a.spec_stream() == b.spec_stream()),
        r1 matches Err(e1) ==> (r2 matches Err(e2) && e1 == e2),
{
}

/// Structural equality of raster node trees: the same kinds, the same
/// declared types, and the same children in the same order.  Two trees
/// related this way describe the same pipeline.
pub open spec fn spec_raster_tree_eq(a: MetaRasterOperator, b: MetaRasterOperator) -> bool
    decreases a,
{
    match (a, b) {
        (MetaRasterOperator::GdalSource(x), MetaRasterOperator::GdalSource(y)) => x.raster_type
            == y.raster_type,
        (MetaRasterOperator::Noop(x), MetaRasterOperator::Noop(y)) => x.sources@.len()
            == y.sources@.len() && (forall|i: int|
            0 <= i < x.sources@.len() ==> spec_raster_tree_eq(x.sources@[i], y.sources@[i])),
        (MetaRasterOperator::PlusOne(x), MetaRasterOperator::PlusOne(y)) => x.sources@.len()
            == y.sources@.len() && (forall|i: int|
            0 <= i < x.sources@.len() ==> spec_raster_tree_eq(x.sources@[i], y.sources@[i])),
        (MetaRasterOperator::AddRaster(x), MetaRasterOperator::AddRaster(y)) => x.sources@.len()
            == y.sources@.len() && (forall|i: int|
            0 <= i < x.sources@.len() ==> spec_raster_tree_eq(x.sources@[i], y.sources@[i])),
        _ => false,
    }
}

/// Structural equality of vector node trees.
pub open spec fn spec_vector_tree_eq(a: MetaVectorOperator, b: MetaVectorOperator) -> bool
    decreases a,
{
    match (a, b) {
        (MetaVectorOperator::MyVectorSource(x), MetaVectorOperator::MyVectorSource(y)) => true,
        (MetaVectorOperator::RasterVector(x), MetaVectorOperator::RasterVector(y)) => x
            .raster_sources@.len() == y.raster_sources@.len() && (forall|i: int|
            0 <= i < x.raster_sources@.len() ==> spec_raster_tree_eq(
                x.raster_sources@[i],
                y.raster_sources@[i],
            )) && x.vector_sources@.len() == y.vector_sources@.len() && (forall|i: int|
            0 <= i < x.vector_sources@.len() ==> spec_vector_tree_eq(
                x.vector_sources@[i],
                y.vector_sources@[i],
            )),
        _ => false,
    }
}

/// Structurally equal raster trees resolve identically: the same type or
/// defect, and the same streams.
pub proof fn lemma_raster_tree_eq_resolution(a: MetaRasterOperator, b: MetaRasterOperator)
    requires
        spec_raster_tree_eq(a, b),
    ensures
        a.spec_resolved_type() == b.spec_resolved_type(),
        a.spec_stream_u8() == b.spec_stream_u8(),
        a.spec_stream_u16() == b.spec_stream_u16(),
    decreases a,
{
    match (a, b) {
        (MetaRasterOperator::GdalSource(x), MetaRasterOperator::GdalSource(y)) => {
        },
        (MetaRasterOperator::Noop(x), MetaRasterOperator::Noop(y)) => {
            if x.sources@.len() >= 1 {
                lemma_raster_tree_eq_resolution(x.sources@[0], y.sources@[0]);
            }
        },
        (MetaRasterOperator::PlusOne(x), MetaRasterOperator::PlusOne(y)) => {
            if x.sources@.len() >= 1 {
                lemma_raster_tree_eq_resolution(x.sources@[0], y.sources@[0]);
            }
        },
        (MetaRasterOperator::AddRaster(x), MetaRasterOperator::AddRaster(y)) => {
            if x.sources@.len() >= 1 {
                lemma_raster_tree_eq_resolution(x.sources@[0], y.sources@[0]);
            }
            if x.sources@.len() >= 2 {
                lemma_raster_tree_eq_resolution(x.sources@[1], y.sources@[1]);
            }
        },
        _ => {
        },
    }
}

/// Structurally equal vector trees resolve identically: the same outcome
/// and the same point.
pub proof fn lemma_vector_tree_eq_resolution(a: MetaVectorOperator, b: MetaVectorOperator)
    requires
        spec_vector_tree_eq(a, b),
    ensures
        a.spec_resolved_collection() == b.spec_resolved_collection(),
        a.spec_point() == b.spec_point(),
    decreases a,
{
    match (a, b) {
        (MetaVectorOperator::MyVectorSource(x), MetaVectorOperator::MyVectorSource(y)) => {
        },
        (MetaVectorOperator::RasterVector(x), MetaVectorOperator::RasterVector(y)) => {
            if x.raster_sources@.len() >= 1 {
                lemma_raster_tree_eq_resolution(x.raster_sources@[0], y.raster_sources@[0]);
            }
            if x.vector_sources@.len() >= 1 {
                lemma_vector_tree_eq_resolution(x.vector_sources@[0], y.vector_sources@[0]);
            }
        },
        _ => {
        },
    }
}

impl MetaVectorOperator {
    /// Whether resolving this vector node succeeds, or the defect it
    /// reports: the raster child resolves first, then the vector child,
    /// and the join accepts only `U8`- and `U16`-tagged raster children.
    pub open spec fn spec_resolved_collection(self) -> Result<(), EngineError>
        decreases self,
    {
        match self {
            MetaVectorOperator::MyVectorSource(m) => Ok(()),
            MetaVectorOperator::RasterVector(m) => if m.raster_sources@.len() < 1 {
                Err(EngineError::MissingSource)
            } else {
                match m.raster_sources@[0].spec_resolved_type() {
                    Ok(t) => if m.vector_sources@.len() < 1 {
                        Err(EngineError::MissingSource)
                    } else {
                        match m.vector_sources@[0].spec_resolved_collection() {
                            Ok(u) => if t == RasterType::U8 || t == RasterType::U16 {
                                Ok(())
                            } else {
                                Err(EngineError::UnsupportedTagCombination)
                            },
                            Err(e) => Err(e),
                        }
                    },
                    Err(e) => Err(e),
                }
            },
        }
    }

    /// The point this vector node resolves to produce.  Meaningful when
    /// `spec_resolved_collection` is `Ok`.
    pub open spec fn spec_point(self) -> Point
        decreases self,
    {
        match self {
            MetaVectorOperator::MyVectorSource(m) => spec_standin_point(),
            MetaVectorOperator::RasterVector(m) => if m.vector_sources@.len() >= 1 {
                m.vector_sources@[0].spec_point()
            } else {
                spec_standin_point()
            },
        }
    }

    /// The collection type this node produces.  Points are the one vector
    /// representation, so there is nothing to choose.
    pub fn creates_collection_type(&self) -> () {
        ()
    }

    /// Resolution of a vector node: builds the point pipeline and wraps it
    /// as a vector instance.
    pub fn create_vector_op(&self) -> (r: Result<BoxedVectorOperatorInstance, EngineError>)
        ensures
            match r {
                Ok(inst) => self.spec_resolved_collection() == Ok::<(), EngineError>(()) && (inst
                    matches BoxedVectorOperatorInstance::Points(p) && p.spec_point()
                    == self.spec_point()),
                Err(e) => self.spec_resolved_collection() == Err::<(), EngineError>(e),
            },
        decreases *self, 1int,
    {
        match self.create_point_op() {
            Ok(p) => Ok(BoxedVectorOperatorInstance::Points(p)),
            Err(e) => Err(e),
        }
    }

    /// Builds the concrete point pipeline for this node.
    pub fn create_point_op(&self) -> (r: Result<PointOperator, EngineError>)
        ensures
            match r {
                Ok(p) => self.spec_resolved_collection() == Ok::<(), EngineError>(())
                    && p.spec_point() == self.spec_point(),
                Err(e) => self.spec_resolved_collection() == Err::<(), EngineError>(e),
            },
        decreases *self, 0int,
    {
        match self {
            MetaVectorOperator::MyVectorSource(m) => Ok(m.create_point_op()),
            MetaVectorOperator::RasterVector(m) => m.create_point_op(),
        }
    }
}

} // verus!
