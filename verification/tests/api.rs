//! The declarative metadata surface and the dispatch helpers: declared
//! types, input constraints, subgraph access, the create traits, and the
//! per-pair binary dispatch.

use engine_x::add_raster_operator::{AddRasterOperator, MetaAddRasterOperator};
use engine_x::error::EngineError;
use engine_x::gdal_source::{GdalSource, MetaGdalSource};
use engine_x::meta_raster_operator::{MetaRasterOperator, RasterCreates, RasterWants};
use engine_x::noop_operator::{MetaNoopOperator, NoOpOperator};
use engine_x::operator_creation;
use engine_x::plus_one_operator::{MetaPlusOneOperator, PlusOneOperator};
use engine_x::raster_type::{Promote, RasterType, StaticRasterType};
use engine_x::source::{
    BoxedRasterOperatorInstance, CreateSourceOperator, CreateUnaryOperator, Query, RasterOperatorU8,
    RasterOperatorU16, RasterSource,
};
use engine_x::subgraph::Subgraph;

fn u8_instance(elements: Vec<u8>) -> BoxedRasterOperatorInstance {
    BoxedRasterOperatorInstance::U8(RasterOperatorU8::Gdal(GdalSource {
        dataset: "x".to_owned(),
        elements,
    }))
}

fn u16_instance(elements: Vec<u16>) -> BoxedRasterOperatorInstance {
    BoxedRasterOperatorInstance::U16(RasterOperatorU16::Gdal(GdalSource {
        dataset: "x".to_owned(),
        elements,
    }))
}

#[test]
fn declared_types_and_constraints() {
    let leaf = MetaGdalSource { raster_type: RasterType::I32 };
    assert_eq!(leaf.creates_type(), RasterCreates::SpecificType(RasterType::I32));
    assert_eq!(leaf.requires_type(), vec![]);

    let noop = MetaNoopOperator { sources: vec![] };
    assert_eq!(noop.requires_type(), vec![RasterWants::Any]);

    let add = MetaAddRasterOperator { sources: vec![] };
    assert_eq!(add.requires_type(), vec![RasterWants::Any, RasterWants::Any]);

    let graph = MetaRasterOperator::PlusOne(MetaPlusOneOperator {
        sources: vec![MetaRasterOperator::GdalSource(MetaGdalSource {
            raster_type: RasterType::U8,
        })],
    });
    assert_eq!(graph.creates_type().unwrap(), RasterType::U8);
}

#[test]
fn transforms_support_only_narrow_unsigned_types() {
    let graph = MetaRasterOperator::Noop(MetaNoopOperator {
        sources: vec![MetaRasterOperator::GdalSource(MetaGdalSource {
            raster_type: RasterType::U32,
        })],
    });
    assert_eq!(graph.create_raster_op().unwrap_err(), EngineError::UnsupportedTagCombination);
}

#[test]
fn leaf_instances_for_wide_types() {
    let leaf = MetaRasterOperator::GdalSource(MetaGdalSource { raster_type: RasterType::I64 });
    let inst = leaf.create_raster_op().unwrap();
    let source = inst.get_i64().unwrap();
    assert_eq!(source.raster_query(Query).v, vec![0, 0, 0, 0]);

    let leaf = MetaRasterOperator::GdalSource(MetaGdalSource { raster_type: RasterType::U32 });
    assert!(leaf.create_raster_op().unwrap().get_u32().is_some());
    let leaf = MetaRasterOperator::GdalSource(MetaGdalSource { raster_type: RasterType::U64 });
    assert!(leaf.create_raster_op().unwrap().get_u64().is_some());
    let leaf = MetaRasterOperator::GdalSource(MetaGdalSource { raster_type: RasterType::I16 });
    assert!(leaf.create_raster_op().unwrap().get_i16().is_some());
    let leaf = MetaRasterOperator::GdalSource(MetaGdalSource { raster_type: RasterType::I32 });
    assert!(leaf.create_raster_op().unwrap().get_i32().is_some());
}

#[test]
fn create_traits_build_operators() {
    let source: GdalSource<u16> = GdalSource::create("dataset-a".to_owned());
    assert_eq!(source.dataset, "dataset-a");
    assert_eq!(source.raster_query(Query).v, vec![0, 0, 0, 0]);

    let noop = NoOpOperator::create(source, "unused".to_owned());
    assert_eq!(noop.raster_query(Query).v, vec![0, 0, 0, 0]);

    let plus = PlusOneOperator::create(noop, "unused".to_owned());
    assert_eq!(plus.raster_query(Query).v, vec![1, 1, 1, 1]);
}

#[test]
fn subgraphs_expose_their_sources() {
    let leaf = GdalSource::<u8> { dataset: "s".to_owned(), elements: vec![9] };
    let noop = NoOpOperator { source: leaf };
    assert_eq!(noop.sources().elements, vec![9]);

    let plus = PlusOneOperator { source: noop };
    assert_eq!(plus.sources().source.elements, vec![9]);

    let left = GdalSource::<u8> { dataset: "l".to_owned(), elements: vec![1] };
    let right = GdalSource::<u8> { dataset: "r".to_owned(), elements: vec![2] };
    let add = AddRasterOperator { source: (left, right) };
    let (l, r) = add.sources();
    assert_eq!(l.elements, vec![1]);
    assert_eq!(r.elements, vec![2]);
}

#[test]
fn element_types_carry_their_tags() {
    assert_eq!(<u8 as StaticRasterType>::raster_type(), RasterType::U8);
    assert_eq!(<u16 as StaticRasterType>::raster_type(), RasterType::U16);
    assert_eq!(<u32 as StaticRasterType>::raster_type(), RasterType::U32);
    assert_eq!(<u64 as StaticRasterType>::raster_type(), RasterType::U64);
    assert_eq!(<i16 as StaticRasterType>::raster_type(), RasterType::I16);
    assert_eq!(<i32 as StaticRasterType>::raster_type(), RasterType::I32);
    assert_eq!(<i64 as StaticRasterType>::raster_type(), RasterType::I64);
    assert_eq!(<u8 as Promote<u16>>::promote(200), 200u16);
    assert_eq!(<u8 as StaticRasterType>::default_element(), 0);
}

#[test]
fn binary_dispatch_per_pair() {
    let r = operator_creation::create_operator_binary_raster_u8_u8::<MetaAddRasterOperator>(
        u8_instance(vec![1, 2]),
        u8_instance(vec![10, 20]),
    )
    .unwrap();
    assert_eq!(r.raster_query(Query).v, vec![11, 22]);

    let wide_narrow =
        operator_creation::create_operator_binary_raster_u16_x_commutativ::<MetaAddRasterOperator>(
            u16_instance(vec![10, 20]),
            u8_instance(vec![1, 2]),
        )
        .unwrap();
    let narrow_wide =
        operator_creation::create_operator_binary_raster_u16_x_commutativ::<MetaAddRasterOperator>(
            u8_instance(vec![1, 2]),
            u16_instance(vec![10, 20]),
        )
        .unwrap();
    assert_eq!(wide_narrow.raster_query(Query).v, vec![11, 22]);
    assert_eq!(narrow_wide.raster_query(Query).v, vec![11, 22]);

    let both_wide =
        operator_creation::create_operator_binary_raster_u16_x_commutativ::<MetaAddRasterOperator>(
            u16_instance(vec![1000]),
            u16_instance(vec![2000]),
        )
        .unwrap();
    assert_eq!(both_wide.raster_query(Query).v, vec![3000]);

    let bad =
        operator_creation::create_operator_binary_raster_u16_x_commutativ::<MetaAddRasterOperator>(
            u8_instance(vec![1]),
            u8_instance(vec![2]),
        );
    assert_eq!(bad.unwrap_err(), EngineError::UnsupportedTagCombination);
}

#[test]
fn combine_wraps_at_the_bound() {
    let r = operator_creation::create_operator_binary_raster_u8_u8::<MetaAddRasterOperator>(
        u8_instance(vec![250]),
        u8_instance(vec![10]),
    )
    .unwrap();
    assert_eq!(r.raster_query(Query).v, vec![4]);
}
