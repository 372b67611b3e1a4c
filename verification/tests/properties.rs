//! Behavioral checks on concrete values: determinism, pass-through and
//! increment semantics, the combine pair table, unwrapping against the
//! wrong tag, and the end-to-end widening scenario.

use engine_x::add_raster_operator::MetaAddRasterOperator;
use engine_x::error::EngineError;
use engine_x::gdal_source::GdalSource;
use engine_x::gdal_source::MetaGdalSource;
use engine_x::meta_raster_operator::MetaRasterOperator;
use engine_x::noop_operator::MetaNoopOperator;
use engine_x::operator_creation;
use engine_x::operator_ext::RasterOperatorExt;
use engine_x::plus_one_operator::MetaPlusOneOperator;
use engine_x::raster_type::RasterType;
use engine_x::add_raster_operator::AddRasterOperator;
use engine_x::noop_operator::NoOpOperator;
use engine_x::plus_one_operator::PlusOneOperator;
use engine_x::source::{
    BoxedRasterOperatorInstance, Query, RasterOperatorU16, RasterOperatorU8, RasterSource,
};

fn u16_leaf(elements: Vec<u16>) -> GdalSource<u16> {
    GdalSource { dataset: "a".to_owned(), elements }
}

fn u8_leaf(elements: Vec<u8>) -> GdalSource<u8> {
    GdalSource { dataset: "b".to_owned(), elements }
}

fn meta_leaf(raster_type: RasterType) -> MetaRasterOperator {
    MetaRasterOperator::GdalSource(MetaGdalSource { raster_type })
}

#[test]
fn resolving_twice_is_deterministic() {
    let graph = MetaRasterOperator::PlusOne(MetaPlusOneOperator {
        sources: vec![meta_leaf(RasterType::U16)],
    });
    let first = match graph.create_raster_op().unwrap() {
        BoxedRasterOperatorInstance::U16(r) => r.raster_query(Query).v,
        _ => panic!("expected a u16 instance"),
    };
    let second = match graph.create_raster_op().unwrap() {
        BoxedRasterOperatorInstance::U16(r) => r.raster_query(Query).v,
        _ => panic!("expected a u16 instance"),
    };
    assert_eq!(first, second);

    // one resolved pipeline queried twice is bit-identical as well
    match graph.create_raster_op().unwrap() {
        BoxedRasterOperatorInstance::U16(r) => {
            assert_eq!(r.raster_query(Query).v, r.raster_query(Query).v);
        },
        _ => panic!("expected a u16 instance"),
    }
}

#[test]
fn pass_through_preserves_streams() {
    let r = u8_leaf(vec![5, 6, 7]).noop().raster_query(Query);
    assert_eq!(r.v, vec![5, 6, 7]);

    let r = u16_leaf(vec![500, 600]).noop().noop().raster_query(Query);
    assert_eq!(r.v, vec![500, 600]);
}

#[test]
fn increment_adds_one_per_element() {
    let r = u8_leaf(vec![0, 1, 254]).plus_one().raster_query(Query);
    assert_eq!(r.v, vec![1, 2, 255]);

    let r = u16_leaf(vec![10, 20, 30, 40]).plus_one().raster_query(Query);
    assert_eq!(r.v, vec![11, 21, 31, 41]);

    // at the type's bound the increment wraps
    let r = u8_leaf(vec![255]).plus_one().raster_query(Query);
    assert_eq!(r.v, vec![0]);
}

#[test]
fn combine_dispatch_is_commutative() {
    let one_way = MetaRasterOperator::AddRaster(MetaAddRasterOperator {
        sources: vec![meta_leaf(RasterType::U16), meta_leaf(RasterType::U8)],
    });
    let other_way = MetaRasterOperator::AddRaster(MetaAddRasterOperator {
        sources: vec![meta_leaf(RasterType::U8), meta_leaf(RasterType::U16)],
    });

    let first = match one_way.create_raster_op().unwrap() {
        BoxedRasterOperatorInstance::U16(r) => r.raster_query(Query).v,
        _ => panic!("expected a u16 instance"),
    };
    let second = match other_way.create_raster_op().unwrap() {
        BoxedRasterOperatorInstance::U16(r) => r.raster_query(Query).v,
        _ => panic!("expected a u16 instance"),
    };
    assert_eq!(first, second);
}

#[test]
fn combine_of_u32_pair_is_unsupported() {
    let graph = MetaRasterOperator::AddRaster(MetaAddRasterOperator {
        sources: vec![meta_leaf(RasterType::U32), meta_leaf(RasterType::U32)],
    });
    assert_eq!(graph.create_raster_op().unwrap_err(), EngineError::UnsupportedTagCombination);
}

#[test]
fn combine_of_f64_pair_is_unsupported() {
    // both children resolve — float-tagged leaves are legal — and then the
    // pair is rejected
    let leaf = meta_leaf(RasterType::F64);
    assert!(matches!(leaf.create_raster_op().unwrap(), BoxedRasterOperatorInstance::F64));
    let graph = MetaRasterOperator::AddRaster(MetaAddRasterOperator {
        sources: vec![meta_leaf(RasterType::F64), meta_leaf(RasterType::F64)],
    });
    assert_eq!(graph.create_raster_op().unwrap_err(), EngineError::UnsupportedTagCombination);
}

#[test]
fn unwrap_against_wrong_tag_fails() {
    let inst = meta_leaf(RasterType::U8).create_raster_op().unwrap();
    assert!(inst.get_u16().is_none());

    let inst = meta_leaf(RasterType::U8).create_raster_op().unwrap();
    assert!(inst.get_u8().is_some());

    // the shared dispatch helpers report the mismatch
    let inst = meta_leaf(RasterType::U16).create_raster_op().unwrap();
    let r = operator_creation::create_operator_unary_raster_u8::<MetaPlusOneOperator>(inst);
    assert_eq!(r.unwrap_err(), EngineError::TypeMismatch);
}

#[test]
fn widening_scenario() {
    // leaf A: u16, stream [10, 20, 30, 40]; two pass-throughs, then an
    // increment
    let incremented = u16_leaf(vec![10, 20, 30, 40]).noop().noop().plus_one();
    let r = incremented.raster_query(Query);
    assert_eq!(r.v, vec![11, 21, 31, 41]);

    // combine with leaf B: u8, stream [1, 1, 1, 1]
    let combined = incremented.plus_raster(u8_leaf(vec![1, 1, 1, 1]));
    let r = combined.raster_query(Query);
    assert_eq!(r.v, vec![12, 22, 32, 42]);
}

#[test]
fn widening_scenario_on_a_resolved_tree() {
    // the same scenario, built as the concrete tree resolution produces:
    // leaf [10, 20, 30, 40] under two pass-throughs and an increment,
    // combined with a promoted u8 leaf [1, 1, 1, 1]
    let leaf_a = RasterOperatorU16::Gdal(u16_leaf(vec![10, 20, 30, 40]));
    let wrapped = RasterOperatorU16::Noop(NoOpOperator {
        source: Box::new(RasterOperatorU16::Noop(NoOpOperator { source: Box::new(leaf_a) })),
    });
    let incremented = RasterOperatorU16::PlusOne(PlusOneOperator { source: Box::new(wrapped) });
    assert_eq!(incremented.raster_query(Query).v, vec![11, 21, 31, 41]);

    let leaf_b = RasterOperatorU8::Gdal(u8_leaf(vec![1, 1, 1, 1]));
    let combined = RasterOperatorU16::AddU8(AddRasterOperator {
        source: (Box::new(incremented), Box::new(leaf_b)),
    });
    assert_eq!(combined.raster_query(Query).v, vec![12, 22, 32, 42]);
}

#[test]
fn missing_sources_are_reported() {
    let graph = MetaRasterOperator::Noop(MetaNoopOperator { sources: vec![] });
    assert_eq!(graph.create_raster_op().unwrap_err(), EngineError::MissingSource);

    let graph = MetaRasterOperator::AddRaster(MetaAddRasterOperator {
        sources: vec![meta_leaf(RasterType::U8)],
    });
    assert_eq!(graph.create_raster_op().unwrap_err(), EngineError::MissingSource);
}
