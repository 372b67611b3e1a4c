//! The original end-to-end walks: a statically typed pipeline, a resolved
//! declarative raster graph, and a mixed raster/vector graph, each checked
//! against the streams it must produce.

use std::marker::PhantomData;

use engine_x::gdal_source::{GdalSource, MetaGdalSource};
use engine_x::graph_codec::{
    raster_graph_from_json, raster_graph_to_json, vector_graph_from_json, vector_graph_to_json,
};
use engine_x::meta_raster_operator::{MetaRasterOperator, MetaVectorOperator};
use engine_x::my_vector_source::{MetaMyVectorSourceOperator, MyVectorSource};
use engine_x::noop_operator::MetaNoopOperator;
use engine_x::operator_ext::{RasterOperatorExt, VectorOperatorExt};
use engine_x::add_raster_operator::MetaAddRasterOperator;
use engine_x::plus_one_operator::MetaPlusOneOperator;
use engine_x::primitives::Point;
use engine_x::raster_type::RasterType;
use engine_x::raster_vector_operator::MetaRasterVectorOperator;
use engine_x::source::{
    BoxedRasterOperatorInstance, BoxedVectorOperatorInstance, Query, RasterSource, Source,
    VectorSource,
};

#[test]
fn complex() {
    // a leaf source
    let gdal_source: GdalSource<u16> =
        GdalSource { dataset: "meh".to_owned(), elements: vec![0, 0, 0, 0] };

    // concrete raster!
    let r = gdal_source.query(Query);
    assert_eq!(r.v, vec![0, 0, 0, 0]);

    let raster_plus_one = gdal_source.plus_one();
    let r = raster_plus_one.query(Query);
    assert_eq!(r.v, vec![1, 1, 1, 1]);

    let other_gdal_source: GdalSource<u8> =
        GdalSource { dataset: "meh".to_owned(), elements: vec![0, 0, 0, 0] };

    let raster_plusone_plus_other = raster_plus_one.plus_raster(other_gdal_source);
    let r = raster_plusone_plus_other.raster_query(Query);
    assert_eq!(r.v, vec![1, 1, 1, 1]);

    // a vector source
    let vector_source: MyVectorSource<Point> =
        MyVectorSource { dataset: "vec".to_owned(), data: PhantomData };

    // concrete vector!
    let v = vector_source.query(Query);
    assert_eq!(v, Point { a: 12, b: 13 });

    // take the vector source, add a pass-through, combine the result with
    // the raster source wrapped in a pass-through
    let vector_noop_raster_noop_combine = vector_source
        .noop()
        .add_raster_values(RasterOperatorExt::noop(raster_plusone_plus_other));
    // add more pass-throughs
    let vector_noop_raster_noop_combine_noop_noop = vector_noop_raster_noop_combine.noop().noop();
    // the concrete vector type comes out, all known at compile time
    let v = vector_noop_raster_noop_combine_noop_noop.vector_query(Query);
    assert_eq!(v, Point { a: 12, b: 13 });
}

#[test]
fn raster_graph() {
    // a declarative leaf source
    let meta_gdal_source = MetaGdalSource { raster_type: RasterType::U16 };
    let meta_gdal_source_node = MetaRasterOperator::GdalSource(meta_gdal_source);

    let other_meta_gdal_source =
        MetaRasterOperator::GdalSource(MetaGdalSource { raster_type: RasterType::U8 });

    // wrap it with pass-through nodes
    let meta_gdal_source_noop =
        MetaRasterOperator::Noop(MetaNoopOperator { sources: vec![meta_gdal_source_node] });
    let meta_gdal_source_noop_noop =
        MetaRasterOperator::Noop(MetaNoopOperator { sources: vec![meta_gdal_source_noop] });
    let meta_gdal_source_noop_noop_noop =
        MetaRasterOperator::Noop(MetaNoopOperator { sources: vec![meta_gdal_source_noop_noop] });

    let meta_plusone = MetaRasterOperator::PlusOne(MetaPlusOneOperator {
        sources: vec![meta_gdal_source_noop_noop_noop],
    });

    let meta_plusone_plusother = MetaRasterOperator::AddRaster(MetaAddRasterOperator {
        sources: vec![meta_plusone, other_meta_gdal_source],
    });

    // resolve the declarative graph into a tagged instance
    let operator_instance = meta_plusone_plusother.create_raster_op().unwrap();

    // the tagged instance is an enum; unpack it for the concrete type
    match operator_instance {
        BoxedRasterOperatorInstance::U16(r) => {
            // the query produces a concrete stream
            let raster = r.raster_query(Query);
            assert_eq!(raster.v, vec![1, 1, 1, 1]);
        },
        _ => panic!("expected a u16 instance"),
    }

    // serialize the declarative operator graph
    let dynamic_serial = raster_graph_to_json(&meta_plusone_plusother);

    // deserialize the persisted graph
    let deserial = raster_graph_from_json(dynamic_serial.as_str()).unwrap();
    assert_eq!(deserial, meta_plusone_plusother);

    // create the processing operator again
    let d_op = deserial.create_raster_op().unwrap();
    match d_op {
        BoxedRasterOperatorInstance::U16(r) => {
            let raster = r.raster_query(Query);
            assert_eq!(raster.v, vec![1, 1, 1, 1]);
        },
        _ => panic!("expected a u16 instance"),
    }
}

#[test]
fn mixed_graph() {
    // a declarative leaf source
    let meta_gdal_source =
        MetaRasterOperator::GdalSource(MetaGdalSource { raster_type: RasterType::U16 });

    let meta_vector_source = MetaVectorOperator::MyVectorSource(MetaMyVectorSourceOperator {});

    let meta_combining_operator = MetaVectorOperator::RasterVector(MetaRasterVectorOperator {
        raster_sources: vec![meta_gdal_source],
        vector_sources: vec![meta_vector_source],
    });

    // serialize the declarative operator graph
    let dynamic_serial = vector_graph_to_json(&meta_combining_operator);

    // deserialize the persisted graph
    let deserial = vector_graph_from_json(dynamic_serial.as_str()).unwrap();
    assert_eq!(deserial, meta_combining_operator);

    // create the processing operator
    let d_op = deserial.create_vector_op().unwrap();
    match d_op {
        BoxedVectorOperatorInstance::Points(p) => {
            let res = p.vector_query(Query);
            assert_eq!(res, Point { a: 12, b: 13 });
        },
    }
}
