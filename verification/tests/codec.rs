//! The persisted form: exact canonical texts, round trips, and decode
//! failures on unknown discriminators and malformed records.

use engine_x::add_raster_operator::MetaAddRasterOperator;
use engine_x::error::EngineError;
use engine_x::gdal_source::MetaGdalSource;
use engine_x::graph_codec::{
    raster_graph_from_json, raster_graph_to_json, vector_graph_from_json, vector_graph_to_json,
};
use engine_x::meta_raster_operator::{MetaRasterOperator, MetaVectorOperator};
use engine_x::my_vector_source::MetaMyVectorSourceOperator;
use engine_x::noop_operator::MetaNoopOperator;
use engine_x::raster_type::RasterType;
use engine_x::raster_vector_operator::MetaRasterVectorOperator;

fn meta_leaf(raster_type: RasterType) -> MetaRasterOperator {
    MetaRasterOperator::GdalSource(MetaGdalSource { raster_type })
}

#[test]
fn leaf_record_text() {
    let s = raster_graph_to_json(&meta_leaf(RasterType::U16));
    assert_eq!(s, "{\"type\":\"MetaGdalSource\",\"raster_type\":\"U16\"}");

    let s = raster_graph_to_json(&meta_leaf(RasterType::F64));
    assert_eq!(s, "{\"type\":\"MetaGdalSource\",\"raster_type\":\"F64\"}");
}

#[test]
fn nested_record_text() {
    let graph = MetaRasterOperator::AddRaster(MetaAddRasterOperator {
        sources: vec![
            MetaRasterOperator::Noop(MetaNoopOperator {
                sources: vec![meta_leaf(RasterType::U16)],
            }),
            meta_leaf(RasterType::U8),
        ],
    });
    let s = raster_graph_to_json(&graph);
    assert_eq!(
        s,
        "{\"type\":\"MetaAddRasterOperator\",\"sources\":[\
         {\"type\":\"MetaNoopOperator\",\"sources\":[\
         {\"type\":\"MetaGdalSource\",\"raster_type\":\"U16\"}]},\
         {\"type\":\"MetaGdalSource\",\"raster_type\":\"U8\"}]}"
    );
}

#[test]
fn raster_round_trip() {
    let graph = MetaRasterOperator::AddRaster(MetaAddRasterOperator {
        sources: vec![
            MetaRasterOperator::Noop(MetaNoopOperator {
                sources: vec![meta_leaf(RasterType::U16)],
            }),
            meta_leaf(RasterType::U8),
        ],
    });
    let s = raster_graph_to_json(&graph);
    let decoded = raster_graph_from_json(s.as_str()).unwrap();
    assert_eq!(decoded, graph);

    // every declared type round-trips, the float ones among them
    let leaf = meta_leaf(RasterType::F64);
    let s = raster_graph_to_json(&leaf);
    assert_eq!(raster_graph_from_json(s.as_str()).unwrap(), leaf);
}

#[test]
fn vector_round_trip() {
    let graph = MetaVectorOperator::RasterVector(MetaRasterVectorOperator {
        raster_sources: vec![meta_leaf(RasterType::U16), meta_leaf(RasterType::U8)],
        vector_sources: vec![
            MetaVectorOperator::MyVectorSource(MetaMyVectorSourceOperator {}),
        ],
    });
    let s = vector_graph_to_json(&graph);
    let decoded = vector_graph_from_json(s.as_str()).unwrap();
    assert_eq!(decoded, graph);
}

#[test]
fn unknown_discriminator_fails() {
    let r = raster_graph_from_json("{\"type\":\"Bogus\"}");
    assert_eq!(r.unwrap_err(), EngineError::DecodeError);

    let r = vector_graph_from_json("{\"type\":\"Bogus\"}");
    assert_eq!(r.unwrap_err(), EngineError::DecodeError);
}

#[test]
fn malformed_records_fail() {
    assert_eq!(raster_graph_from_json("").unwrap_err(), EngineError::DecodeError);
    assert_eq!(
        raster_graph_from_json("{\"type\":\"MetaGdalSource\",\"raster_type\":\"U99\"}")
            .unwrap_err(),
        EngineError::DecodeError,
    );
    // a trailing comma in a child list is not canonical
    assert_eq!(
        raster_graph_from_json(
            "{\"type\":\"MetaNoopOperator\",\"sources\":[\
             {\"type\":\"MetaGdalSource\",\"raster_type\":\"U8\"},]}"
        )
        .unwrap_err(),
        EngineError::DecodeError,
    );
    // trailing text after a complete record is rejected
    assert_eq!(
        raster_graph_from_json("{\"type\":\"MetaGdalSource\",\"raster_type\":\"U8\"} ")
            .unwrap_err(),
        EngineError::DecodeError,
    );
}

#[test]
fn empty_child_list_round_trip() {
    let graph = MetaRasterOperator::Noop(MetaNoopOperator { sources: vec![] });
    let s = raster_graph_to_json(&graph);
    assert_eq!(s, "{\"type\":\"MetaNoopOperator\",\"sources\":[]}");
    let decoded = raster_graph_from_json(s.as_str()).unwrap();
    assert_eq!(decoded, graph);
}
