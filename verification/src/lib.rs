//! A declarative raster/vector pipeline engine.
//!
//! A pipeline is described by a tree of declarative nodes (the `meta` types),
//! which can be persisted as JSON and reconstructed by the codec.  Resolving
//! the tree dispatches on the raster element type each node produces and
//! builds a statically typed operator tree that answers queries with element
//! streams.

pub mod add_raster_operator;
pub mod error;
pub mod gdal_source;
pub mod graph_codec;
pub mod meta_raster_operator;
pub mod my_vector_source;
pub mod noop_operator;
pub mod operator_creation;
pub mod operator_ext;
pub mod plus_one_operator;
pub mod primitives;
pub mod raster_type;
pub mod raster_vector_operator;
pub mod source;
pub mod subgraph;
