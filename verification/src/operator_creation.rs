//! Shared dispatch helpers for resolution: each takes tagged instances,
//! unwraps them against the tags its name promises, and hands them to a
//! factory.  An instance holding any other variant is a tag mismatch, or a
//! pair outside the table, and fails.

use vstd::prelude::*;

use crate::error::EngineError;
use crate::source::{
    BoxedRasterOperatorInstance, CreateBoxedBinaryOperatorInplace, CreateBoxedUnaryOperator,
    RasterOperatorU16, RasterOperatorU8,
};

verus! {

/// Unwraps the instance against `u8` and wraps it in `O`'s unary stage.
pub fn create_operator_unary_raster_u8<O: CreateBoxedUnaryOperator<String>>(
    source: BoxedRasterOperatorInstance,
) -> (r: Result<RasterOperatorU8, EngineError>)
    ensures
        match source.spec_as_u8() {
            Some(op) => r matches Ok(x) && x.spec_stream() == O::spec_unary_stream_u8(
                op.spec_stream(),
            ),
            None => r == Err::<RasterOperatorU8, EngineError>(EngineError::TypeMismatch),
        },
{
    let s = match source.get_u8() {
        Some(s) => s,
        None => {
            return Err(EngineError::TypeMismatch);
        },
    };
    Ok(O::create_unary_boxed_u8(s, "params".to_owned()))
}

/// Unwraps the instance against `u16` and wraps it in `O`'s unary stage.
pub fn create_operator_unary_raster_u16<O: CreateBoxedUnaryOperator<String>>(
    source: BoxedRasterOperatorInstance,
) -> (r: Result<RasterOperatorU16, EngineError>)
    ensures
        match source.spec_as_u16() {
            Some(op) => r matches Ok(x) && x.spec_stream() == O::spec_unary_stream_u16(
                op.spec_stream(),
            ),
            None => r == Err::<RasterOperatorU16, EngineError>(EngineError::TypeMismatch),
        },
{
    let s = match source.get_u16() {
        Some(s) => s,
        None => {
            return Err(EngineError::TypeMismatch);
        },
    };
    Ok(O::create_unary_boxed_u16(s, "params".to_owned()))
}

/// What the `u8`/`u8` binary dispatch hands back: the combined stage for
/// that pair, and a mismatch for every other pair of held variants.
pub open spec fn spec_binary_u8_result<O: CreateBoxedBinaryOperatorInplace<String>>(
    source_a: BoxedRasterOperatorInstance,
    source_b: BoxedRasterOperatorInstance,
    r: Result<RasterOperatorU8, EngineError>,
) -> bool {
    match (source_a, source_b) {
        (BoxedRasterOperatorInstance::U8(a), BoxedRasterOperatorInstance::U8(b)) => r matches Ok(x)
            && x.spec_stream() == O::spec_binary_stream_u8(a.spec_stream(), b.spec_stream()),
        _ => r == Err::<RasterOperatorU8, EngineError>(EngineError::UnsupportedTagCombination),
    }
}

/// Unwraps both instances against `u8` and combines them with `O`'s binary
/// stage.
pub fn create_operator_binary_raster_u8_u8<O: CreateBoxedBinaryOperatorInplace<String>>(
    source_a: BoxedRasterOperatorInstance,
    source_b: BoxedRasterOperatorInstance,
) -> (r: Result<RasterOperatorU8, EngineError>)
    ensures
        spec_binary_u8_result::<O>(source_a, source_b, r),
{
    match (source_a, source_b) {
        (BoxedRasterOperatorInstance::U8(a), BoxedRasterOperatorInstance::U8(b)) => Ok(
            O::create_binary_boxed_u8(a, b, "params".to_owned()),
        ),
        _ => Err(EngineError::UnsupportedTagCombination),
    }
}

/// What the commutative `u16` binary dispatch hands back: for the pairs
/// `(U16, U8)`, `(U8, U16)` and `(U16, U16)` the combined stage — the
/// promoted `u8` side is added into the `u16` side whichever side it stands
/// on — and a failure for every other pair of held variants.
pub open spec fn spec_binary_u16_result<O: CreateBoxedBinaryOperatorInplace<String>>(
    source_a: BoxedRasterOperatorInstance,
    source_b: BoxedRasterOperatorInstance,
    r: Result<RasterOperatorU16, EngineError>,
) -> bool {
    match (source_a, source_b) {
        (BoxedRasterOperatorInstance::U16(a), BoxedRasterOperatorInstance::U8(b)) => r matches Ok(
            x,
        ) && x.spec_stream() == O::spec_binary_stream_u16_u8(a.spec_stream(), b.spec_stream()),
        (BoxedRasterOperatorInstance::U8(a), BoxedRasterOperatorInstance::U16(b)) => r matches Ok(
            x,
        ) && x.spec_stream() == O::spec_binary_stream_u16_u8(b.spec_stream(), a.spec_stream()),
        (BoxedRasterOperatorInstance::U16(a), BoxedRasterOperatorInstance::U16(b)) => r matches Ok(
            x,
        ) && x.spec_stream() == O::spec_binary_stream_u16(a.spec_stream(), b.spec_stream()),
        _ => r == Err::<RasterOperatorU16, EngineError>(EngineError::UnsupportedTagCombination),
    }
}

/// Combines a `u16`-tagged and a `u8`-tagged instance — in either order —
/// or two `u16`-tagged instances with `O`'s binary stage.
pub fn create_operator_binary_raster_u16_x_commutativ<O: CreateBoxedBinaryOperatorInplace<String>>(
    source_a: BoxedRasterOperatorInstance,
    source_b: BoxedRasterOperatorInstance,
) -> (r: Result<RasterOperatorU16, EngineError>)
    ensures
        spec_binary_u16_result::<O>(source_a, source_b, r),
{
    match (source_a, source_b) {
        (BoxedRasterOperatorInstance::U16(a), BoxedRasterOperatorInstance::U8(b)) => Ok(
            O::create_binary_boxed_u16_u8(a, b, "params".to_owned()),
        ),
        (BoxedRasterOperatorInstance::U8(a), BoxedRasterOperatorInstance::U16(b)) => Ok(
            O::create_binary_boxed_u16_u8(b, a, "params".to_owned()),
        ),
        (BoxedRasterOperatorInstance::U16(a), BoxedRasterOperatorInstance::U16(b)) => Ok(
            O::create_binary_boxed_u16(a, b, "params".to_owned()),
        ),
        _ => Err(EngineError::UnsupportedTagCombination),
    }
}

} // verus!
