//! The closed set of raster element types and the trait connecting the
//! primitive element types to their tags.

use vstd::prelude::*;

verus! {

/// The tag for the element type of a raster.  The set is closed: every
/// operator kind dispatches over exactly these nine tags.
#[derive(Debug, Clone, Copy, PartialEq, Eq, Structural)]
pub enum RasterType {
    U8,
    U16,
    U32,
    U64,
    I16,
    I32,
    I64,
    F32,
    F64,
}

/// Connects a primitive element type to its `RasterType` tag and provides
/// the element operations the shipped operators need: the default element
/// for stand-in sources, and wrapping increment/addition for the transform
/// operators.
pub trait StaticRasterType: Copy {
    /// The tag this element type belongs to.
    spec fn spec_raster_type() -> RasterType;

    /// Executable access to the tag.
    fn raster_type() -> (t: RasterType)
        ensures
            t == Self::spec_raster_type(),
    ;

    /// The default element, used by stand-in sources.
    spec fn spec_default_element() -> Self;

    fn default_element() -> (v: Self)
        ensures
            v == Self::spec_default_element(),
    ;

    /// The element increased by one, wrapping at the type's bounds.
    spec fn spec_inc(self) -> Self;

    fn inc(self) -> (r: Self)
        ensures
            r == self.spec_inc(),
    ;

    /// The sum of two elements, wrapping at the type's bounds.
    spec fn spec_add_element(self, other: Self) -> Self;

    fn add_element(self, other: Self) -> (r: Self)
        ensures
            r == self.spec_add_element(other),
    ;
}

impl StaticRasterType for u8 {
    open spec fn spec_raster_type() -> RasterType {
        RasterType::U8
    }

    fn raster_type() -> RasterType {
        RasterType::U8
    }

    open spec fn spec_default_element() -> u8 {
        0u8
    }

    fn default_element() -> u8 {
        0u8
    }

    open spec fn spec_inc(self) -> u8 {
        if self == u8::MAX {
            0u8
        } else {
            (self + 1) as u8
        }
    }

    fn inc(self) -> u8 {
        self.wrapping_add(1u8)
    }

    open spec fn spec_add_element(self, other: u8) -> u8 {
        if self + other > u8::MAX {
            (self + other - 0x100) as u8
        } else {
            (self + other) as u8
        }
    }

    fn add_element(self, other: u8) -> u8 {
        self.wrapping_add(other)
    }
}

impl StaticRasterType for u16 {
    open spec fn spec_raster_type() -> RasterType {
        RasterType::U16
    }

    fn raster_type() -> RasterType {
        RasterType::U16
    }

    open spec fn spec_default_element() -> u16 {
        0u16
    }

    fn default_element() -> u16 {
        0u16
    }

    open spec fn spec_inc(self) -> u16 {
        if self == u16::MAX {
            0u16
        } else {
            (self + 1) as u16
        }
    }

    fn inc(self) -> u16 {
        self.wrapping_add(1u16)
    }

    open spec fn spec_add_element(self, other: u16) -> u16 {
        if self + other > u16::MAX {
            (self + other - 0x1_0000) as u16
        } else {
            (self + other) as u16
        }
    }

    fn add_element(self, other: u16) -> u16 {
        self.wrapping_add(other)
    }
}

impl StaticRasterType for u32 {
    open spec fn spec_raster_type() -> RasterType {
        RasterType::U32
    }

    fn raster_type() -> RasterType {
        RasterType::U32
    }

    open spec fn spec_default_element() -> u32 {
        0u32
    }

    fn default_element() -> u32 {
        0u32
    }

    open spec fn spec_inc(self) -> u32 {
        if self == u32::MAX {
            0u32
        } else {
            (self + 1) as u32
        }
    }

    fn inc(self) -> u32 {
        self.wrapping_add(1u32)
    }

    open spec fn spec_add_element(self, other: u32) -> u32 {
        if self + other > u32::MAX {
            (self + other - 0x1_0000_0000) as u32
        } else {
            (self + other) as u32
        }
    }

    fn add_element(self, other: u32) -> u32 {
        self.wrapping_add(other)
    }
}

impl StaticRasterType for u64 {
    open spec fn spec_raster_type() -> RasterType {
        RasterType::U64
    }

    fn raster_type() -> RasterType {
        RasterType::U64
    }

    open spec fn spec_default_element() -> u64 {
        0u64
    }

    fn default_element() -> u64 {
        0u64
    }

    open spec fn spec_inc(self) -> u64 {
        if self == u64::MAX {
            0u64
        } else {
            (self + 1) as u64
        }
    }

    fn inc(self) -> u64 {
        self.wrapping_add(1u64)
    }

    open spec fn spec_add_element(self, other: u64) -> u64 {
        if self + other > u64::MAX {
            (self + other - 0x1_0000_0000_0000_0000) as u64
        } else {
            (self + other) as u64
        }
    }

    fn add_element(self, other: u64) -> u64 {
        self.wrapping_add(other)
    }
}

impl StaticRasterType for i16 {
    open spec fn spec_raster_type() -> RasterType {
        RasterType::I16
    }

    fn raster_type() -> RasterType {
        RasterType::I16
    }

    open spec fn spec_default_element() -> i16 {
        0i16
    }

    fn default_element() -> i16 {
        0i16
    }

    open spec fn spec_inc(self) -> i16 {
        if self == i16::MAX {
            i16::MIN
        } else {
            (self + 1) as i16
        }
    }

    fn inc(self) -> i16 {
        self.wrapping_add(1i16)
    }

    open spec fn spec_add_element(self, other: i16) -> i16 {
        if self + other > i16::MAX {
            (self + other - 0x1_0000) as i16
        } else if self + other < i16::MIN {
            (self + other + 0x1_0000) as i16
        } else {
            (self + other) as i16
        }
    }

    fn add_element(self, other: i16) -> i16 {
        self.wrapping_add(other)
    }
}

impl StaticRasterType for i32 {
    open spec fn spec_raster_type() -> RasterType {
        RasterType::I32
    }

    fn raster_type() -> RasterType {
        RasterType::I32
    }

    open spec fn spec_default_element() -> i32 {
        0i32
    }

    fn default_element() -> i32 {
        0i32
    }

    open spec fn spec_inc(self) -> i32 {
        if self == i32::MAX {
            i32::MIN
        } else {
            (self + 1) as i32
        }
    }

    fn inc(self) -> i32 {
        self.wrapping_add(1i32)
    }

    open spec fn spec_add_element(self, other: i32) -> i32 {
        if self + other > i32::MAX {
            (self + other - 0x1_0000_0000) as i32
        } else if self + other < i32::MIN {
            (self + other + 0x1_0000_0000) as i32
        } else {
            (self + other) as i32
        }
    }

    fn add_element(self, other: i32) -> i32 {
        self.wrapping_add(other)
    }
}

impl StaticRasterType for i64 {
    open spec fn spec_raster_type() -> RasterType {
        RasterType::I64
    }

    fn raster_type() -> RasterType {
        RasterType::I64
    }

    open spec fn spec_default_element() -> i64 {
        0i64
    }

    fn default_element() -> i64 {
        0i64
    }

    open spec fn spec_inc(self) -> i64 {
        if self == i64::MAX {
            i64::MIN
        } else {
            (self + 1) as i64
        }
    }

    fn inc(self) -> i64 {
        self.wrapping_add(1i64)
    }

    open spec fn spec_add_element(self, other: i64) -> i64 {
        if self + other > i64::MAX {
            (self + other - 0x1_0000_0000_0000_0000) as i64
        } else if self + other < i64::MIN {
            (self + other + 0x1_0000_0000_0000_0000) as i64
        } else {
            (self + other) as i64
        }
    }

    fn add_element(self, other: i64) -> i64 {
        self.wrapping_add(other)
    }
}

/// The widening conversions registered for the combine operator: an element
/// promotes to a wider type without changing its value.
pub trait Promote<W>: Copy {
    /// The promoted element.
    spec fn spec_promote(self) -> W;

    fn promote(self) -> (w: W)
        ensures
            w == self.spec_promote(),
    ;
}

impl Promote<u8> for u8 {
    open spec fn spec_promote(self) -> u8 {
        self
    }

    fn promote(self) -> u8 {
        self
    }
}

impl Promote<u16> for u16 {
    open spec fn spec_promote(self) -> u16 {
        self
    }

    fn promote(self) -> u16 {
        self
    }
}

impl Promote<u16> for u8 {
    open spec fn spec_promote(self) -> u16 {
        self as u16
    }

    fn promote(self) -> u16 {
        self as u16
    }
}

} // verus!
