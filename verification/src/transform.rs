//! Transform palette identifiers handed to shaders: an index into the
//! palette plus property flags packed into one 32-bit value.
//!
//! Unset bits, not set bits, denote the properties, so that the identity
//! transform's identifier stays zero.

use vstd::prelude::*;

verus! {

/// If *not* set in an identifier, the transform is 2d axis-aligned.
pub const AXIS_ALIGNED_2D_BIT: u32 = 0x0080_0000;

/// If *not* set in an identifier, the transform can be represented as a 2d
/// scale + offset.
pub const SCALE_OFFSET_2D_BIT: u32 = 0x0040_0000;

/// The bits of an identifier that hold the palette index.
pub const INDEX_MASK: u32 = 0x003f_ffff;

/// How a transform maps an axis-aligned rectangle.
#[derive(Debug, Clone, Copy, PartialEq, Eq, Structural)]
pub enum TransformedRectKind {
    /// The result is still axis-aligned.
    AxisAligned,
    /// The result need not be axis-aligned.
    Complex,
}

/// The bit a transform kind contributes at the axis-aligned flag position.
pub open spec fn spec_kind_value(kind: TransformedRectKind) -> u32 {
    match kind {
        TransformedRectKind::AxisAligned => 0u32,
        TransformedRectKind::Complex => 1u32,
    }
}

/// Information about a transform palette entry that is passed to shaders: an
/// index into the transform palette and a set of flags.
#[derive(Debug, Clone, Copy, PartialEq, Eq, Structural)]
pub struct GpuTransformId(pub u32);

impl GpuTransformId {
    /// Identity transform ID: index zero, no flag bits, so both properties
    /// read as holding.
    pub fn identity() -> (r: GpuTransformId)
        ensures
            r.0 == 0,
    {
        GpuTransformId(0)
    }

    /// Extract the transform kind from the id.
    pub fn transform_kind(&self) -> (k: TransformedRectKind)
        ensures
            k == (if self.0 & AXIS_ALIGNED_2D_BIT == 0 {
                TransformedRectKind::AxisAligned
            } else {
                TransformedRectKind::Complex
            }),
    {
        if self.0 & AXIS_ALIGNED_2D_BIT == 0 {
            TransformedRectKind::AxisAligned
        } else {
            TransformedRectKind::Complex
        }
    }

    /// Whether the transform preserves 2d axis-alignment. There are
    /// transformations that preserve axis-alignment without being scale +
    /// offsets.
    pub fn is_2d_axis_aligned(&self) -> (r: bool)
        ensures
            r == (self.0 & AXIS_ALIGNED_2D_BIT == 0),
    {
        self.0 & AXIS_ALIGNED_2D_BIT == 0
    }

    /// Whether the transform can be represented by a 2d scale + offset.
    pub fn is_2d_scale_offset(&self) -> (r: bool)
        ensures
            r == (self.0 & SCALE_OFFSET_2D_BIT == 0),
    {
        self.0 & SCALE_OFFSET_2D_BIT == 0
    }

    /// The properties the identifier's flag bits record.
    pub fn metadata(&self) -> (m: TransformMetadata)
        ensures
            m.is_2d_axis_aligned == (self.0 & AXIS_ALIGNED_2D_BIT == 0),
            m.is_2d_scale_offset == (self.0 & SCALE_OFFSET_2D_BIT == 0),
    {
        TransformMetadata {
            is_2d_axis_aligned: self.is_2d_axis_aligned(),
            is_2d_scale_offset: self.is_2d_scale_offset(),
        }
    }

    /// Override the kind of transform stored in this id, keeping only the
    /// axis-aligned flag position. This is useful where shaders must not
    /// consider certain transforms axis-aligned (a perspective warp) even
    /// though the general case would.
    pub fn override_transform_kind(&self, kind: TransformedRectKind) -> (r: Self)
        ensures
            r.0 == (self.0 & AXIS_ALIGNED_2D_BIT) | (spec_kind_value(kind) << 23u32),
    {
        let kind_value: u32 = match kind {
            TransformedRectKind::AxisAligned => 0,
            TransformedRectKind::Complex => 1,
        };
        GpuTransformId((self.0 & AXIS_ALIGNED_2D_BIT) | (kind_value << 23u32))
    }
}

/// Extra data stored about each transform palette entry.
#[derive(Debug, Clone, Copy, PartialEq, Eq, Structural)]
pub struct TransformMetadata {
    /// The transform preserves 2d axis-alignment.
    pub is_2d_axis_aligned: bool,
    /// The transform is a 2d scale + offset.
    pub is_2d_scale_offset: bool,
}

/// The flag bits an entry's properties contribute to its identifier: a bit
/// is set exactly where a property does *not* hold.
pub open spec fn spec_metadata_flags(m: TransformMetadata) -> u32 {
    (if !m.is_2d_axis_aligned {
        AXIS_ALIGNED_2D_BIT
    } else {
        0u32
    }) | (if !m.is_2d_scale_offset {
        SCALE_OFFSET_2D_BIT
    } else {
        0u32
    })
}

impl TransformMetadata {
    /// The placeholder entry: both properties claimed, contributing no flag
    /// bits.
    pub fn invalid() -> (m: Self)
        ensures
            m.is_2d_axis_aligned == true,
            m.is_2d_scale_offset == true,
    {
        TransformMetadata { is_2d_axis_aligned: true, is_2d_scale_offset: true }
    }

    /// The flag bits this entry contributes to its identifier.
    pub fn flags(&self) -> (r: u32)
        ensures
            r == spec_metadata_flags(*self),
    {
        let aligned_bit: u32 = if !self.is_2d_axis_aligned {
            AXIS_ALIGNED_2D_BIT
        } else {
            0
        };
        let scale_bit: u32 = if !self.is_2d_scale_offset {
            SCALE_OFFSET_2D_BIT
        } else {
            0
        };
        aligned_bit | scale_bit
    }
}

} // verus!
