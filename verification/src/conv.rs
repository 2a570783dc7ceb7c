//! Format-conversion table: abstract pixel formats to native storage.

use vstd::prelude::*;

use crate::types::Format;
use crate::types::FormatDesc;
use crate::types::PixelFormat;
use crate::types::GL_RGBA8;

verus! {

/// The table itself: the two presentable formats store as 8-bit RGBA with an
/// opaque-by-default alpha channel; every other format is unsupported.
pub open spec fn spec_describe_format(format: Format) -> Option<FormatDesc> {
    match format {
        Format::Rgba8Unorm | Format::Bgra8Unorm => Some(FormatDesc {
            tex_internal: GL_RGBA8,
            pixel: PixelFormat {
                color_bits: 24,
                alpha_bits: 8,
                srgb: false,
                double_buffer: true,
                multisampling: None,
            },
        }),
        _ => None,
    }
}

/// Translate an abstract format into its native storage description, or
/// nothing when the format cannot back a presentable image.
pub fn describe_format(format: Format) -> (r: Option<FormatDesc>)
    ensures
        r == spec_describe_format(format),
{
    match format {
        Format::Rgba8Unorm | Format::Bgra8Unorm => Some(FormatDesc {
            tex_internal: GL_RGBA8,
            pixel: PixelFormat {
                color_bits: 24,
                alpha_bits: 8,
                srgb: false,
                double_buffer: true,
                multisampling: None,
            },
        }),
        _ => None,
    }
}

} // verus!
