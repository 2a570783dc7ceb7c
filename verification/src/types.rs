//! Plain data carried between the surface, its caller, and the native context.

use vstd::prelude::*;

verus! {

/// Width and height of a drawable or of a backing store, in pixels.
#[derive(Clone, Copy, Debug, PartialEq, Eq, Structural)]
pub struct Extent2D {
    pub width: u32,
    pub height: u32,
}

/// Abstract pixel formats a caller may ask a swapchain for.
#[derive(Clone, Copy, Debug, PartialEq, Eq, Structural)]
pub enum Format {
    Rgba8Unorm,
    Bgra8Unorm,
    Rgba8Srgb,
    Bgra8Srgb,
    Rgb8Unorm,
}

/// Native storage description of a presentable pixel format.
#[derive(Clone, Copy, Debug, PartialEq, Eq, Structural)]
pub struct PixelFormat {
    pub color_bits: u32,
    pub alpha_bits: u32,
    pub srgb: bool,
    pub double_buffer: bool,
    pub multisampling: Option<u32>,
}

/// What the format-conversion table yields for a supported format: the token
/// the native storage-provisioning call takes, and the descriptor.
#[derive(Clone, Copy, Debug, PartialEq, Eq)]
pub struct FormatDesc {
    pub tex_internal: u32,
    pub pixel: PixelFormat,
}

/// Presentation orderings a surface may offer.
#[derive(Clone, Copy, Debug, PartialEq, Eq, Structural)]
pub enum PresentMode {
    Immediate,
    Mailbox,
    Fifo,
    Relaxed,
}

/// Compositing of the surface's alpha channel with the windowing system.
#[derive(Clone, Copy, Debug, PartialEq, Eq, Structural)]
pub enum CompositeAlpha {
    Opaque,
    PreMultiplied,
    PostMultiplied,
    Inherit,
}

/// Usage bit: the image can be rendered to as a color attachment.
pub const USAGE_COLOR_ATTACHMENT: u32 = 0x10;

/// Usage bit: the image can be the source of a transfer.
pub const USAGE_TRANSFER_SRC: u32 = 0x1;

/// Native token for 8-bit RGBA renderbuffer storage.
pub const GL_RGBA8: u32 = 0x8058;

/// What a surface reports it can do, derived from the drawable's current size.
/// Both ranges are inclusive; the extent range is always collapsed to the
/// drawable's size, since the surface cannot be resized independently of it.
#[derive(Clone, Copy, Debug, PartialEq, Eq)]
pub struct SurfaceCapabilities {
    pub image_count_min: u32,
    pub image_count_max: u32,
    pub current_extent: Option<Extent2D>,
    pub extent_min: Extent2D,
    pub extent_max: Extent2D,
    pub max_image_layers: u16,
    pub usage: u32,
    pub composite_alpha: CompositeAlpha,
}

/// What a caller asks `configure` for.
#[derive(Clone, Copy, Debug, PartialEq, Eq)]
pub struct SwapchainConfig {
    pub format: Format,
    pub extent: Extent2D,
    pub image_count: u32,
    pub usage: u32,
    pub present_mode: PresentMode,
}

/// A presentable view over the surface's current backing store.
#[derive(Clone, Copy, Debug, PartialEq, Eq, Structural)]
pub enum ImageView {
    Renderbuffer(u32),
}

/// Marker that an acquired image no longer matches the drawable; this surface
/// never reports it, since extent mismatches are not detected at acquire time.
#[derive(Clone, Copy, Debug, PartialEq, Eq, Structural)]
pub struct Suboptimal;

/// GPU-side signal accepted by the legacy acquire path for interface
/// compatibility; no synchronization is wired to it.
#[derive(Clone, Copy, Debug, PartialEq, Eq, Structural)]
pub struct Semaphore;

/// CPU-side signal accepted by the legacy acquire path for interface
/// compatibility; no synchronization is wired to it.
#[derive(Clone, Copy, Debug, PartialEq, Eq, Structural)]
pub struct Fence;

/// Opaque queue-family key; the single rendering context serves every family.
#[derive(Clone, Copy, Debug, PartialEq, Eq, Structural)]
pub struct QueueFamily;

/// Swapchain (re)configuration failed.
#[derive(Clone, Copy, Debug, PartialEq, Eq, Structural)]
pub enum CreationError {
    /// The format-conversion table has no native storage for the format.
    UnsupportedFormat,
}

/// Image acquisition was requested with no configured backing store.
#[derive(Clone, Copy, Debug, PartialEq, Eq, Structural)]
pub enum AcquireError {
    NotConfigured,
}

} // verus!
