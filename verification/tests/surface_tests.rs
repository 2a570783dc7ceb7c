use webgl_surface::surface::ConfigurePlan;
use webgl_surface::surface::Surface;
use webgl_surface::surface::Swapchain;
use webgl_surface::types::AcquireError;
use webgl_surface::types::CompositeAlpha;
use webgl_surface::types::CreationError;
use webgl_surface::types::Extent2D;
use webgl_surface::types::Format;
use webgl_surface::types::ImageView;
use webgl_surface::types::PresentMode;
use webgl_surface::types::SwapchainConfig;
use webgl_surface::types::GL_RGBA8;
use webgl_surface::types::USAGE_COLOR_ATTACHMENT;
use webgl_surface::types::USAGE_TRANSFER_SRC;

fn config(format: Format, width: u32, height: u32) -> SwapchainConfig {
    SwapchainConfig {
        format,
        extent: Extent2D { width, height },
        image_count: 2,
        usage: USAGE_COLOR_ATTACHMENT | USAGE_TRANSFER_SRC,
        present_mode: PresentMode::Fifo,
    }
}

/// Plays the caller's part of one configuration: executes the plan with the
/// given handles standing in for what the native context would allocate, and
/// returns the plan for inspection.
fn run_configure(
    surface: &mut Surface,
    c: SwapchainConfig,
    fresh_rbo: u32,
    fresh_fbo: u32,
) -> ConfigurePlan {
    let plan = surface.begin_configure(&c).expect("format must be supported");
    let rbo = plan.reuse_renderbuffer.unwrap_or(fresh_rbo);
    surface.finish_configure(plan.extent, rbo, fresh_fbo);
    plan
}

#[test]
fn capability_query_collapses_extent_to_drawable_size() {
    let surface = Surface::new();
    let (caps, formats, modes) = surface.compatibility(Extent2D { width: 800, height: 600 });
    assert_eq!(caps.image_count_min, 2);
    assert_eq!(caps.image_count_max, 2);
    assert_eq!(caps.current_extent, Some(Extent2D { width: 800, height: 600 }));
    assert_eq!(caps.extent_min, Extent2D { width: 800, height: 600 });
    assert_eq!(caps.extent_max, Extent2D { width: 800, height: 600 });
    assert_eq!(caps.max_image_layers, 1);
    assert_eq!(caps.usage, USAGE_COLOR_ATTACHMENT | USAGE_TRANSFER_SRC);
    assert_eq!(caps.composite_alpha, CompositeAlpha::Opaque);
    assert_eq!(formats, Some(vec![Format::Rgba8Unorm, Format::Bgra8Unorm]));
    assert_eq!(modes, vec![PresentMode::Fifo]);
}

#[test]
fn capability_query_at_largest_drawable() {
    let surface = Surface::new();
    let (caps, _, _) = surface.compatibility(Extent2D { width: u32::MAX, height: u32::MAX });
    assert_eq!(caps.extent_min, Extent2D { width: u32::MAX, height: u32::MAX });
    assert_eq!(caps.extent_max, Extent2D { width: u32::MAX, height: u32::MAX });
}

#[test]
fn acquire_before_configure_fails() {
    let mut surface = Surface::new();
    assert_eq!(surface.acquire_image(0), Err(AcquireError::NotConfigured));
}

#[test]
fn acquire_after_configure_returns_current_renderbuffer() {
    let mut surface = Surface::new();
    let plan = run_configure(&mut surface, config(Format::Rgba8Unorm, 256, 256), 7, 11);
    assert_eq!(plan.dispose_fbos, Vec::<u32>::new());
    assert_eq!(plan.reuse_renderbuffer, None);
    let (image, suboptimal) = surface.acquire_image(1000).expect("configured surface");
    assert_eq!(image, ImageView::Renderbuffer(7));
    assert_eq!(suboptimal, None);
}

#[test]
fn reconfigure_keeps_one_framebuffer_and_reuses_renderbuffer() {
    let mut surface = Surface::new();
    run_configure(&mut surface, config(Format::Rgba8Unorm, 256, 256), 7, 11);
    let plan2 = run_configure(&mut surface, config(Format::Bgra8Unorm, 640, 480), 8, 12);
    // the second call disposes exactly the first framebuffer and reuses the
    // renderbuffer instead of allocating another
    assert_eq!(plan2.dispose_fbos, vec![11]);
    assert_eq!(plan2.reuse_renderbuffer, Some(7));
    let swapchain = surface.swapchain.as_ref().expect("configured");
    assert_eq!(swapchain.extent, Extent2D { width: 640, height: 480 });
    assert_eq!(swapchain.fbos.as_slice(), &[12]);
    assert_eq!(surface.renderbuffer, Some(7));
}

#[test]
fn unconfigure_releases_all_and_query_still_succeeds() {
    let mut surface = Surface::new();
    run_configure(&mut surface, config(Format::Rgba8Unorm, 256, 256), 7, 11);
    run_configure(&mut surface, config(Format::Rgba8Unorm, 512, 512), 8, 12);
    let release = surface.unconfigure();
    assert_eq!(release.fbos, vec![12]);
    assert_eq!(release.renderbuffer, Some(7));
    assert!(surface.swapchain.is_none());
    assert!(surface.renderbuffer.is_none());
    // the drawable is independent of the backing store: the query still works
    let (caps, _, modes) = surface.compatibility(Extent2D { width: 800, height: 600 });
    assert_eq!(caps.current_extent, Some(Extent2D { width: 800, height: 600 }));
    assert_eq!(modes, vec![PresentMode::Fifo]);
}

#[test]
fn unconfigure_twice_is_noop() {
    let mut surface = Surface::new();
    run_configure(&mut surface, config(Format::Rgba8Unorm, 256, 256), 7, 11);
    let first = surface.unconfigure();
    assert_eq!(first.fbos, vec![11]);
    assert_eq!(first.renderbuffer, Some(7));
    let second = surface.unconfigure();
    assert_eq!(second.fbos, Vec::<u32>::new());
    assert_eq!(second.renderbuffer, None);
    assert!(surface.swapchain.is_none());
    assert!(surface.renderbuffer.is_none());
}

#[test]
fn scenario_rgba8_resize() {
    let mut surface = Surface::new();
    let plan1 = run_configure(&mut surface, config(Format::Rgba8Unorm, 512, 512), 3, 21);
    assert_eq!(plan1.internal_format, GL_RGBA8);
    assert_eq!(plan1.extent, Extent2D { width: 512, height: 512 });
    let (image1, _) = surface.acquire_image(0).expect("configured surface");
    assert_eq!(image1, ImageView::Renderbuffer(3));
    assert_eq!(
        surface.swapchain.as_ref().unwrap().extent,
        Extent2D { width: 512, height: 512 }
    );

    let plan2 = run_configure(&mut surface, config(Format::Rgba8Unorm, 1024, 768), 4, 22);
    // the old framebuffer is released and the renderbuffer is reprovisioned
    // at the new extent rather than reallocated
    assert_eq!(plan2.dispose_fbos, vec![21]);
    assert_eq!(plan2.reuse_renderbuffer, Some(3));
    assert_eq!(plan2.internal_format, GL_RGBA8);
    assert_eq!(plan2.extent, Extent2D { width: 1024, height: 768 });
    let (image2, _) = surface.acquire_image(0).expect("configured surface");
    assert_eq!(image2, ImageView::Renderbuffer(3));
    assert_eq!(
        surface.swapchain.as_ref().unwrap().extent,
        Extent2D { width: 1024, height: 768 }
    );
}

#[test]
fn unsupported_format_fails_without_touching_state() {
    let mut surface = Surface::new();
    run_configure(&mut surface, config(Format::Rgba8Unorm, 256, 256), 7, 11);
    let result = surface.begin_configure(&config(Format::Rgba8Srgb, 256, 256));
    assert_eq!(result.err(), Some(CreationError::UnsupportedFormat));
    // nothing was torn down and nothing leaked: the old store is still there
    let swapchain = surface.swapchain.as_ref().expect("still configured");
    assert_eq!(swapchain.fbos.as_slice(), &[11]);
    assert_eq!(surface.renderbuffer, Some(7));
}

#[test]
fn describe_format_exact_values() {
    let desc = webgl_surface::conv::describe_format(Format::Rgba8Unorm).expect("supported");
    assert_eq!(desc.tex_internal, GL_RGBA8);
    assert_eq!(desc.pixel.color_bits, 24);
    assert_eq!(desc.pixel.alpha_bits, 8);
    assert!(!desc.pixel.srgb);
    assert!(desc.pixel.double_buffer);
    assert_eq!(desc.pixel.multisampling, None);
    let bgra = webgl_surface::conv::describe_format(Format::Bgra8Unorm).expect("supported");
    assert_eq!(bgra.tex_internal, GL_RGBA8);
    assert_eq!(webgl_surface::conv::describe_format(Format::Bgra8Srgb), None);
    assert_eq!(webgl_surface::conv::describe_format(Format::Rgb8Unorm), None);
}

#[test]
fn advertised_formats_all_configure() {
    let surface = Surface::new();
    for format in surface.swapchain_formats() {
        let mut fresh = Surface::new();
        let result = fresh.begin_configure(&config(format, 64, 64));
        assert!(result.is_ok());
    }
}

#[test]
fn supports_every_queue_family() {
    let surface = Surface::new();
    assert!(surface.supports_queue_family(&webgl_surface::types::QueueFamily));
}

#[test]
fn legacy_swapchain_acquire_returns_index_zero() {
    let mut fbos = arrayvec::ArrayVec::<u32, 3>::new();
    fbos.push(11);
    let mut swapchain = Swapchain { extent: Extent2D { width: 256, height: 256 }, fbos };
    let (index, suboptimal) = swapchain
        .acquire_image(u64::MAX, None, None)
        .expect("the legacy path never fails");
    assert_eq!(index, 0);
    assert_eq!(suboptimal, None);
    assert_eq!(swapchain.extent, Extent2D { width: 256, height: 256 });
    assert_eq!(swapchain.fbos.as_slice(), &[11]);
}
