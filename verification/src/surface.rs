//! The surface and its backing-store state machine.
//!
//! The surface decides what the native context must do — which framebuffers
//! to release, whether a renderbuffer must be allocated, what storage to
//! provision — and records the resulting state. The caller executes the
//! decisions on its context and hands the allocated handles back:
//!
//! 1. `begin_configure` translates the format, takes the old backing store
//!    apart and returns a [`ConfigurePlan`];
//! 2. the caller releases `dispose_fbos`, allocates a renderbuffer unless the
//!    plan carries one to reuse, provisions its storage with the plan's
//!    internal format and extent, allocates a framebuffer and attaches the
//!    renderbuffer to its color slot;
//! 3. `finish_configure` records the new backing store.
//!
//! `unconfigure` and `acquire_image` need no handles from outside;
//! `unconfigure` returns what the caller must release.

use vstd::prelude::*;

use arrayvec::ArrayVec;

use crate::conv::describe_format;
use crate::conv::spec_describe_format;
use crate::fbo_list::fbo_list_new;
use crate::fbo_list::fbo_list_push;
use crate::fbo_list::fbo_list_to_vec;
use crate::fbo_list::fbo_list_view;
use crate::types::AcquireError;
use crate::types::CompositeAlpha;
use crate::types::CreationError;
use crate::types::Extent2D;
use crate::types::Format;
use crate::types::ImageView;
use crate::types::PresentMode;
use crate::types::QueueFamily;
use crate::types::Suboptimal;
use crate::types::SurfaceCapabilities;
use crate::types::SwapchainConfig;
use crate::types::USAGE_COLOR_ATTACHMENT;
use crate::types::USAGE_TRANSFER_SRC;

verus! {

/// One generation of backing store: the extent it was provisioned with and
/// the framebuffers wired to the renderbuffer — always exactly one.
pub struct Swapchain {
    pub extent: Extent2D,
    pub fbos: ArrayVec<u32, 3>,
}

/// A surface: the current backing store, if any, and the renderbuffer handle,
/// which may outlive a backing-store generation — it is kept across
/// reconfiguration, since reallocating the color buffer is the expensive part
/// and rebuilding the framebuffer wiring is cheap.
pub struct Surface {
    pub swapchain: Option<Swapchain>,
    pub renderbuffer: Option<u32>,
}

/// Mathematical state of one backing-store generation.
pub ghost struct SwapchainView {
    pub extent: Extent2D,
    pub fbos: Seq<u32>,
}

/// Mathematical state of a surface.
pub ghost struct SurfaceView {
    pub swapchain: Option<SwapchainView>,
    pub renderbuffer: Option<u32>,
}

impl View for Swapchain {
    type V = SwapchainView;

    open spec fn view(&self) -> SwapchainView {
        SwapchainView { extent: self.extent, fbos: fbo_list_view(self.fbos) }
    }
}

impl View for Surface {
    type V = SurfaceView;

    open spec fn view(&self) -> SurfaceView {
        SurfaceView {
            swapchain: match self.swapchain {
                Some(sc) => Some(sc@),
                None => None,
            },
            renderbuffer: self.renderbuffer,
        }
    }
}

/// A well-formed surface with a backing store also holds the renderbuffer the
/// store was built on, and the store wires exactly one framebuffer to it.
pub open spec fn view_wf(s: SurfaceView) -> bool {
    s.swapchain matches Some(sc) ==> (s.renderbuffer is Some && sc.fbos.len() == 1)
}

/// The framebuffers the surface's current backing store holds, if any.
pub open spec fn attached_fbos(s: SurfaceView) -> Seq<u32> {
    match s.swapchain {
        Some(sc) => sc.fbos,
        None => Seq::empty(),
    }
}

/// What `begin_configure` hands the caller to execute on the native context,
/// in this order: release `dispose_fbos`; allocate a renderbuffer unless
/// `reuse_renderbuffer` carries one; bind it and provision its storage with
/// `internal_format` at `extent`; allocate a framebuffer, bind it as the read
/// target and attach the renderbuffer to its color slot 0.
pub struct ConfigurePlan {
    pub dispose_fbos: Vec<u32>,
    pub reuse_renderbuffer: Option<u32>,
    pub internal_format: u32,
    pub extent: Extent2D,
}

/// Mathematical content of a [`ConfigurePlan`].
pub ghost struct ConfigurePlanView {
    pub dispose_fbos: Seq<u32>,
    pub reuse_renderbuffer: Option<u32>,
    pub internal_format: u32,
    pub extent: Extent2D,
}

impl View for ConfigurePlan {
    type V = ConfigurePlanView;

    open spec fn view(&self) -> ConfigurePlanView {
        ConfigurePlanView {
            dispose_fbos: self.dispose_fbos@,
            reuse_renderbuffer: self.reuse_renderbuffer,
            internal_format: self.internal_format,
            extent: self.extent,
        }
    }
}

/// What `unconfigure` hands the caller to release on the native context:
/// the framebuffers first, then the renderbuffer.
pub struct ReleasePlan {
    pub fbos: Vec<u32>,
    pub renderbuffer: Option<u32>,
}

/// Mathematical content of a [`ReleasePlan`].
pub ghost struct ReleasePlanView {
    pub fbos: Seq<u32>,
    pub renderbuffer: Option<u32>,
}

impl View for ReleasePlan {
    type V = ReleasePlanView;

    open spec fn view(&self) -> ReleasePlanView {
        ReleasePlanView { fbos: self.fbos@, renderbuffer: self.renderbuffer }
    }
}

/// State and plan after the first configuration phase: on a supported format,
/// the old backing store is taken apart (its framebuffers move into the plan)
/// and the renderbuffer is kept for reuse; on an unsupported one, the state is
/// left as it was and nothing is released.
pub open spec fn spec_begin_configure(s: SurfaceView, config: SwapchainConfig) -> (
    SurfaceView,
    Result<ConfigurePlanView, CreationError>,
) {
    match spec_describe_format(config.format) {
        Some(desc) => (
            SurfaceView { swapchain: None, renderbuffer: s.renderbuffer },
            Ok(
                ConfigurePlanView {
                    dispose_fbos: attached_fbos(s),
                    reuse_renderbuffer: s.renderbuffer,
                    internal_format: desc.tex_internal,
                    extent: config.extent,
                },
            ),
        ),
        None => (s, Err(CreationError::UnsupportedFormat)),
    }
}

/// State after the second configuration phase: the surface holds the
/// renderbuffer and a backing store of the given extent wiring exactly the
/// one framebuffer.
pub open spec fn spec_finish_configure(
    s: SurfaceView,
    extent: Extent2D,
    rbo: u32,
    fbo: u32,
) -> SurfaceView {
    SurfaceView {
        swapchain: Some(SwapchainView { extent, fbos: seq![fbo] }),
        renderbuffer: Some(rbo),
    }
}

/// The renderbuffer a configuration ends up on: the surface's existing one,
/// or the freshly allocated one where none exists.
pub open spec fn chosen_renderbuffer(s: SurfaceView, fresh_rbo: u32) -> u32 {
    match s.renderbuffer {
        Some(r) => r,
        None => fresh_rbo,
    }
}

/// A configuration allocates a renderbuffer if and only if the surface holds
/// none; an existing one is reused and only its storage is reprovisioned.
pub open spec fn configure_allocates_renderbuffer(s: SurfaceView) -> bool {
    s.renderbuffer is None
}

/// A whole configuration step, both phases composed with a faithful caller:
/// the state after, the framebuffers released, and the result. `fresh_rbo`
/// and `fresh_fbo` are the handles the native context would return for the
/// allocations the plan calls for; `fresh_rbo` is used only when
/// `configure_allocates_renderbuffer` holds.
pub open spec fn spec_configure(
    s: SurfaceView,
    config: SwapchainConfig,
    fresh_rbo: u32,
    fresh_fbo: u32,
) -> (SurfaceView, Seq<u32>, Result<(), CreationError>) {
    if spec_describe_format(config.format) is Some {
        (
            spec_finish_configure(s, config.extent, chosen_renderbuffer(s, fresh_rbo), fresh_fbo),
            attached_fbos(s),
            Ok(()),
        )
    } else {
        (s, Seq::empty(), Err(CreationError::UnsupportedFormat))
    }
}

/// State and release plan after teardown: both holdings cleared, everything
/// held handed over for release.
pub open spec fn spec_unconfigure(s: SurfaceView) -> (SurfaceView, ReleasePlanView) {
    (
        SurfaceView { swapchain: None, renderbuffer: None },
        ReleasePlanView { fbos: attached_fbos(s), renderbuffer: s.renderbuffer },
    )
}

/// What acquiring the next image returns: the view over the current
/// renderbuffer — never suboptimal, since extent mismatches are not detected
/// at acquire time — or the error where no backing store is configured.
pub open spec fn spec_acquire(s: SurfaceView) -> Result<
    (ImageView, Option<Suboptimal>),
    AcquireError,
> {
    match (s.swapchain, s.renderbuffer) {
        (Some(_), Some(r)) => Ok((ImageView::Renderbuffer(r), None)),
        _ => Err(AcquireError::NotConfigured),
    }
}

/// The capabilities a drawable of the given size yields: a conceptual double
/// buffer (image count fixed at two), the extent range collapsed to the
/// drawable's size, one layer, color-attachment and transfer-source usage,
/// opaque compositing.
pub open spec fn spec_capabilities(extent: Extent2D) -> SurfaceCapabilities {
    SurfaceCapabilities {
        image_count_min: 2,
        image_count_max: 2,
        current_extent: Some(extent),
        extent_min: extent,
        extent_max: extent,
        max_image_layers: 1,
        usage: USAGE_COLOR_ATTACHMENT | USAGE_TRANSFER_SRC,
        composite_alpha: CompositeAlpha::Opaque,
    }
}

impl Surface {
    /// A well-formed surface; every operation preserves this.
    pub open spec fn wf(&self) -> bool {
        view_wf(self@)
    }

    /// A fresh surface: nothing configured, nothing allocated.
    pub fn new() -> (s: Surface)
        ensures
            s.wf(),
            s@.swapchain is None,
            s@.renderbuffer is None,
    {
        Surface { swapchain: None, renderbuffer: None }
    }

    /// The formats this surface can present.
    pub fn swapchain_formats(&self) -> (r: Vec<Format>)
        ensures
            r@ == seq![Format::Rgba8Unorm, Format::Bgra8Unorm],
    {
        let mut formats: Vec<Format> = Vec::new();
        formats.push(Format::Rgba8Unorm);
        formats.push(Format::Bgra8Unorm);
        proof {
            assert(formats@ =~= seq![Format::Rgba8Unorm, Format::Bgra8Unorm]);
        }
        formats
    }

    /// Capability query: what the surface supports on a drawable of the given
    /// current size. Derived on demand and never cached, since the hosting
    /// environment may resize the drawable; independent of any backing store,
    /// so it succeeds configured or not.
    pub fn compatibility(&self, drawable_extent: Extent2D) -> (r: (
        SurfaceCapabilities,
        Option<Vec<Format>>,
        Vec<PresentMode>,
    ))
        ensures
            r.0 == spec_capabilities(drawable_extent),
            r.1 matches Some(formats) && formats@ == seq![
                Format::Rgba8Unorm,
                Format::Bgra8Unorm,
            ],
            r.2@ == seq![PresentMode::Fifo],
    {
        let caps = SurfaceCapabilities {
            image_count_min: 2,
            image_count_max: 2,
            current_extent: Some(drawable_extent),
            extent_min: drawable_extent,
            extent_max: drawable_extent,
            max_image_layers: 1,
            usage: USAGE_COLOR_ATTACHMENT | USAGE_TRANSFER_SRC,
            composite_alpha: CompositeAlpha::Opaque,
        };
        let mut present_modes: Vec<PresentMode> = Vec::new();
        present_modes.push(PresentMode::Fifo);
        proof {
            assert(present_modes@ =~= seq![PresentMode::Fifo]);
        }
        (caps, Some(self.swapchain_formats()), present_modes)
    }

    /// The single rendering context serves every queue family.
    pub fn supports_queue_family(&self, _family: &QueueFamily) -> (r: bool)
        ensures
            r,
    {
        true
    }

    /// First configuration phase: translate the format, and on success take
    /// the old backing store apart and return the plan of native calls. On an
    /// unsupported format nothing changes and nothing is released.
    pub fn begin_configure(&mut self, config: &SwapchainConfig) -> (r: Result<
        ConfigurePlan,
        CreationError,
    >)
        requires
            old(self).wf(),
        ensures
            final(self).wf(),
            final(self)@.renderbuffer == old(self)@.renderbuffer,
            (match r {
                Ok(plan) => spec_begin_configure(old(self)@, *config) == (
                    final(self)@,
                    Ok::<ConfigurePlanView, CreationError>(plan@),
                ),
                Err(e) => {
                    &&& spec_begin_configure(old(self)@, *config) == (
                        final(self)@,
                        Err::<ConfigurePlanView, CreationError>(e),
                    )
                    &&& final(self)@ == old(self)@
                },
            }),
    {
        let desc = match describe_format(config.format) {
            Some(desc) => desc,
            None => {
                return Err(CreationError::UnsupportedFormat);
            },
        };
        let dispose_fbos: Vec<u32> = match self.swapchain.take() {
            Some(old_swapchain) => fbo_list_to_vec(&old_swapchain.fbos),
            None => Vec::new(),
        };
        Ok(
            ConfigurePlan {
                dispose_fbos,
                reuse_renderbuffer: self.renderbuffer,
                internal_format: desc.tex_internal,
                extent: config.extent,
            },
        )
    }

    /// Second configuration phase: record the new backing store. `rbo` is the
    /// renderbuffer the storage was provisioned on — the surface's own where
    /// it held one — and `fbo` the freshly allocated framebuffer it is
    /// attached to.
    pub fn finish_configure(&mut self, extent: Extent2D, rbo: u32, fbo: u32)
        requires
            old(self).wf(),
            old(self)@.swapchain is None,
            old(self)@.renderbuffer matches Some(existing) ==> rbo == existing,
        ensures
            final(self).wf(),
            final(self)@ == spec_finish_configure(old(self)@, extent, rbo, fbo),
    {
        let mut fbos = fbo_list_new();
        fbo_list_push(&mut fbos, fbo);
        proof {
            assert(fbo_list_view(fbos) =~= seq![fbo]);
        }
        self.renderbuffer = Some(rbo);
        self.swapchain = Some(Swapchain { extent, fbos });
    }

    /// Teardown: clear both holdings and hand everything held to the caller
    /// for release — the framebuffers first, then the renderbuffer. Idempotent:
    /// on an unconfigured surface the returned plan is empty.
    pub fn unconfigure(&mut self) -> (r: ReleasePlan)
        requires
            old(self).wf(),
        ensures
            final(self).wf(),
            final(self)@ == spec_unconfigure(old(self)@).0,
            r@ == spec_unconfigure(old(self)@).1,
    {
        let fbos: Vec<u32> = match self.swapchain.take() {
            Some(old_swapchain) => fbo_list_to_vec(&old_swapchain.fbos),
            None => Vec::new(),
        };
        let renderbuffer = self.renderbuffer.take();
        ReleasePlan { fbos, renderbuffer }
    }

    /// Hand out a view over the current backing store. The timeout is
    /// accepted and ignored: the single buffer is always immediately
    /// available, so nothing can be waited for. Fails if and only if no
    /// backing store is configured.
    pub fn acquire_image(&mut self, _timeout_ns: u64) -> (r: Result<
        (ImageView, Option<Suboptimal>),
        AcquireError,
    >)
        requires
            old(self).wf(),
        ensures
            final(self).wf(),
            final(self)@ == old(self)@,
            r == spec_acquire(old(self)@),
    {
        match (&self.swapchain, self.renderbuffer) {
            (Some(_), Some(rbo)) => Ok((ImageView::Renderbuffer(rbo), None)),
            _ => Err(AcquireError::NotConfigured),
        }
    }
}

impl Swapchain {
    /// Legacy fixed-image-count acquire: unconditionally image index 0, never
    /// suboptimal. The semaphore and fence are accepted for interface
    /// compatibility and ignored — the single buffer needs no GPU-side
    /// signaling; presentation and rendering are serialized by the caller.
    pub fn acquire_image(
        &mut self,
        _timeout_ns: u64,
        _semaphore: Option<&crate::types::Semaphore>,
        _fence: Option<&crate::types::Fence>,
    ) -> (r: Result<(u32, Option<Suboptimal>), AcquireError>)
        ensures
            final(self)@ == old(self)@,
            r == Ok::<(u32, Option<Suboptimal>), AcquireError>((0u32, None)),
    {
        Ok((0, None))
    }
}

} // verus!
