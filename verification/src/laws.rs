//! Laws of the surface: what holds of every sequence of operations.
//!
//! The exec methods of [`crate::surface::Surface`] ensure that state, plans
//! and results equal the spec transitions `spec_begin_configure`,
//! `spec_finish_configure`, `spec_configure`, `spec_unconfigure` and
//! `spec_acquire`; the laws here are therefore stated and proved over those
//! transitions.

use vstd::prelude::*;

use vstd::multiset::Multiset;

use crate::conv::spec_describe_format;
use crate::surface::attached_fbos;
use crate::surface::chosen_renderbuffer;
use crate::surface::configure_allocates_renderbuffer;
use crate::surface::spec_acquire;
use crate::surface::spec_begin_configure;
use crate::surface::spec_configure;
use crate::surface::spec_finish_configure;
use crate::surface::spec_unconfigure;
use crate::surface::view_wf;
use crate::surface::SurfaceView;
use crate::surface::SwapchainView;
use crate::types::AcquireError;
use crate::types::CreationError;
use crate::types::Format;
use crate::types::ImageView;
use crate::types::Suboptimal;
use crate::types::SwapchainConfig;

verus! {

/// The native objects a surface state holds: its backing store's framebuffers
/// and its renderbuffer, as sets of handles.
pub ghost struct LiveObjects {
    pub fbos: Set<u32>,
    pub rbos: Set<u32>,
}

/// The handles a surface state keeps alive.
pub open spec fn live_objects(s: SurfaceView) -> LiveObjects {
    LiveObjects {
        fbos: attached_fbos(s).to_set(),
        rbos: match s.renderbuffer {
            Some(r) => Set::empty().insert(r),
            None => Set::empty(),
        },
    }
}

/// Law: the two configuration phases, executed by a faithful caller —
/// releasing the plan's framebuffers, allocating a renderbuffer exactly where
/// the plan carries none to reuse, then recording what was built — are
/// together the one-step transition `spec_configure`, on success and on
/// failure alike.
pub proof fn lemma_phases_implement_configure(
    s: SurfaceView,
    config: SwapchainConfig,
    fresh_rbo: u32,
    fresh_fbo: u32,
)
    ensures
        ({
            let (s1, plan_result) = spec_begin_configure(s, config);
            match plan_result {
                Ok(plan) => {
                    let rbo = match plan.reuse_renderbuffer {
                        Some(r) => r,
                        None => fresh_rbo,
                    };
                    spec_configure(s, config, fresh_rbo, fresh_fbo) == (
                        spec_finish_configure(s1, plan.extent, rbo, fresh_fbo),
                        plan.dispose_fbos,
                        Ok::<(), CreationError>(()),
                    )
                },
                Err(e) => spec_configure(s, config, fresh_rbo, fresh_fbo) == (
                    s1,
                    Seq::<u32>::empty(),
                    Err::<(), CreationError>(e),
                ),
            }
        }),
{
}

/// Law: resources do not accumulate across reconfiguration. From any state,
/// configuring twice with supported formats leaves a backing store of the
/// second extent; the second call releases exactly the first call's
/// framebuffer and allocates no renderbuffer, and afterwards exactly one
/// framebuffer — the second fresh one — and exactly one renderbuffer — the
/// one the first call settled on, reused — are live, however many calls
/// preceded.
pub proof fn lemma_reconfigure_no_accumulation(
    s0: SurfaceView,
    c1: SwapchainConfig,
    c2: SwapchainConfig,
    rbo1: u32,
    fbo1: u32,
    rbo2: u32,
    fbo2: u32,
)
    requires
        spec_describe_format(c1.format) is Some,
        spec_describe_format(c2.format) is Some,
    ensures
        ({
            let (s1, disposed1, result1) = spec_configure(s0, c1, rbo1, fbo1);
            let (s2, disposed2, result2) = spec_configure(s1, c2, rbo2, fbo2);
            let rbo = chosen_renderbuffer(s0, rbo1);
            &&& result1 is Ok
            &&& result2 is Ok
            &&& disposed1 == attached_fbos(s0)
            &&& disposed2 == seq![fbo1]
            &&& !configure_allocates_renderbuffer(s1)
            &&& s2.swapchain == Some(SwapchainView { extent: c2.extent, fbos: seq![fbo2] })
            &&& s2.renderbuffer == Some(rbo)
            &&& live_objects(s2).fbos =~= Set::empty().insert(fbo2)
            &&& live_objects(s2).fbos.len() == 1
            &&& live_objects(s2).rbos =~= Set::empty().insert(rbo)
            &&& live_objects(s2).rbos.len() == 1
        }),
{
    let (s1, disposed1, result1) = spec_configure(s0, c1, rbo1, fbo1);
    let (s2, disposed2, result2) = spec_configure(s1, c2, rbo2, fbo2);
    let rbo = chosen_renderbuffer(s0, rbo1);
    assert(attached_fbos(s1) =~= seq![fbo1]);
    assert(attached_fbos(s2) =~= seq![fbo2]);
    assert(live_objects(s2).fbos =~= Set::empty().insert(fbo2)) by {
        assert(seq![fbo2].to_set() =~= Set::empty().insert(fbo2)) by {
            assert forall|x: u32| seq![fbo2].to_set().contains(x) <==> x == fbo2 by {
                if x == fbo2 {
                    assert(seq![fbo2][0] == x);
                }
            }
        }
    }
    assert(live_objects(s2).fbos.len() == 1) by {
        assert(Set::<u32>::empty().insert(fbo2).len() == 1);
    }
    assert(live_objects(s2).rbos.len() == 1) by {
        assert(Set::<u32>::empty().insert(rbo).len() == 1);
    }
}

/// One configure call of a history: the configuration asked for, and the two
/// handles the native context would hand back for the allocations the call's
/// plan asks it to make.
pub ghost struct ConfigureCall {
    pub config: SwapchainConfig,
    pub fresh_rbo: u32,
    pub fresh_fbo: u32,
}

/// The surface state a history of configure calls ends in.
pub open spec fn state_after(s0: SurfaceView, calls: Seq<ConfigureCall>) -> SurfaceView
    decreases calls.len(),
{
    if calls.len() == 0 {
        s0
    } else {
        let c = calls.last();
        spec_configure(state_after(s0, calls.drop_last()), c.config, c.fresh_rbo, c.fresh_fbo).0
    }
}

/// The framebuffers a history allocates, with multiplicity: one per
/// successful call.
pub open spec fn fbos_created(s0: SurfaceView, calls: Seq<ConfigureCall>) -> Multiset<u32>
    decreases calls.len(),
{
    if calls.len() == 0 {
        Multiset::empty()
    } else {
        let c = calls.last();
        let earlier = fbos_created(s0, calls.drop_last());
        if spec_describe_format(c.config.format) is Some {
            earlier.insert(c.fresh_fbo)
        } else {
            earlier
        }
    }
}

/// The framebuffers a history releases, with multiplicity: each call disposes
/// of what the state before it had attached.
pub open spec fn fbos_disposed(s0: SurfaceView, calls: Seq<ConfigureCall>) -> Multiset<u32>
    decreases calls.len(),
{
    if calls.len() == 0 {
        Multiset::empty()
    } else {
        let c = calls.last();
        let prev = state_after(s0, calls.drop_last());
        fbos_disposed(s0, calls.drop_last()).add(
            spec_configure(prev, c.config, c.fresh_rbo, c.fresh_fbo).1.to_multiset(),
        )
    }
}

/// The renderbuffers a history allocates, with multiplicity: one per
/// successful call on a surface that holds none.
pub open spec fn rbos_created(s0: SurfaceView, calls: Seq<ConfigureCall>) -> Multiset<u32>
    decreases calls.len(),
{
    if calls.len() == 0 {
        Multiset::empty()
    } else {
        let c = calls.last();
        let prev = state_after(s0, calls.drop_last());
        let earlier = rbos_created(s0, calls.drop_last());
        if spec_describe_format(c.config.format) is Some && configure_allocates_renderbuffer(
            prev,
        ) {
            earlier.insert(c.fresh_rbo)
        } else {
            earlier
        }
    }
}

/// Law: every allocate is paired with exactly one release over the surface's
/// lifetime. Over any history of configure calls on a fresh surface, the
/// framebuffers allocated are exactly those the calls disposed of plus those
/// the final state still holds, and the renderbuffers allocated are at most
/// one — exactly the one the final state holds, since configure never
/// discards a renderbuffer. With `lemma_unconfigure_releases_all`, the final
/// teardown releases precisely what the state holds, closing the accounting.
pub proof fn lemma_allocate_release_pairing(s0: SurfaceView, calls: Seq<ConfigureCall>)
    requires
        s0.swapchain is None,
        s0.renderbuffer is None,
    ensures
        ({
            let end = state_after(s0, calls);
            &&& fbos_created(s0, calls) =~= fbos_disposed(s0, calls).add(
                attached_fbos(end).to_multiset(),
            )
            &&& rbos_created(s0, calls) =~= (match end.renderbuffer {
                Some(r) => Multiset::empty().insert(r),
                None => Multiset::<u32>::empty(),
            })
        }),
    decreases calls.len(),
{
    broadcast use vstd::seq_lib::group_to_multiset_ensures;

    if calls.len() == 0 {
        assert(attached_fbos(s0).to_multiset() =~= Multiset::<u32>::empty());
    } else {
        lemma_allocate_release_pairing(s0, calls.drop_last());
        let c = calls.last();
        let prev = state_after(s0, calls.drop_last());
        let end = state_after(s0, calls);
        if spec_describe_format(c.config.format) is Some {
            assert(attached_fbos(end) =~= seq![c.fresh_fbo]);
            assert(seq![c.fresh_fbo].to_multiset() =~= Multiset::<u32>::empty().insert(
                c.fresh_fbo,
            )) by {
                assert(seq![c.fresh_fbo] =~= Seq::<u32>::empty().push(c.fresh_fbo));
                assert(Seq::<u32>::empty().to_multiset() =~= Multiset::<u32>::empty());
            }
        } else {
            assert(spec_configure(prev, c.config, c.fresh_rbo, c.fresh_fbo).1.to_multiset()
                =~= Multiset::<u32>::empty());
        }
    }
}

/// Law: teardown releases everything the surface holds — every attached
/// framebuffer and the renderbuffer — and leaves it holding nothing, so that
/// nothing stays live. The capability query is a function of the drawable's
/// size alone and is unaffected.
pub proof fn lemma_unconfigure_releases_all(s: SurfaceView)
    ensures
        ({
            let (s1, release) = spec_unconfigure(s);
            &&& s1.swapchain is None
            &&& s1.renderbuffer is None
            &&& release.fbos == attached_fbos(s)
            &&& release.renderbuffer == s.renderbuffer
            &&& live_objects(s1).fbos =~= Set::<u32>::empty()
            &&& live_objects(s1).rbos =~= Set::<u32>::empty()
        }),
{
    let (s1, _) = spec_unconfigure(s);
    assert(attached_fbos(s1) =~= Seq::<u32>::empty());
    assert(live_objects(s1).fbos =~= Set::<u32>::empty());
}

/// Law: teardown is idempotent. A second `unconfigure` leaves the state as
/// the first left it and releases nothing, so no handle is released twice.
pub proof fn lemma_unconfigure_idempotent(s: SurfaceView)
    ensures
        ({
            let (s1, _) = spec_unconfigure(s);
            let (s2, release2) = spec_unconfigure(s1);
            &&& s2 == s1
            &&& release2.fbos == Seq::<u32>::empty()
            &&& release2.renderbuffer is None
        }),
{
    let (s1, _) = spec_unconfigure(s);
    let (_, release2) = spec_unconfigure(s1);
    assert(release2.fbos =~= Seq::<u32>::empty());
}

/// Law: acquiring fails with `AcquireError` exactly on a surface with no
/// configured backing store; on a configured one it returns the view over the
/// renderbuffer the surface currently holds, never suboptimal.
pub proof fn lemma_acquire(s: SurfaceView)
    requires
        view_wf(s),
    ensures
        s.swapchain is None ==> spec_acquire(s) == Err::<
            (ImageView, Option<Suboptimal>),
            AcquireError,
        >(AcquireError::NotConfigured),
        s.swapchain is Some ==> spec_acquire(s) == Ok::<
            (ImageView, Option<Suboptimal>),
            AcquireError,
        >((ImageView::Renderbuffer(s.renderbuffer.unwrap()), None)),
{
}

/// Law: every format the capability query advertises is accepted by
/// configuration — the conversion table has native storage for it.
pub proof fn lemma_advertised_formats_supported()
    ensures
        spec_describe_format(Format::Rgba8Unorm) is Some,
        spec_describe_format(Format::Bgra8Unorm) is Some,
{
}

} // verus!
