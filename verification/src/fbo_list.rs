//! The surface's framebuffer handles, held in a fixed-capacity vector of the
//! `arrayvec` crate, as the backing-store state keeps them.

use vstd::prelude::*;

use arrayvec::ArrayVec;

verus! {

/// The fixed-capacity vector type of the `arrayvec` crate; a value of it is
/// opaque here, and `fbo_list_view` names what it holds.
#[verifier::external_type_specification]
#[verifier::external_body]
#[verifier::reject_recursive_types(T)]
pub struct ExArrayVec<T, const CAP: usize>(ArrayVec<T, CAP>);

/// The framebuffer handles a list holds, in order.
pub uninterp spec fn fbo_list_view(list: ArrayVec<u32, 3>) -> Seq<u32>;

/// Relies on `arrayvec::ArrayVec::new`: a fresh vector is empty. The capacity
/// limit check cannot fail for a capacity of 3.
#[verifier::external_body]
pub fn fbo_list_new() -> (r: ArrayVec<u32, 3>)
    ensures
        fbo_list_view(r) == Seq::<u32>::empty(),
{
    ArrayVec::new()
}

/// Relies on `arrayvec::ArrayVec::push`: appends the element; it panics only
/// on a full vector, which the precondition rules out.
#[verifier::external_body]
pub fn fbo_list_push(list: &mut ArrayVec<u32, 3>, fbo: u32)
    requires
        fbo_list_view(*old(list)).len() < 3,
    ensures
        fbo_list_view(*final(list)) == fbo_list_view(*old(list)).push(fbo),
{
    list.push(fbo)
}

/// Relies on `arrayvec::ArrayVec::as_slice`: a slice of all elements in
/// order, copied out with `slice::to_vec`.
#[verifier::external_body]
pub fn fbo_list_to_vec(list: &ArrayVec<u32, 3>) -> (r: Vec<u32>)
    ensures
        r@ == fbo_list_view(*list),
{
    list.as_slice().to_vec()
}

} // verus!
