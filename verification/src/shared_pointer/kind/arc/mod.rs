//! The atomically counted strategy.

use crate::shared_pointer::kind::SharedPointerKind;
use std::sync::Arc;
use vstd::prelude::*;

verus! {

/// Strategy whose handles hold an [`Arc`]: shares are counted atomically, so a handle may be
/// sent to and shared between threads whenever the payload may.
#[derive(Debug)]
pub struct ArcK;

/// A share of an atomically counted allocation that holds a `T`.
///
/// Beside the `Arc` it carries, as ghost data, the address at which the payload lies. Only the
/// functions of this file that call into `Arc` make or change a handle, and each says what
/// becomes of the address: a handle keeps it until `make_mut` points it elsewhere, and two
/// handles that are alive together have the same one exactly when they share an allocation.
pub struct ArcHandle<T> {
    arc: Arc<T>,
    at: Ghost<usize>,
}

impl<T> ArcHandle<T> {
    /// Whether `r` is what `Arc::try_unwrap` gives for this handle.
    pub closed spec fn unwraps_to(self, r: Result<T, ArcHandle<T>>) -> bool {
        call_ensures(arc_try_unwrap::<T>, (self,), r)
    }

    /// Whether `r` is what `Arc::get_mut` gives for the borrow `h` of a handle.
    pub closed spec fn lends(h: &mut ArcHandle<T>, r: Option<&mut T>) -> bool {
        call_ensures(arc_get_mut::<T>, (h,), r)
    }

    /// Whether `n` is what `Arc::strong_count` gives for this handle.
    pub closed spec fn counts(&self, n: usize) -> bool {
        call_ensures(arc_strong_count::<T>, (self,), n)
    }
}

/// `Arc::new`: a fresh allocation that holds `v`. Where it lies is the allocator's choice, so
/// nothing is claimed of the address.
#[verifier::external_body]
fn arc_new<T>(v: T) -> (handle: ArcHandle<T>)
    ensures
        *handle.arc == v,
{
    ArcHandle { arc: Arc::new(v), at: Ghost(arbitrary()) }
}

/// `Arc::from` on a `Box`: the boxed value is moved into a counted allocation, so the result
/// holds the value that the box held. Nothing is claimed of the address.
#[verifier::external_body]
fn arc_from_box<T>(v: Box<T>) -> (handle: ArcHandle<T>)
    ensures
        *handle.arc == *v,
{
    ArcHandle { arc: Arc::from(v), at: Ghost(arbitrary()) }
}

/// `Arc::as_ptr`, with the pointer turned into its address: the pointer to the data, which
/// the handle's ghost field stands for. It points to a live `T`, so it is not null and is
/// aligned for `T`.
#[verifier::external_body]
fn arc_address<T>(handle: &ArcHandle<T>) -> (addr: usize)
    ensures
        addr == handle.at@,
        addr != 0,
        addr as nat % vstd::layout::align_of::<T>() == 0,
{
    Arc::as_ptr(&handle.arc) as usize
}

/// `Arc::try_unwrap`: with exactly one strong reference the inner value is returned, otherwise
/// the same `Arc` comes back as the error. Which of the two happens depends on the other
/// references alive at the time, so the contract says only what each result holds.
#[verifier::external_body]
fn arc_try_unwrap<T>(handle: ArcHandle<T>) -> (r: Result<T, ArcHandle<T>>)
    ensures
        match r {
            Ok(v) => v == *handle.arc,
            Err(same) => same == handle,
        },
{
    let ArcHandle { arc, at } = handle;
    match Arc::try_unwrap(arc) {
        Ok(v) => Ok(v),
        Err(arc) => Err(ArcHandle { arc, at }),
    }
}

/// `Arc::get_mut`: a mutable reference into the allocation if no other pointer to it exists,
/// `None` otherwise. The reference starts at the current value and writes through it land in
/// the same allocation; with `None` the `Arc` is untouched.
#[verifier::external_body]
fn arc_get_mut<T>(handle: &mut ArcHandle<T>) -> (r: Option<&mut T>)
    ensures
        final(handle).at == old(handle).at,
        match r {
            Some(m) => *m == *old(handle).arc && *final(handle).arc == *final(m),
            None => *final(handle) == *old(handle),
        },
{
    Arc::get_mut(&mut handle.arc)
}

/// `Arc::make_mut`: a mutable reference into the `Arc`, after cloning the inner value into a
/// new allocation if other `Arc`s point to the old one. The reference therefore starts at the
/// old value or at a clone of it, and writes through it land in the `Arc`. Without other
/// pointers nothing is cloned and the allocation stays, so an `Arc` that is still at its old
/// address gives a reference to the old value itself.
#[verifier::external_body]
fn arc_make_mut<T: Clone>(handle: &mut ArcHandle<T>) -> (r: &mut T)
    ensures
        cloned(*old(handle).arc, *r),
        final(handle).at == old(handle).at ==> *r == *old(handle).arc,
        *final(handle).arc == *final(r),
{
    Arc::make_mut(&mut handle.arc)
}

/// `Arc::strong_count`: the number of strong pointers to the allocation. The argument is one
/// of them, so the number is at least one; other threads may change it at any time.
#[verifier::external_body]
fn arc_strong_count<T>(handle: &ArcHandle<T>) -> (n: usize)
    ensures
        n >= 1,
{
    Arc::strong_count(&handle.arc)
}

/// `Arc::clone`: another pointer to the same allocation, hence to the same value at the same
/// address.
#[verifier::external_body]
fn arc_clone<T>(handle: &ArcHandle<T>) -> (other: ArcHandle<T>)
    ensures
        other == *handle,
{
    ArcHandle { arc: Arc::clone(&handle.arc), at: handle.at }
}

/// `Arc::ptr_eq`: whether the two point to the same allocation, that is, whether their data
/// lie at the same address. If they do, they hold the same value.
#[verifier::external_body]
fn arc_ptr_eq<T>(a: &ArcHandle<T>, b: &ArcHandle<T>) -> (same: bool)
    ensures
        same == (a.at@ == b.at@),
        same ==> *a.arc == *b.arc,
{
    Arc::ptr_eq(&a.arc, &b.arc)
}

impl<T> SharedPointerKind<T> for ArcK {
    type Handle = ArcHandle<T>;

    closed spec fn payload(handle: &ArcHandle<T>) -> T {
        *handle.arc
    }

    closed spec fn address(handle: &ArcHandle<T>) -> usize {
        handle.at@
    }

    open spec fn spec_name() -> Seq<char> {
        "ArcK"@
    }

    fn new(v: T) -> (handle: ArcHandle<T>) {
        arc_new(v)
    }

    fn from_box(v: Box<T>) -> (handle: ArcHandle<T>) {
        arc_from_box(v)
    }

    fn as_ptr(handle: &ArcHandle<T>) -> (addr: usize) {
        arc_address(handle)
    }

    fn deref(handle: &ArcHandle<T>) -> (r: &T) {
        &*handle.arc
    }

    /// The answer is that of `Arc::try_unwrap` for this handle.
    fn try_unwrap(handle: ArcHandle<T>) -> (r: Result<T, ArcHandle<T>>)
        ensures
            handle.unwraps_to(r),
    {
        arc_try_unwrap(handle)
    }

    /// The answer is that of `Arc::get_mut` for a borrow of this handle.
    fn get_mut(handle: &mut ArcHandle<T>) -> (r: Option<&mut T>)
        ensures
            exists|h: &mut ArcHandle<T>|
                *h == *old(handle) && *final(h) == *final(handle) && ArcHandle::lends(h, r),
    {
        proof {
            assert forall|h: &mut ArcHandle<T>, lent: Option<&mut T>| #[trigger]
                call_ensures(arc_get_mut::<T>, (h,), lent) implies ArcHandle::lends(h, lent) by {}
        }
        arc_get_mut(handle)
    }

    fn make_mut(handle: &mut ArcHandle<T>) -> (r: &mut T) where T: Clone {
        arc_make_mut(handle)
    }

    /// The number is that of `Arc::strong_count` for this handle.
    fn strong_count(handle: &ArcHandle<T>) -> (n: usize)
        ensures
            handle.counts(n),
    {
        arc_strong_count(handle)
    }

    fn clone(handle: &ArcHandle<T>) -> (other: ArcHandle<T>) {
        arc_clone(handle)
    }

    fn ptr_eq(a: &ArcHandle<T>, b: &ArcHandle<T>) -> (same: bool) {
        arc_ptr_eq(a, b)
    }

    fn name() -> (s: &'static str) {
        "ArcK"
    }
}

} // verus!
