//! The strategy that counts without atomic operations.

use crate::shared_pointer::kind::SharedPointerKind;
use std::rc::Rc;
use vstd::prelude::*;

verus! {

/// Strategy whose handles hold an [`Rc`]: shares are counted with plain reads and writes, which
/// is cheaper than counting atomically. A handle is neither `Send` nor `Sync`, so all shares of
/// an allocation stay on one thread.
#[derive(Debug)]
pub struct RcK;

/// A share of a plainly counted allocation that holds a `T`.
///
/// Beside the `Rc` it carries, as ghost data, the address at which the payload lies. Only the
/// functions of this file that call into `Rc` make or change a handle, and each says what
/// becomes of the address: a handle keeps it until `make_mut` points it elsewhere, and two
/// handles that are alive together have the same one exactly when they share an allocation.
pub struct RcHandle<T> {
    rc: Rc<T>,
    at: Ghost<usize>,
}

impl<T> RcHandle<T> {
    /// Whether `r` is what `Rc::try_unwrap` gives for this handle.
    pub closed spec fn unwraps_to(self, r: Result<T, RcHandle<T>>) -> bool {
        call_ensures(rc_try_unwrap::<T>, (self,), r)
    }

    /// Whether `r` is what `Rc::get_mut` gives for the borrow `h` of a handle.
    pub closed spec fn lends(h: &mut RcHandle<T>, r: Option<&mut T>) -> bool {
        call_ensures(rc_get_mut::<T>, (h,), r)
    }

    /// Whether `n` is what `Rc::strong_count` gives for this handle.
    pub closed spec fn counts(&self, n: usize) -> bool {
        call_ensures(rc_strong_count::<T>, (self,), n)
    }
}

/// `Rc::new`: a fresh allocation that holds `v`. Where it lies is the allocator's choice, so
/// nothing is claimed of the address.
#[verifier::external_body]
fn rc_new<T>(v: T) -> (handle: RcHandle<T>)
    ensures
        *handle.rc == v,
{
    RcHandle { rc: Rc::new(v), at: Ghost(arbitrary()) }
}

/// `Rc::from` on a `Box`: the boxed value is moved into a counted allocation, so the result
/// holds the value that the box held. Nothing is claimed of the address.
#[verifier::external_body]
fn rc_from_box<T>(v: Box<T>) -> (handle: RcHandle<T>)
    ensures
        *handle.rc == *v,
{
    RcHandle { rc: Rc::from(v), at: Ghost(arbitrary()) }
}

/// `Rc::as_ptr`, with the pointer turned into its address: the pointer to the data, which
/// the handle's ghost field stands for. It points to a live `T`, so it is not null and is
/// aligned for `T`.
#[verifier::external_body]
fn rc_address<T>(handle: &RcHandle<T>) -> (addr: usize)
    ensures
        addr == handle.at@,
        addr != 0,
        addr as nat % vstd::layout::align_of::<T>() == 0,
{
    Rc::as_ptr(&handle.rc) as usize
}

/// Calls `Rc::try_unwrap`: with exactly one strong reference the inner value is returned,
/// otherwise the same `Rc` comes back as the error, and with it the handle as it was. Which of
/// the two happens depends on the other references alive at the time.
fn rc_try_unwrap<T>(handle: RcHandle<T>) -> (r: Result<T, RcHandle<T>>)
    ensures
        match r {
            Ok(v) => v == *handle.rc,
            Err(same) => same == handle,
        },
{
    let RcHandle { rc, at } = handle;
    match Rc::try_unwrap(rc) {
        Ok(v) => Ok(v),
        Err(rc) => Err(RcHandle { rc, at }),
    }
}

/// `Rc::get_mut`: a mutable reference into the allocation if no other pointer to it exists,
/// `None` otherwise. The reference starts at the current value and writes through it land in
/// the same allocation; with `None` the `Rc` is untouched.
#[verifier::external_body]
fn rc_get_mut<T>(handle: &mut RcHandle<T>) -> (r: Option<&mut T>)
    ensures
        final(handle).at == old(handle).at,
        match r {
            Some(m) => *m == *old(handle).rc && *final(handle).rc == *final(m),
            None => *final(handle) == *old(handle),
        },
{
    Rc::get_mut(&mut handle.rc)
}

/// `Rc::make_mut`: a mutable reference into the `Rc`, after cloning the inner value into a
/// new allocation if other `Rc`s point to the old one. The reference therefore starts at the
/// old value or at a clone of it, and writes through it land in the `Rc`. Without other
/// pointers nothing is cloned and the allocation stays, so an `Rc` that is still at its old
/// address gives a reference to the old value itself.
#[verifier::external_body]
fn rc_make_mut<T: Clone>(handle: &mut RcHandle<T>) -> (r: &mut T)
    ensures
        cloned(*old(handle).rc, *r),
        final(handle).at == old(handle).at ==> *r == *old(handle).rc,
        *final(handle).rc == *final(r),
{
    Rc::make_mut(&mut handle.rc)
}

/// `Rc::strong_count`: the number of strong pointers to the allocation. The argument is one
/// of them, so the number is at least one.
#[verifier::external_body]
fn rc_strong_count<T>(handle: &RcHandle<T>) -> (n: usize)
    ensures
        n >= 1,
{
    Rc::strong_count(&handle.rc)
}

/// `Rc::clone`: another pointer to the same allocation, hence to the same value at the same
/// address.
#[verifier::external_body]
fn rc_clone<T>(handle: &RcHandle<T>) -> (other: RcHandle<T>)
    ensures
        other == *handle,
{
    RcHandle { rc: Rc::clone(&handle.rc), at: handle.at }
}

/// `Rc::ptr_eq`: whether the two point to the same allocation, that is, whether their data
/// lie at the same address. If they do, they hold the same value.
#[verifier::external_body]
fn rc_ptr_eq<T>(a: &RcHandle<T>, b: &RcHandle<T>) -> (same: bool)
    ensures
        same == (a.at@ == b.at@),
        same ==> *a.rc == *b.rc,
{
    Rc::ptr_eq(&a.rc, &b.rc)
}

impl<T> SharedPointerKind<T> for RcK {
    type Handle = RcHandle<T>;

    closed spec fn payload(handle: &RcHandle<T>) -> T {
        *handle.rc
    }

    closed spec fn address(handle: &RcHandle<T>) -> usize {
        handle.at@
    }

    open spec fn spec_name() -> Seq<char> {
        "RcK"@
    }

    fn new(v: T) -> (handle: RcHandle<T>) {
        rc_new(v)
    }

    fn from_box(v: Box<T>) -> (handle: RcHandle<T>) {
        rc_from_box(v)
    }

    fn as_ptr(handle: &RcHandle<T>) -> (addr: usize) {
        rc_address(handle)
    }

    fn deref(handle: &RcHandle<T>) -> (r: &T) {
        &*handle.rc
    }

    /// The answer is that of `Rc::try_unwrap` for this handle.
    fn try_unwrap(handle: RcHandle<T>) -> (r: Result<T, RcHandle<T>>)
        ensures
            handle.unwraps_to(r),
    {
        rc_try_unwrap(handle)
    }

    /// The answer is that of `Rc::get_mut` for a borrow of this handle.
    fn get_mut(handle: &mut RcHandle<T>) -> (r: Option<&mut T>)
        ensures
            exists|h: &mut RcHandle<T>|
                *h == *old(handle) && *final(h) == *final(handle) && RcHandle::lends(h, r),
    {
        proof {
            assert forall|h: &mut RcHandle<T>, lent: Option<&mut T>| #[trigger]
                call_ensures(rc_get_mut::<T>, (h,), lent) implies RcHandle::lends(h, lent) by {}
        }
        rc_get_mut(handle)
    }

    fn make_mut(handle: &mut RcHandle<T>) -> (r: &mut T) where T: Clone {
        rc_make_mut(handle)
    }

    /// The number is that of `Rc::strong_count` for this handle.
    fn strong_count(handle: &RcHandle<T>) -> (n: usize)
        ensures
            handle.counts(n),
    {
        rc_strong_count(handle)
    }

    fn clone(handle: &RcHandle<T>) -> (other: RcHandle<T>) {
        rc_clone(handle)
    }

    fn ptr_eq(a: &RcHandle<T>, b: &RcHandle<T>) -> (same: bool) {
        rc_ptr_eq(a, b)
    }

    fn name() -> (s: &'static str) {
        "RcK"
    }
}

} // verus!
