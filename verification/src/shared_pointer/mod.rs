//! The pointer type that applications use.

use crate::shared_pointer::kind::SharedPointerKind;
use std::ops::Deref;
use vstd::prelude::*;

pub mod kind;

verus! {

/// A pointer to a shared `T` whose shares are counted by the strategy `P`.
///
/// It holds one handle of the strategy and hands every operation on to the strategy. The
/// payload type is fixed by the pointer's own type, so a handle is never used with another
/// payload type than the one it was made with. The pointer gives up its share when it goes
/// out of scope.
pub struct SharedPointer<T, P: SharedPointerKind<T>> {
    handle: P::Handle,
}

impl<T, P: SharedPointerKind<T>> View for SharedPointer<T, P> {
    type V = T;

    /// The payload that the pointer points to.
    closed spec fn view(&self) -> T {
        P::payload(&self.handle)
    }
}

impl<T, P: SharedPointerKind<T>> SharedPointer<T, P> {
    /// The strategy's handle that the pointer holds.
    pub closed spec fn handle(&self) -> P::Handle {
        self.handle
    }

    /// The address at which the payload lies. Two pointers that are alive together point to
    /// the same allocation exactly when their addresses are equal.
    pub closed spec fn address(&self) -> usize {
        P::address(&self.handle)
    }

    fn new_from_inner(handle: P::Handle) -> (p: SharedPointer<T, P>)
        ensures
            p.handle == handle,
    {
        SharedPointer { handle }
    }

    /// A pointer to a fresh allocation that holds `v`.
    pub fn new(v: T) -> (p: SharedPointer<T, P>)
        ensures
            p@ == v,
    {
        SharedPointer::new_from_inner(P::new(v))
    }

    /// A pointer to a fresh counted allocation that holds what the box held.
    pub fn from_box(v: Box<T>) -> (p: SharedPointer<T, P>)
        ensures
            p@ == *v,
    {
        SharedPointer::new_from_inner(P::from_box(v))
    }

    /// The address of the payload, as the strategy gives it for the pointer's handle. It is
    /// never null and is a multiple of the payload type's alignment.
    pub fn as_ptr(this: &Self) -> (addr: usize)
        ensures
            addr == this.address(),
            addr != 0,
            addr as nat % vstd::layout::align_of::<T>() == 0,
            call_ensures(P::as_ptr, (&this.handle(),), addr),
    {
        P::as_ptr(&this.handle)
    }

    /// Takes the payload out if `this` is the only pointer to it; otherwise hands `this` back
    /// unchanged as the error, so that nothing is lost. Which of the two happens is the
    /// strategy's answer for the pointer's handle.
    pub fn try_unwrap(this: SharedPointer<T, P>) -> (r: Result<T, SharedPointer<T, P>>)
        ensures
            match r {
                Ok(v) => v == this@,
                Err(same) => same == this,
            },
            match r {
                Ok(v) => call_ensures(P::try_unwrap, (this.handle(),), Ok::<T, P::Handle>(v)),
                Err(same) => call_ensures(
                    P::try_unwrap,
                    (this.handle(),),
                    Err::<T, P::Handle>(same.handle()),
                ),
            },
    {
        match P::try_unwrap(this.handle) {
            Ok(v) => Ok(v),
            Err(handle) => Err(SharedPointer::new_from_inner(handle)),
        }
    }

    /// Borrows the payload for writing if `this` is the only pointer to it. The payload stays
    /// where it is, and what is written through the borrow is what `this` points to
    /// afterwards. With other pointers alive the result is `None` and `this` is as before.
    /// Whether the borrow is granted is the strategy's answer for the pointer's handle.
    pub fn get_mut(this: &mut Self) -> (r: Option<&mut T>)
        ensures
            final(this).address() == old(this).address(),
            match r {
                Some(m) => *m == old(this)@ && final(this)@ == *final(m),
                None => *final(this) == *old(this),
            },
            exists|h: &mut P::Handle|
                *h == old(this).handle() && *final(h) == final(this).handle() && call_ensures(
                    P::get_mut,
                    (h,),
                    r,
                ),
    {
        P::get_mut(&mut this.handle)
    }

    /// Borrows the payload for writing, copying it first if it is shared, so that writes never
    /// show through another pointer. The borrow starts out as the payload or a clone of it,
    /// and what is written through it is what `this` points to afterwards. A pointer that
    /// keeps its address was not copied: its borrow starts out as the payload itself.
    pub fn make_mut(this: &mut Self) -> (r: &mut T) where T: Clone
        ensures
            cloned(old(this)@, *r),
            final(this).address() == old(this).address() ==> *r == old(this)@,
            final(this)@ == *final(r),
    {
        P::make_mut(&mut this.handle)
    }

    /// The number of pointers to the payload at the time of the call, `this` included: the
    /// number that the strategy reports for the pointer's handle.
    pub fn strong_count(this: &Self) -> (n: usize)
        ensures
            n >= 1,
            call_ensures(P::strong_count, (&this.handle(),), n),
    {
        P::strong_count(&this.handle)
    }

    /// Whether the two pointers point to the same allocation, which is cheaper to find out
    /// than whether their payloads are equal, and implies it. The answer is the strategy's, for
    /// the two pointers' handles.
    pub fn ptr_eq(this: &Self, other: &Self) -> (same: bool)
        ensures
            same == (this.address() == other.address()),
            same ==> this@ == other@,
            call_ensures(P::ptr_eq, (&this.handle(), &other.handle()), same),
    {
        P::ptr_eq(&this.handle, &other.handle)
    }

    /// The symbolic name of the strategy that counts this pointer's shares.
    pub fn kind_name() -> (s: &'static str)
        ensures
            s@ == P::spec_name(),
    {
        P::name()
    }
}

impl<T, P: SharedPointerKind<T>> Deref for SharedPointer<T, P> {
    type Target = T;

    /// Borrows the payload.
    fn deref(&self) -> (r: &T)
        ensures
            *r == self@,
    {
        P::deref(&self.handle)
    }
}

impl<T, P: SharedPointerKind<T>> Clone for SharedPointer<T, P> {
    /// Another pointer to the same allocation. The payload itself is not copied, so the new
    /// pointer has the address of the one it was made from.
    fn clone(&self) -> (p: SharedPointer<T, P>)
        ensures
            p@ == self@,
            p.address() == self.address(),
    {
        SharedPointer::new_from_inner(P::clone(&self.handle))
    }
}

} // verus!
