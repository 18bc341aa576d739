//! The operations that every counting strategy provides, and the two strategies.

use vstd::prelude::*;

pub mod arc;
pub mod rc;

pub use arc::ArcHandle;
pub use arc::ArcK;
pub use rc::RcHandle;
pub use rc::RcK;

verus! {

/// A strategy for reference-counted pointers to a `T`.
///
/// The implementing type only names the strategy. What it hands out are handles: a handle owns
/// one share of an allocation that holds a `T`. Shares are made by [`clone`](Self::clone) and
/// given up when a handle goes out of scope; the allocation is freed with its last share. The
/// payload may be written only through a handle that owns the only share.
///
/// To the contracts a handle is its payload and the address at which the payload lies. The
/// address tells allocations apart: two handles that are alive together share an allocation
/// exactly when their addresses are equal.
///
/// A strategy implements this trait for every payload type, so one strategy parameter serves
/// all the pointers of a data structure, whatever they point to.
pub trait SharedPointerKind<T>: Sized {
    /// The strategy's handle to an allocation that holds a `T`.
    type Handle;

    /// The value in the allocation that `handle` has a share of.
    spec fn payload(handle: &Self::Handle) -> T;

    /// The address at which the payload of `handle` lies.
    spec fn address(handle: &Self::Handle) -> usize;

    /// The strategy's symbolic name.
    spec fn spec_name() -> Seq<char>;

    /// Puts `v` into a fresh allocation and returns its only share.
    fn new(v: T) -> (handle: Self::Handle)
        ensures
            Self::payload(&handle) == v,
    ;

    /// Moves the boxed value into a fresh counted allocation and returns its only share.
    fn from_box(v: Box<T>) -> (handle: Self::Handle)
        ensures
            Self::payload(&handle) == *v,
    ;

    /// The address of the payload. It is never null and is a multiple of the payload type's
    /// alignment; counting is not affected.
    fn as_ptr(handle: &Self::Handle) -> (addr: usize)
        ensures
            addr == Self::address(handle),
            addr != 0,
            addr as nat % vstd::layout::align_of::<T>() == 0,
    ;

    /// Borrows the payload.
    fn deref(handle: &Self::Handle) -> (r: &T)
        ensures
            *r == Self::payload(handle),
    ;

    /// Takes the payload out if `handle` owns the only share; otherwise hands `handle` back as
    /// it was.
    fn try_unwrap(handle: Self::Handle) -> (r: Result<T, Self::Handle>)
        ensures
            match r {
                Ok(v) => v == Self::payload(&handle),
                Err(same) => same == handle,
            },
    ;

    /// Borrows the payload for writing if `handle` owns the only share. The payload is never
    /// copied or moved: the handle keeps its address, and what is written through the borrow
    /// is what the handle holds afterwards. With other shares alive the result is `None` and
    /// the handle is as before.
    fn get_mut(handle: &mut Self::Handle) -> (r: Option<&mut T>)
        ensures
            Self::address(final(handle)) == Self::address(old(handle)),
            match r {
                Some(m) => *m == Self::payload(old(handle)) && Self::payload(final(handle))
                    == *final(m),
                None => *final(handle) == *old(handle),
            },
    ;

    /// Borrows the payload for writing, copying it first if it is shared: with other shares
    /// alive the payload is cloned into a fresh allocation, `handle` is pointed at that and
    /// its share of the old one is given up. The borrow starts out as the payload or a clone of
    /// it, and what is written through it is what the handle holds afterwards. A handle that
    /// keeps its address was not copied: its borrow starts out as the payload itself.
    fn make_mut(handle: &mut Self::Handle) -> (r: &mut T) where T: Clone
        ensures
            cloned(Self::payload(old(handle)), *r),
            Self::address(final(handle)) == Self::address(old(handle)) ==> *r == Self::payload(
                old(handle),
            ),
            Self::payload(final(handle)) == *final(r),
    ;

    /// The number of shares of the allocation at the time of the call, this one included.
    fn strong_count(handle: &Self::Handle) -> (n: usize)
        ensures
            n >= 1,
    ;

    /// Another share of the same allocation: the payload is not copied, so the new handle has
    /// the address of the one it was made from.
    fn clone(handle: &Self::Handle) -> (other: Self::Handle)
        ensures
            Self::payload(&other) == Self::payload(handle),
            Self::address(&other) == Self::address(handle),
    ;

    /// Whether both handles own a share of the same allocation, which is so exactly when their
    /// addresses are equal. Two handles to one allocation hold the same payload.
    fn ptr_eq(a: &Self::Handle, b: &Self::Handle) -> (same: bool)
        ensures
            same == (Self::address(a) == Self::address(b)),
            same ==> Self::payload(a) == Self::payload(b),
    ;

    /// The strategy's symbolic name, for use in formatted output.
    fn name() -> (s: &'static str)
        ensures
            s@ == Self::spec_name(),
    ;
}

} // verus!
