//! Shared pointers whose counting strategy is a type parameter.
//!
//! A [`SharedPointer<T, P>`] points to a shared `T`; the strategy `P` says how the shares are
//! counted: [`ArcK`] counts atomically and may cross threads, [`RcK`] counts plainly and stays
//! on the thread that made it. A data structure that is generic over `P: SharedPointerKind<..>`
//! is written once and works with either.
//!
//! The contracts speak of the payload and of its address: what a pointer holds after it was
//! made, cloned, unwrapped or written through, and which pointers share an allocation. A
//! pointer's address changes only through its own `make_mut`. How many shares an allocation has
//! can change at any time through other pointers to it, so no contract here depends on the
//! count.

pub mod shared_pointer;

pub use shared_pointer::kind::ArcHandle;
pub use shared_pointer::kind::ArcK;
pub use shared_pointer::kind::RcHandle;
pub use shared_pointer::kind::RcK;
pub use shared_pointer::kind::SharedPointerKind;
pub use shared_pointer::SharedPointer;
