use archery::ArcK;
use archery::RcK;
use archery::SharedPointer;
use archery::SharedPointerKind;

trait AmbiguousIfSend<A> {
    fn check() {}
}

impl<T: ?Sized> AmbiguousIfSend<()> for T {}

impl<T: ?Sized + Send> AmbiguousIfSend<u8> for T {}

trait AmbiguousIfSync<A> {
    fn check() {}
}

impl<T: ?Sized> AmbiguousIfSync<()> for T {}

impl<T: ?Sized + Sync> AmbiguousIfSync<u8> for T {}

fn needs_send_and_sync<T: Send + Sync>() {}

#[test]
fn arc_pointer_may_cross_threads() {
    needs_send_and_sync::<SharedPointer<i32, ArcK>>();
    needs_send_and_sync::<SharedPointer<String, ArcK>>();
    needs_send_and_sync::<<ArcK as SharedPointerKind<i32>>::Handle>();
}

#[test]
fn rc_pointer_stays_on_its_thread() {
    // Each line compiles only while the type lacks the marker: with it, two impls would fit.
    <SharedPointer<i32, RcK> as AmbiguousIfSend<_>>::check();
    <SharedPointer<i32, RcK> as AmbiguousIfSync<_>>::check();
    <SharedPointer<String, RcK> as AmbiguousIfSend<_>>::check();
    <<RcK as SharedPointerKind<i32>>::Handle as AmbiguousIfSend<_>>::check();
    <<RcK as SharedPointerKind<i32>>::Handle as AmbiguousIfSync<_>>::check();
}
