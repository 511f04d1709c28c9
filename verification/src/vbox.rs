use vstd::prelude::*;

use core::marker::PhantomData;

use crate::fat::Inner;
use crate::meta::{HasStaticVTable, VTableMetaDrop};
use crate::vref::{VRef, VRefMut};

verus! {

/// An owning fat pointer: exactly one instance behind exactly one vtable.
///
/// A box is never copied and never cloned, so the instance it owns is
/// destroyed at most once — by [`VBox::destroy`], which consumes the box and
/// invokes the vtable's destructor slot on the held address.  Until then the
/// box may be borrowed any number of times, shared or exclusive, without
/// affecting ownership.
pub struct VBox<T> {
    inner: Inner,
    phantom: PhantomData<T>,
}

impl<T> View for VBox<T> {
    type V = Inner;

    closed spec fn view(&self) -> Inner {
        self.inner
    }
}

impl<T> VBox<T> {
    /// The data-model invariant: both words of the pair are non-null.
    pub open spec fn wf(self) -> bool {
        self@.wf()
    }

    /// Adopts an already-paired vtable address and instance address.  The
    /// caller asserts the pairing: `ptr` must address an instance of the
    /// layout that the vtable at `vtable` describes, allocated so that the
    /// vtable's destructor can release it, and owned nowhere else.  Nothing
    /// validates this at run time.
    pub fn from_raw(vtable: usize, ptr: usize) -> (r: Self)
        requires
            vtable != 0,
            ptr != 0,
        ensures
            r@.vtable == vtable,
            r@.ptr == ptr,
    {
        VBox { inner: Inner { vtable, ptr }, phantom: PhantomData }
    }
}

impl<T: VTableMetaDrop> VBox<T> {
    /// Moves `value` behind an owning fat pointer, through the descriptor's
    /// heap-allocating constructor.  The box carries the static vtable of
    /// the concrete type and designates the instance itself, at its
    /// unchanged address: boxing erases the type, not the identity.
    pub fn new<X: HasStaticVTable<T>>(value: X) -> (r: Self)
        ensures
            r@.vtable == X::vtable_addr(),
            r@.ptr == value.addr_spec(),
            r.wf(),
    {
        T::new_box(value)
    }

    /// Borrows the box as a shared fat reference to the same pair.
    pub fn borrow<'b>(&'b self) -> (r: VRef<'b, T>)
        ensures
            r@ == self@,
    {
        VRef::from_inner(self.inner)
    }

    /// Borrows the box as an exclusive fat reference to the same pair; the
    /// box itself is unusable until that reference is gone.
    pub fn borrow_mut<'b>(&'b mut self) -> (r: VRefMut<'b, T>)
        ensures
            r@ == old(self)@,
            final(self)@ == old(self)@,
    {
        VRefMut::from_inner(self.inner)
    }

    /// Destroys the owned instance: invokes the vtable's destructor slot on
    /// the held address.  Consuming the box is what makes the destruction
    /// happen exactly once — no copy of the box can exist, and a destroyed
    /// box cannot be touched again.
    pub fn destroy(self)
        requires
            self.wf(),
    {
        T::destroy(self.inner.ptr);
    }
}

} // verus!
