use vstd::prelude::*;

use core::marker::PhantomData;

use crate::fat::Inner;
use crate::meta::{HasStaticVTable, VTableMeta};

verus! {

/// What downcasting decides, from the two words alone: the instance's
/// address when the reference's vtable word is exactly `X`'s static vtable
/// address, absence otherwise.
///
/// The comparison is pointer identity, not layout: two concrete types whose
/// vtables share a shape are still told apart, because each keeps its own
/// static instance at its own address.
pub open spec fn downcast_spec<T: VTableMeta, X: HasStaticVTable<T>>(i: Inner) -> Option<usize> {
    if i.vtable == X::vtable_addr() {
        Some(i.ptr)
    } else {
        None
    }
}

/// A shared, non-owning fat reference: a vtable word and an instance word,
/// valid for the lifetime `'a` it was borrowed for.
///
/// Shared views alias safely, so a `VRef` is freely duplicable — it is
/// `Copy`, and cloning reproduces the pair exactly.
pub struct VRef<'a, T: VTableMeta> {
    inner: Inner,
    phantom: PhantomData<&'a T>,
}

impl<'a, T: VTableMeta> View for VRef<'a, T> {
    type V = Inner;

    closed spec fn view(&self) -> Inner {
        self.inner
    }
}

impl<'a, T: VTableMeta> Copy for VRef<'a, T> {
}

impl<'a, T: VTableMeta> Clone for VRef<'a, T> {
    fn clone(&self) -> (r: Self)
        ensures
            r@ == self@,
    {
        *self
    }
}

impl<'a, T: VTableMeta> VRef<'a, T> {
    /// The data-model invariant: both words of the pair are non-null.
    pub open spec fn wf(self) -> bool {
        self@.wf()
    }

    /// Builds a shared fat reference directly from a typed reference:
    /// records the concrete type's static vtable address beside the
    /// instance's own address.  No allocation, no copy — the reference
    /// designates `value` itself.
    pub fn new<X: HasStaticVTable<T>>(value: &'a X) -> (r: Self)
        ensures
            r@.vtable == X::vtable_addr(),
            r@.ptr == value.addr_spec(),
            r.wf(),
    {
        VRef {
            inner: Inner { vtable: X::static_vtable(), ptr: value.addr() },
            phantom: PhantomData,
        }
    }

    /// Wraps an already-formed pair; the crate's own constructors guarantee
    /// the pairing they copy.
    pub(crate) fn from_inner(inner: Inner) -> (r: Self)
        ensures
            r@ == inner,
    {
        VRef { inner, phantom: PhantomData }
    }

    /// Adopts an already-paired vtable address and instance address.  The
    /// caller asserts that the pair is valid for the claimed lifetime and
    /// that the instance at `ptr` has the layout the vtable describes.
    pub fn from_raw(vtable: usize, ptr: usize) -> (r: Self)
        requires
            vtable != 0,
            ptr != 0,
        ensures
            r@.vtable == vtable,
            r@.ptr == ptr,
    {
        VRef { inner: Inner { vtable, ptr }, phantom: PhantomData }
    }

    /// Recovers the concrete instance's address if and only if this
    /// reference's vtable word is exactly `X`'s static vtable address.  A
    /// mismatch is reported, never a fault: the caller decides the
    /// fallback.  The caller that knows the concrete type recovers the
    /// typed instance from the address.
    pub fn downcast<X: HasStaticVTable<T>>(&self) -> (r: Option<usize>)
        ensures
            r == downcast_spec::<T, X>(self@),
    {
        if self.inner.vtable == X::static_vtable() {
            Some(self.inner.ptr)
        } else {
            None
        }
    }
}

/// An exclusive, non-owning fat reference over the same two-word pair.
///
/// Exclusive views must never alias: a `VRefMut` cannot be copied or
/// cloned.  A second view is only reached through the existing one — by
/// [`VRefMut::borrow`], [`VRefMut::borrow_mut`] at a narrower lifetime, or
/// the one-way downgrade [`VRefMut::into_ref`] — so the borrow checker rules
/// out two live exclusive views of one instance.
pub struct VRefMut<'a, T: VTableMeta> {
    inner: Inner,
    phantom: PhantomData<&'a mut T>,
}

impl<'a, T: VTableMeta> View for VRefMut<'a, T> {
    type V = Inner;

    closed spec fn view(&self) -> Inner {
        self.inner
    }
}

impl<'a, T: VTableMeta> VRefMut<'a, T> {
    /// The data-model invariant: both words of the pair are non-null.
    pub open spec fn wf(self) -> bool {
        self@.wf()
    }

    /// Builds an exclusive fat reference directly from an exclusive typed
    /// reference: records the concrete type's static vtable address beside
    /// the instance's own address.  The instance stays borrowed for `'a`,
    /// so no other path to it is live meanwhile.
    pub fn new<X: HasStaticVTable<T>>(value: &'a mut X) -> (r: Self)
        ensures
            r@.vtable == X::vtable_addr(),
            r@.ptr == old(value).addr_spec(),
            r.wf(),
            *final(value) == *old(value),
    {
        VRefMut {
            inner: Inner { vtable: X::static_vtable(), ptr: value.addr() },
            phantom: PhantomData,
        }
    }

    /// Wraps an already-formed pair; the crate's own constructors guarantee
    /// the pairing they copy.
    pub(crate) fn from_inner(inner: Inner) -> (r: Self)
        ensures
            r@ == inner,
    {
        VRefMut { inner, phantom: PhantomData }
    }

    /// Adopts an already-paired vtable address and instance address.  The
    /// caller asserts that the pair is valid for the claimed lifetime, that
    /// the instance at `ptr` has the layout the vtable describes, and that
    /// no other live view reaches it.
    pub fn from_raw(vtable: usize, ptr: usize) -> (r: Self)
        requires
            vtable != 0,
            ptr != 0,
        ensures
            r@.vtable == vtable,
            r@.ptr == ptr,
    {
        VRefMut { inner: Inner { vtable, ptr }, phantom: PhantomData }
    }

    /// Re-borrows as a shared fat reference to the same pair; the exclusive
    /// reference is unusable until it is gone.
    pub fn borrow<'b>(&'b self) -> (r: VRef<'b, T>)
        ensures
            r@ == self@,
    {
        VRef::from_inner(self.inner)
    }

    /// Re-borrows exclusively at a narrower lifetime; this reference is
    /// unusable until the narrower one is gone, so at most one exclusive
    /// view of the instance is ever live.
    pub fn borrow_mut<'b>(&'b mut self) -> (r: VRefMut<'b, T>)
        ensures
            r@ == old(self)@,
            final(self)@ == old(self)@,
    {
        VRefMut::from_inner(self.inner)
    }

    /// Downgrades to a shared fat reference keeping the original lifetime —
    /// the one-way transition from exclusive to shared.  The pair survives
    /// unchanged: the shared reference designates the very same instance.
    pub fn into_ref(self) -> (r: VRef<'a, T>)
        ensures
            r@ == self@,
    {
        VRef::from_inner(self.inner)
    }

    /// Recovers the concrete instance's address if and only if this
    /// reference's vtable word is exactly `X`'s static vtable address; a
    /// mismatch is reported, never a fault.  Through an exclusive
    /// reference, the caller that knows the concrete type recovers the
    /// instance for writing as well as reading.
    pub fn downcast<X: HasStaticVTable<T>>(&mut self) -> (r: Option<usize>)
        ensures
            r == downcast_spec::<T, X>(old(self)@),
            final(self)@ == old(self)@,
    {
        if self.inner.vtable == X::static_vtable() {
            Some(self.inner.ptr)
        } else {
            None
        }
    }
}

} // verus!
