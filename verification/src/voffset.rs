use vstd::prelude::*;

use core::marker::PhantomData;

use crate::fat::Inner;
use crate::meta::{Addressable, HasStaticVTable, VTableMeta};
use crate::vref::{VRef, VRefMut};

verus! {

/// The outside descriptor of a field's position: `FieldOffset<T, U>` holds
/// the byte offset of a `U` field within a `T`, established by that crate at
/// compile time.  The value is opaque here; only its byte count is read.
#[verifier::external_type_specification]
#[verifier::external_body]
#[verifier::reject_recursive_types(T)]
#[verifier::reject_recursive_types(U)]
#[verifier::reject_recursive_types(PinFlag)]
pub struct ExFieldOffset<T, U, PinFlag>(const_field_offset::FieldOffset<T, U, PinFlag>);

/// The pin-flag marker that field-position descriptors carry by default;
/// opaque here, it only completes the descriptor type's name.
#[verifier::external_type_specification]
#[verifier::external_body]
pub struct ExNotPinned(const_field_offset::NotPinned);

/// Relies on field-offset's `FieldOffset::get_byte_offset`: it hands back
/// the stored byte count.  Nothing further is assumed of the value; that the
/// count is the true position of the field inside the container was the
/// descriptor constructor's compile-time obligation and is trusted
/// thereafter.
pub assume_specification<T, U, PinFlag>[
    const_field_offset::FieldOffset::<T, U, PinFlag>::get_byte_offset
](o: const_field_offset::FieldOffset<T, U, PinFlag>) -> usize;

/// What a projection produces for a container value: the stored vtable word
/// beside the container's address advanced by the stored byte offset.  The
/// sum is taken in machine words; every projection demands that it not
/// wrap, so within that demand it is the exact field address.
pub open spec fn apply_spec<Base: Addressable, T: VTableMeta>(
    off: VOffset<Base, T>,
    x: Base,
) -> Inner {
    Inner { vtable: off.spec_vtable(), ptr: (x.addr_spec() + off.spec_offset()) as usize }
}

/// A field-level sub-vtable: a vtable address paired with the byte offset of
/// an embedded field inside a container type `Base`.
///
/// Constructed once, from a field-position descriptor and the field type's
/// static association; applied many times, producing per-instance fat
/// references into the embedded field without a second allocation.  The
/// invariant carried from construction — the field at `offset` bytes into
/// any valid `Base` has the layout the vtable describes — is trusted at
/// every application, never re-checked.
pub struct VOffset<Base, T> {
    vtable: usize,
    offset: usize,
    phantom: PhantomData<(Base, T)>,
}

impl<Base, T> Copy for VOffset<Base, T> {
}

impl<Base, T> Clone for VOffset<Base, T> {
    fn clone(&self) -> (r: Self)
        ensures
            r.spec_vtable() == self.spec_vtable(),
            r.spec_offset() == self.spec_offset(),
    {
        *self
    }
}

impl<Base, T> VOffset<Base, T> {
    /// The vtable word every produced fat reference will carry.
    pub closed spec fn spec_vtable(self) -> usize {
        self.vtable
    }

    /// The byte offset of the embedded field within `Base`.
    pub closed spec fn spec_offset(self) -> usize {
        self.offset
    }

    /// The vtable word is non-null.
    pub open spec fn wf(self) -> bool {
        self.spec_vtable() != 0
    }
}

impl<Base, T: VTableMeta> VOffset<Base, T> {
    /// Pairs a field-position descriptor with the field type's static
    /// vtable.  The byte count comes from the descriptor, which vouched for
    /// it at compile time; the vtable word is `X`'s one static association.
    pub fn new<X: HasStaticVTable<T>>(o: const_field_offset::FieldOffset<Base, X>) -> (r: Self)
        ensures
            r.spec_vtable() == X::vtable_addr(),
            r.wf(),
    {
        VOffset { vtable: X::static_vtable(), offset: o.get_byte_offset(), phantom: PhantomData }
    }

    /// Pairs a plain byte count with the field type's static vtable: the
    /// collaborator contract upward, a byte count from the start of the
    /// container to the start of the embedded field.  The caller vouches
    /// that the field at `offset` bytes into any valid `Base` has the
    /// layout `X`'s vtable describes.
    pub fn from_byte_offset<X: HasStaticVTable<T>>(offset: usize) -> (r: Self)
        ensures
            r.spec_vtable() == X::vtable_addr(),
            r.spec_offset() == offset,
            r.wf(),
    {
        VOffset { vtable: X::static_vtable(), offset, phantom: PhantomData }
    }
}

impl<Base: Addressable, T: VTableMeta> VOffset<Base, T> {
    /// Projects a shared fat reference onto the embedded field of `x`: the
    /// container's address advanced by the stored offset, under the stored
    /// vtable, borrowed for as long as the container.  No layout check
    /// happens here; correctness was established at construction.
    pub fn apply<'a>(self, x: &'a Base) -> (r: VRef<'a, T>)
        requires
            self.wf(),
            x.addr_spec() + self.spec_offset() <= usize::MAX,
        ensures
            r@ == apply_spec(self, *x),
            r.wf(),
    {
        let ptr: usize = x.addr() + self.offset;
        VRef::from_raw(self.vtable, ptr)
    }

    /// Projects an exclusive fat reference onto the embedded field of `x`,
    /// which stays exclusively borrowed for as long as the reference lives.
    pub fn apply_mut<'a>(self, x: &'a mut Base) -> (r: VRefMut<'a, T>)
        requires
            self.wf(),
            old(x).addr_spec() + self.spec_offset() <= usize::MAX,
        ensures
            r@ == apply_spec(self, *old(x)),
            r.wf(),
            *final(x) == *old(x),
    {
        let ptr: usize = x.addr() + self.offset;
        VRefMut::from_raw(self.vtable, ptr)
    }
}

} // verus!
