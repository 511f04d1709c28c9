use vstd::prelude::*;

use crate::meta::{Addressable, HasStaticVTable, VTableMeta, VTableMetaDrop};
use crate::vbox::VBox;
use crate::vref::{downcast_spec, VRef, VRefMut};
use crate::voffset::{apply_spec, VOffset};

verus! {

/// Boxing a value and downcasting a borrowed view of the box back to the
/// value's own type recovers exactly the boxed instance's address, and
/// downcasting to any associated type whose static vtable is a different
/// one reports absence.
///
/// The hypotheses are what `VBox::new::<X>` ensures of its result, together
/// with the distinctness of the other type's static instance; borrowing —
/// shared or exclusive, any number of times — copies the pair unchanged, so
/// the conclusion speaks of the box's own pair.
pub proof fn vbox_downcast_identity<T: VTableMetaDrop, X: HasStaticVTable<T>, Y: HasStaticVTable<
    T,
>>(b: VBox<T>, value: X)
    requires
        b@.vtable == X::vtable_addr(),
        b@.ptr == value.addr_spec(),
        Y::vtable_addr() != X::vtable_addr(),
    ensures
        downcast_spec::<T, X>(b@) == Some(value.addr_spec()),
        downcast_spec::<T, Y>(b@) is None,
{
}

/// A reference built directly from a typed value and a box built from a
/// value of the same concrete type carry equal vtable words: both read the
/// one static association of that type, so the vtable address is the same
/// by pointer identity.
pub proof fn static_association_unique<'a, T: VTableMetaDrop, X: HasStaticVTable<T>>(
    r: VRef<'a, T>,
    b: VBox<T>,
)
    requires
        r@.vtable == X::vtable_addr(),
        b@.vtable == X::vtable_addr(),
    ensures
        r@.vtable == b@.vtable,
{
}

/// Downgrading an exclusive reference to a shared one and then downcasting
/// designates the very same instance: the pair survives the downgrade
/// unchanged, so the recovered address is the exclusive reference's data
/// word — no copy is ever made.
pub proof fn into_ref_preserves_instance<'a, T: VTableMeta, X: HasStaticVTable<T>>(
    m: VRefMut<'a, T>,
    r: VRef<'a, T>,
)
    requires
        r@ == m@,
        m@.vtable == X::vtable_addr(),
    ensures
        downcast_spec::<T, X>(r@) == Some(m@.ptr),
{
}

/// The fat reference a projection produces depends on the container's
/// address alone, never on its contents: however the embedded field is
/// mutated through the container in place, the projection designates the
/// same backing memory, so a read through it sees the mutation rather than
/// a stale copy.
pub proof fn apply_depends_on_address_alone<Base: Addressable, T: VTableMeta>(
    off: VOffset<Base, T>,
    before: Base,
    after: Base,
)
    requires
        before.addr_spec() == after.addr_spec(),
    ensures
        apply_spec(off, before) == apply_spec(off, after),
{
}

/// Two concrete types may share one vtable shape and still be told apart:
/// downcasting compares static instance addresses, not layouts, so a
/// reference built from one type never downcasts to the other as long as
/// their static vtables are distinct.
pub proof fn shared_shape_still_distinguished<'a, T: VTableMeta, A: HasStaticVTable<T>, B: HasStaticVTable<
    T,
>>(r: VRef<'a, T>)
    requires
        r@.vtable == B::vtable_addr(),
        A::vtable_addr() != B::vtable_addr(),
    ensures
        downcast_spec::<T, A>(r@) is None,
{
}

} // verus!
