use vstd::prelude::*;

use crate::vbox::VBox;

verus! {

/// A concrete type whose instances have a stable, non-null machine address.
///
/// In the raw two-pointer world the data word of a fat reference is obtained
/// by taking the address of an instance; here that operation is a method of
/// the instance, so that contracts can speak of the address as a plain word.
/// The address identifies the instance's storage: it does not change when
/// the instance's contents are mutated in place.
pub trait Addressable {
    /// The address of this instance's storage.
    spec fn addr_spec(&self) -> usize;

    /// Returns the address of this instance's storage; an address is never
    /// null.
    fn addr(&self) -> (r: usize)
        ensures
            r == self.addr_spec(),
            r != 0,
    ;
}

/// A vtable descriptor: the type-level contract that a statically allocated
/// vtable layout exists for this shape of operations.
///
/// A descriptor carries no per-instance data.  Each vtable instance of the
/// shape lives for the whole process and is identified by its address; the
/// opaque target representation that a fat reference stands in for has
/// exactly the footprint of the two-word pair, a layout fact that lives
/// outside this model.
pub trait VTableMeta {
}

/// A vtable descriptor whose vtable declares a destructor slot, and which
/// can therefore back an owning fat pointer.
pub trait VTableMetaDrop: VTableMeta + Sized {
    /// The destructor slot: tears down the instance at `ptr` and releases
    /// its backing allocation.  The address must be one that a matching
    /// heap-allocating constructor produced; that pairing was established at
    /// construction and is trusted here, never re-checked.
    fn destroy(ptr: usize)
        requires
            ptr != 0,
    ;

    /// Moves `value` behind an owning fat pointer: records the static
    /// vtable of its concrete type beside the address the instance now has.
    /// The instance keeps its identity — the box designates it, with no
    /// copy exposed anywhere else.
    fn new_box<X: HasStaticVTable<Self>>(value: X) -> (r: VBox<Self>)
        ensures
            r@.vtable == X::vtable_addr(),
            r@.ptr == value.addr_spec(),
            r.wf(),
    ;
}

/// The static association: exactly one statically allocated vtable instance
/// per (concrete type, descriptor) pair.
///
/// Implementors — ordinarily generated code, one impl per concrete type —
/// must fill that one static's slots with operations whose receiver is
/// exactly `Self`, and must answer here with its address.  Everything else
/// treats the association as ground truth: downcasting compares addresses
/// and nothing ever re-checks the slots, which is why two calls must agree
/// and two distinct concrete types must keep distinct statics even when
/// their slot layouts coincide.
pub trait HasStaticVTable<VT: VTableMeta>: Addressable {
    /// The address of the one static vtable instance for `Self`.
    spec fn vtable_addr() -> usize;

    /// Returns the address of the static vtable instance for `Self`; a
    /// static lives for the whole process at a non-null address.
    fn static_vtable() -> (r: usize)
        ensures
            r == Self::vtable_addr(),
            r != 0,
    ;
}

} // verus!
