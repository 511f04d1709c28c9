use vstd::prelude::*;

use crate::meta::{Addressable, HasStaticVTable, VTableMeta, VTableMetaDrop};
use crate::vbox::VBox;

verus! {

/// Address of the static vtable instance that the association below keeps
/// for `Dog`.  In a running process the linker places the static; the model
/// fixes a word for it.
pub const DOG_VTABLE_ADDR: usize = 0x1000;

/// Address of the static vtable instance kept for `Cat` — the same slot
/// shape as `Dog`'s, deliberately at a different address: the shape is
/// shared, the static instance is not.
pub const CAT_VTABLE_ADDR: usize = 0x2000;

/// A small vtable shape, written out the way generated code would register
/// one for an `Animal` trait: a noise-making slot and a destructor slot.
/// The descriptor is a pure marker; each concrete type below keeps its own
/// static instance of the shape.
pub struct AnimalVTable;

impl VTableMeta for AnimalVTable {
}

impl VTableMetaDrop for AnimalVTable {
    /// The destructor slot.  The model keeps no bytes behind the address,
    /// so there is nothing left to release; the slot exists to be invoked
    /// exactly once per owned instance.
    fn destroy(_ptr: usize) {
    }

    /// Boxes a concrete animal: pairs its type's static vtable with the
    /// instance's address.
    fn new_box<X: HasStaticVTable<Self>>(value: X) -> (r: VBox<Self>) {
        let vtable: usize = X::static_vtable();
        let ptr: usize = value.addr();
        VBox::from_raw(vtable, ptr)
    }
}

/// A concrete type associated with the animal vtable shape.
///
/// Its storage address is part of the model: `at` stands for where the
/// instance lives and never changes when the contents do.  `barks` is the
/// observable state.
pub struct Dog {
    at: usize,
    barks: u64,
}

impl Dog {
    /// An instance's address is never null.
    #[verifier::type_invariant]
    spec fn inv(self) -> bool {
        self.at != 0
    }

    /// How many times this dog has barked.
    pub closed spec fn barks_spec(self) -> u64 {
        self.barks
    }

    /// Places a dog at a (non-null) address.
    pub fn new(at: usize, barks: u64) -> (r: Self)
        requires
            at != 0,
        ensures
            r.addr_spec() == at,
            r.barks_spec() == barks,
    {
        Dog { at, barks }
    }

    /// Reads the observable state.
    pub fn barks(&self) -> (r: u64)
        ensures
            r == self.barks_spec(),
    {
        self.barks
    }

    /// Mutates the observable state in place; the address is untouched.
    pub fn set_barks(&mut self, barks: u64)
        ensures
            final(self).addr_spec() == old(self).addr_spec(),
            final(self).barks_spec() == barks,
    {
        proof {
            use_type_invariant(&*self);
        }
        self.barks = barks;
    }
}

impl Addressable for Dog {
    closed spec fn addr_spec(&self) -> usize {
        self.at
    }

    fn addr(&self) -> (r: usize) {
        proof {
            use_type_invariant(&*self);
        }
        self.at
    }
}

impl HasStaticVTable<AnimalVTable> for Dog {
    open spec fn vtable_addr() -> usize {
        DOG_VTABLE_ADDR
    }

    fn static_vtable() -> (r: usize) {
        DOG_VTABLE_ADDR
    }
}

/// A second concrete type under the very same vtable shape as `Dog`, with
/// its own static vtable instance: structurally identical slots, distinct
/// identity.
pub struct Cat {
    at: usize,
    naps: u64,
}

impl Cat {
    /// An instance's address is never null.
    #[verifier::type_invariant]
    spec fn inv(self) -> bool {
        self.at != 0
    }

    /// How many naps this cat has taken.
    pub closed spec fn naps_spec(self) -> u64 {
        self.naps
    }

    /// Places a cat at a (non-null) address.
    pub fn new(at: usize, naps: u64) -> (r: Self)
        requires
            at != 0,
        ensures
            r.addr_spec() == at,
            r.naps_spec() == naps,
    {
        Cat { at, naps }
    }

    /// Reads the observable state.
    pub fn naps(&self) -> (r: u64)
        ensures
            r == self.naps_spec(),
    {
        self.naps
    }
}

impl Addressable for Cat {
    closed spec fn addr_spec(&self) -> usize {
        self.at
    }

    fn addr(&self) -> (r: usize) {
        proof {
            use_type_invariant(&*self);
        }
        self.at
    }
}

impl HasStaticVTable<AnimalVTable> for Cat {
    open spec fn vtable_addr() -> usize {
        CAT_VTABLE_ADDR
    }

    fn static_vtable() -> (r: usize) {
        CAT_VTABLE_ADDR
    }
}

/// A container embedding a `Dog` as a field, for projecting a fat reference
/// onto the field with a `VOffset`: the kennel has its own address, the dog
/// inside it lies at a fixed byte offset from it.
pub struct Kennel {
    at: usize,
    dog: Dog,
}

impl Kennel {
    /// A container's address is never null.
    #[verifier::type_invariant]
    spec fn inv(self) -> bool {
        self.at != 0
    }

    /// The embedded dog.
    pub closed spec fn dog_spec(self) -> Dog {
        self.dog
    }

    /// Places a kennel at a (non-null) address, embedding `dog`.
    pub fn new(at: usize, dog: Dog) -> (r: Self)
        requires
            at != 0,
        ensures
            r.addr_spec() == at,
            r.dog_spec() == dog,
    {
        Kennel { at, dog }
    }

    /// Reads the embedded dog through the container.
    pub fn dog(&self) -> (r: &Dog)
        ensures
            *r == self.dog_spec(),
    {
        &self.dog
    }

    /// Replaces the embedded dog in place, through the direct container
    /// reference; the container's address is untouched.
    pub fn set_dog(&mut self, dog: Dog)
        ensures
            final(self).addr_spec() == old(self).addr_spec(),
            final(self).dog_spec() == dog,
    {
        proof {
            use_type_invariant(&*self);
        }
        self.dog = dog;
    }
}

impl Addressable for Kennel {
    closed spec fn addr_spec(&self) -> usize {
        self.at
    }

    fn addr(&self) -> (r: usize) {
        proof {
            use_type_invariant(&*self);
        }
        self.at
    }
}

} // verus!
