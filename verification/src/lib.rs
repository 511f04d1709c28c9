//! ABI-stable virtual dispatch without native trait objects.
//!
//! A vtable here is a statically allocated aggregate of operations,
//! identified process-wide by its address.  A polymorphic value is reached
//! through a fat reference: one machine word naming the vtable, one naming
//! the instance.  This crate verifies the bookkeeping that every wrapper
//! around that pair must preserve: which vtable a reference carries, which
//! instance it designates, and how downcasting and field-offset projection
//! decide from those two words alone.  Addresses are modelled as plain
//! machine words, so the contracts speak of them directly; what lives at an
//! address is the concern of the static association that paired the words,
//! trusted by everything downstream and never re-checked at run time.
//!
//! The wrappers mirror the three ownership disciplines over one and the same
//! two-word representation: [`VBox`] owns its instance and destroys it
//! exactly once, [`VRef`] is a freely duplicable shared view, [`VRefMut`] an
//! exclusive view that can only be re-borrowed or downgraded.  [`VOffset`]
//! projects a fat reference onto a field embedded in a larger container
//! without a second allocation.

mod animal;
mod fat;
mod laws;
mod meta;
mod vbox;
mod vref;
mod voffset;

pub use animal::{AnimalVTable, Cat, Dog, Kennel, CAT_VTABLE_ADDR, DOG_VTABLE_ADDR};
pub use fat::Inner;
pub use laws::{
    apply_depends_on_address_alone, into_ref_preserves_instance, shared_shape_still_distinguished,
    static_association_unique, vbox_downcast_identity,
};
pub use meta::{Addressable, HasStaticVTable, VTableMeta, VTableMetaDrop};
pub use vbox::VBox;
pub use vref::{downcast_spec, VRef, VRefMut};
pub use voffset::{apply_spec, VOffset};
