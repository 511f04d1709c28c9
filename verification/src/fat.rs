use vstd::prelude::*;

verus! {

/// The two-word fat reference underlying every wrapper: the address of a
/// static vtable and the address of an instance that vtable describes.
///
/// This pair is the common internal representation of `VBox`, `VRef` and
/// `VRefMut`; no wrapper hands it out at run time, but every contract is
/// stated over it (each wrapper's view is its pair).  Well-formedness is the
/// data-model invariant: both words are non-null.  The pairing itself — that
/// the instance at `ptr` has the layout the vtable at `vtable` describes —
/// is established where the pair is created and trusted everywhere else.
#[derive(Clone, Copy)]
pub struct Inner {
    /// Address of the static vtable.
    pub vtable: usize,
    /// Address of the instance the vtable describes.
    pub ptr: usize,
}

impl Inner {
    /// Both words of the pair are non-null.
    pub open spec fn wf(self) -> bool {
        self.vtable != 0 && self.ptr != 0
    }
}

} // verus!
