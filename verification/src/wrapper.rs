//! The conventions that let generated wrapper types compose.
//!
//! A generated wrapper is a concrete struct holding exactly one handle; it
//! implements [`HasIDispatch`] to expose that handle, and one [`IsA`] per
//! declared parent.  Parent capabilities are added by separate delegating
//! implementations over the same handle, never by embedding a parent struct
//! inside the child.

use vstd::prelude::*;

use crate::IDispatch;

verus! {

/// A component that holds a handle to a remote automation object.  Every
/// wrapper implements this; the dispatch operations are built against the
/// handle it exposes.
pub trait HasIDispatch {
    /// The handle this component holds.
    spec fn spec_idispatch(&self) -> IDispatch;

    /// Borrow the held handle for low-level access.
    fn get_idispatch(&self) -> (r: &IDispatch)
        ensures
            *r == self.spec_idispatch(),
    ;
}

/// A raw handle is its own component.
impl HasIDispatch for IDispatch {
    open spec fn spec_idispatch(&self) -> IDispatch {
        *self
    }

    fn get_idispatch(&self) -> (r: &IDispatch) {
        self
    }
}

/// Declares that this type can be upcast to the parent type `T`.
///
/// Upcasting is a pure relabeling: the parent-typed value holds the very
/// same handle reference as the child, so no remote call is made and no
/// remote state is copied.  Every implementation must prove that the handle
/// is preserved.
pub trait IsA<T: HasIDispatch>: HasIDispatch {
    /// Upcast this value to its parent type, sharing the handle.
    fn upcast(&self) -> (r: T)
        ensures
            r.spec_idispatch() == self.spec_idispatch(),
    ;
}

/// A handle upcasts to itself by sharing the reference; generated wrappers
/// follow the same pattern around their own handle field.
impl IsA<IDispatch> for IDispatch {
    fn upcast(&self) -> (r: IDispatch) {
        self.share()
    }
}

} // verus!
