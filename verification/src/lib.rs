//! Typed wrapper generation for objects driven through a name-based,
//! late-bound invocation protocol.
//!
//! The crate has three layers:
//! - a parser for a compact class-description language (`token`, `parse`),
//! - a generator that turns a parsed class into a description of the typed
//!   accessor surface (`generate`),
//! - a runtime marshalling and dispatch layer that converts native values to
//!   and from the boundary's tagged-union representation and prepares the
//!   invocations an external object broker performs (`variant`, `dispatch`,
//!   `wrapper`).

use vstd::prelude::*;

pub mod ast;
pub mod dispatch;
pub mod error;
pub mod generate;
pub mod parse;
pub mod token;
pub mod variant;
pub mod wrapper;

pub use dispatch::DISPID_PROPERTYPUT;
pub use dispatch::DISPPARAMS;
pub use dispatch::IDispatchExt;
pub use dispatch::InvokeMode;
pub use dispatch::InvokeRequest;
pub use dispatch::ResolvedInvoke;
pub use dispatch::assemble_dispparams_get;
pub use dispatch::assemble_dispparams_put;
pub use dispatch::finish_invoke;
pub use dispatch::with_dispid;
pub use ast::ClassDefinition;
pub use ast::Member;
pub use ast::Type;
pub use error::BrokerFailure;
pub use error::ComError;
pub use error::Expected;
pub use error::GenerationError;
pub use generate::Accessor;
pub use generate::AccessorKind;
pub use generate::GeneratedApi;
pub use generate::ReturnKind;
pub use generate::com_shim;
pub use generate::generate;
pub use parse::parse_class;
pub use token::Token;
pub use token::TokenKind;
pub use token::tokenize;
pub use variant::VARIANT;
pub use variant::VariantExt;
pub use variant::VariantTag;
pub use variant::VariantTypeExt;
pub use variant::coerce;
pub use wrapper::HasIDispatch;
pub use wrapper::IsA;

verus! {

/// A handle to a remote automation object: an opaque shared reference,
/// identified by the numeric value the broker issued for it.  Cloning a
/// handle clones the reference, never the remote object.
#[derive(Clone, Copy, Debug, PartialEq, Eq, Structural)]
pub struct IDispatch {
    id: u64,
}

impl IDispatch {
    /// The numeric identity of the remote reference.
    pub closed spec fn spec_id(&self) -> u64 {
        self.id
    }

    /// Wrap a raw reference value obtained from the broker.
    pub fn from_raw(id: u64) -> (r: IDispatch)
        ensures
            r.spec_id() == id,
    {
        IDispatch { id }
    }

    /// The raw reference value, as the broker issued it.
    pub fn raw(&self) -> (r: u64)
        ensures
            r == self.spec_id(),
    {
        self.id
    }

    /// A new reference to the same remote object.  No remote call is made
    /// and no remote state is copied.
    pub fn share(&self) -> (r: IDispatch)
        ensures
            r == *self,
    {
        IDispatch { id: self.id }
    }
}

} // verus!
