//! The dispatch invoker: the three operations an accessor performs against a
//! handle — method call, property read, property write — expressed as the
//! exact instructions handed to the external object broker.
//!
//! Every operation first resolves the member name to a numeric dispatch
//! identifier against the handle; the lookup is unconditional on every call,
//! there is no identifier cache.  The broker performs the resolve and the
//! invoke round trips; [`with_dispid`] and [`finish_invoke`] take its answers
//! and either carry the operation forward or surface the broker's failure to
//! the caller unchanged, with no retry.

use vstd::prelude::*;

use crate::IDispatch;
use crate::error::BrokerFailure;
use crate::error::ComError;
use crate::variant::VARIANT;

verus! {

/// The reserved argument identifier that tags the single argument of a
/// property write.
pub const DISPID_PROPERTYPUT: i32 = -3;

/// The three invocation modes of the boundary.
#[derive(Clone, Copy, Debug, PartialEq, Eq, Structural)]
pub enum InvokeMode {
    /// A method call.
    Method,
    /// A property read.
    PropertyGet,
    /// A property write.
    PropertyPut,
}

/// The argument block of one invocation: the arguments in the order the
/// boundary receives them, and the identifiers of the named arguments.
pub struct DISPPARAMS {
    /// Arguments, in boundary order.
    pub args: Vec<VARIANT>,
    /// Identifiers of named arguments; one entry names one argument.
    pub named_args: Vec<i32>,
}

/// Assemble the argument block of a method call.  The boundary's calling
/// convention takes the arguments in the reverse of their declaration
/// order.
pub fn assemble_dispparams_get(args: Vec<VARIANT>) -> (r: DISPPARAMS)
    ensures
        r.args@ == args@.reverse(),
        r.named_args@ == Seq::<i32>::empty(),
{
    let mut rest = args;
    let mut rev: Vec<VARIANT> = Vec::new();
    let ghost all = rest@;
    while rest.len() > 0
        invariant
            rest@.len() <= all.len(),
            rest@ == all.subrange(0, rest.len() as int),
            rev@ == all.subrange(rest.len() as int, all.len() as int).reverse(),
        decreases rest.len(),
    {
        let ghost k = rest@.len();
        let last = rest.pop().unwrap();
        rev.push(last);
        proof {
            assert(rest@ =~= all.subrange(0, rest.len() as int));
            assert(rev@ =~= all.subrange(rest.len() as int, all.len() as int).reverse());
        }
    }
    proof {
        assert(rev@ =~= all.reverse());
    }
    DISPPARAMS { args: rev, named_args: Vec::new() }
}

/// Assemble the argument block of a property write: the arguments stand as
/// given, and each is tagged with the reserved property-put identifier.
pub fn assemble_dispparams_put(args: Vec<VARIANT>) -> (r: DISPPARAMS)
    ensures
        r.args@ == args@,
        r.named_args@ == seq![DISPID_PROPERTYPUT],
{
    let mut named: Vec<i32> = Vec::new();
    named.push(DISPID_PROPERTYPUT);
    proof {
        assert(named@ =~= seq![DISPID_PROPERTYPUT]);
    }
    DISPPARAMS { args, named_args: named }
}

/// One operation, ready for the broker: the handle it targets, the member
/// name the broker must resolve, the mode, and the argument block.
pub struct InvokeRequest {
    /// The handle the operation targets.
    pub target: IDispatch,
    /// The member name; resolved against the handle on every call.
    pub name: String,
    /// The invocation mode.
    pub mode: InvokeMode,
    /// The argument block.
    pub params: DISPPARAMS,
}

/// The three operations an accessor performs against a handle.
pub trait IDispatchExt {
    /// The handle the built operations target.
    spec fn spec_dispatch(&self) -> IDispatch;

    /// A method call: the arguments are submitted in the exact reverse of
    /// their declaration order, and none is named.
    fn call(&self, name: String, args: Vec<VARIANT>) -> (r: InvokeRequest)
        ensures
            r.target == self.spec_dispatch(),
            r.name == name,
            r.mode is Method,
            r.params.args@ == args@.reverse(),
            r.params.named_args@ == Seq::<i32>::empty(),
    ;

    /// A property read: no arguments.
    fn get(&self, name: String) -> (r: InvokeRequest)
        ensures
            r.target == self.spec_dispatch(),
            r.name == name,
            r.mode is PropertyGet,
            r.params.args@ == Seq::<VARIANT>::empty(),
            r.params.named_args@ == Seq::<i32>::empty(),
    ;

    /// A property write: exactly one argument, tagged with the reserved
    /// property-put identifier.
    fn set(&self, name: String, value: VARIANT) -> (r: InvokeRequest)
        ensures
            r.target == self.spec_dispatch(),
            r.name == name,
            r.mode is PropertyPut,
            r.params.args@ == seq![value],
            r.params.named_args@ == seq![DISPID_PROPERTYPUT],
    ;
}

impl IDispatchExt for IDispatch {
    open spec fn spec_dispatch(&self) -> IDispatch {
        *self
    }

    fn call(&self, name: String, args: Vec<VARIANT>) -> (r: InvokeRequest) {
        InvokeRequest {
            target: self.share(),
            name,
            mode: InvokeMode::Method,
            params: assemble_dispparams_get(args),
        }
    }

    fn get(&self, name: String) -> (r: InvokeRequest) {
        let empty: Vec<VARIANT> = Vec::new();
        InvokeRequest {
            target: self.share(),
            name,
            mode: InvokeMode::PropertyGet,
            params: DISPPARAMS { args: empty, named_args: Vec::new() },
        }
    }

    fn set(&self, name: String, value: VARIANT) -> (r: InvokeRequest) {
        let mut one: Vec<VARIANT> = Vec::new();
        one.push(value);
        proof {
            assert(one@ =~= seq![value]);
        }
        InvokeRequest {
            target: self.share(),
            name,
            mode: InvokeMode::PropertyPut,
            params: assemble_dispparams_put(one),
        }
    }
}

/// An operation whose member name the broker has resolved: the numeric
/// dispatch identifier stands in for the name, everything else is carried
/// over unchanged.
pub struct ResolvedInvoke {
    /// The handle the operation targets.
    pub target: IDispatch,
    /// The resolved dispatch identifier.
    pub dispid: i32,
    /// The invocation mode.
    pub mode: InvokeMode,
    /// The argument block.
    pub params: DISPPARAMS,
}

/// Take the broker's answer to the name lookup.  On success the operation
/// goes forward under the resolved identifier; on failure the broker's code
/// and message surface unchanged and no invoke is performed.
pub fn with_dispid(req: InvokeRequest, resolved: Result<i32, BrokerFailure>) -> (r: Result<
    ResolvedInvoke,
    ComError,
>)
    ensures
        resolved matches Ok(id) ==> r matches Ok(inv) && inv.target == req.target && inv.dispid
            == id && inv.mode == req.mode && inv.params == req.params,
        resolved matches Err(f) ==> r == Err::<ResolvedInvoke, ComError>(
            ComError::Invoke { code: f.code, message: f.message },
        ),
{
    match resolved {
        Ok(id) => Ok(
            ResolvedInvoke { target: req.target, dispid: id, mode: req.mode, params: req.params },
        ),
        Err(f) => Err(ComError::Invoke { code: f.code, message: f.message }),
    }
}

/// Take the broker's answer to the invoke round trip: the sole output value
/// on success, the broker's code and message unchanged on failure.
pub fn finish_invoke(outcome: Result<VARIANT, BrokerFailure>) -> (r: Result<VARIANT, ComError>)
    ensures
        outcome matches Ok(v) ==> r == Ok::<VARIANT, ComError>(v),
        outcome matches Err(f) ==> r == Err::<VARIANT, ComError>(
            ComError::Invoke { code: f.code, message: f.message },
        ),
{
    match outcome {
        Ok(v) => Ok(v),
        Err(f) => Err(ComError::Invoke { code: f.code, message: f.message }),
    }
}

} // verus!
