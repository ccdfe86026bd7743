use std::collections::HashMap;

use com_shim::AccessorKind;
use com_shim::BrokerFailure;
use com_shim::ComError;
use com_shim::HasIDispatch;
use com_shim::IDispatch;
use com_shim::IDispatchExt;
use com_shim::InvokeMode;
use com_shim::InvokeRequest;
use com_shim::IsA;
use com_shim::VARIANT;
use com_shim::VariantTypeExt;
use com_shim::com_shim;
use com_shim::finish_invoke;
use com_shim::with_dispid;

// Two hand-written wrappers of the shape the generator describes for
// `class Child : Parent { }`: each holds exactly one handle.

struct Parent {
    inner: IDispatch,
}

struct Child {
    inner: IDispatch,
}

// Outside verified code the ghost `spec_idispatch` member survives as an
// ordinary trait item; an implementation returns the held handle, exactly as
// generated wrapper code does.

impl HasIDispatch for Parent {
    fn spec_idispatch(&self) -> IDispatch {
        self.inner
    }

    fn get_idispatch(&self) -> &IDispatch {
        &self.inner
    }
}

impl HasIDispatch for Child {
    fn spec_idispatch(&self) -> IDispatch {
        self.inner
    }

    fn get_idispatch(&self) -> &IDispatch {
        &self.inner
    }
}

impl IsA<Parent> for Child {
    fn upcast(&self) -> Parent {
        Parent { inner: self.inner.share() }
    }
}

#[test]
fn upcast_preserves_the_handle_reference() {
    // Upcasting relabels: the parent-typed view references the same handle
    // the child holds; no remote call, no copy of remote state.
    let child = Child { inner: IDispatch::from_raw(1234) };
    let parent: Parent = child.upcast();
    assert_eq!(parent.get_idispatch().raw(), child.get_idispatch().raw());
    assert_eq!(parent.get_idispatch(), child.get_idispatch());
}

#[test]
fn handle_upcasts_to_itself() {
    let h = IDispatch::from_raw(9);
    let i: IDispatch = h.upcast();
    assert_eq!(i, h);
}

// An in-memory stand-in for the external object broker: it resolves member
// names to numeric identifiers and performs invokes against a small record.
struct FakeObject {
    ids: HashMap<String, i32>,
    properties: HashMap<i32, VARIANT>,
    calls: Vec<(i32, Vec<VARIANT>)>,
}

impl FakeObject {
    fn new() -> FakeObject {
        FakeObject { ids: HashMap::new(), properties: HashMap::new(), calls: Vec::new() }
    }

    fn resolve(&self, name: &str) -> Result<i32, BrokerFailure> {
        self.ids.get(name).copied().ok_or(BrokerFailure {
            code: -2147352570,
            message: format!("unknown member: {name}"),
        })
    }

    // One resolve round trip, then one invoke round trip, exactly as the
    // dispatch invoker lays the operation out.
    fn run(&mut self, req: InvokeRequest) -> Result<VARIANT, ComError> {
        let resolved = self.resolve(req.name.as_str());
        let inv = with_dispid(req, resolved)?;
        let outcome = match inv.mode {
            InvokeMode::PropertyGet => match self.properties.get(&inv.dispid) {
                Some(v) => Ok(v.duplicate()),
                None => Err(BrokerFailure { code: 1, message: "no value".to_string() }),
            },
            InvokeMode::PropertyPut => {
                let mut args = inv.params.args;
                let value = args.pop().expect("a property write carries one argument");
                self.properties.insert(inv.dispid, value);
                Ok(VARIANT::Null)
            },
            InvokeMode::Method => {
                self.calls.push((inv.dispid, inv.params.args));
                Ok(VARIANT::Bool(true))
            },
        };
        finish_invoke(outcome)
    }
}

#[test]
fn property_write_then_read_round_trips_through_the_broker() {
    let mut object = FakeObject::new();
    object.ids.insert("Bar".to_string(), 7);
    let handle = IDispatch::from_raw(1);

    let put = handle.set(
        "Bar".to_string(),
        <VARIANT as VariantTypeExt<i32>>::variant_from(55),
    );
    object.run(put).unwrap();

    let got = object.run(handle.get("Bar".to_string())).unwrap();
    let n: Result<i32, ComError> = got.variant_into();
    assert_eq!(n, Ok(55));
}

#[test]
fn unknown_member_surfaces_the_broker_failure() {
    let mut object = FakeObject::new();
    let handle = IDispatch::from_raw(1);
    let r = object.run(handle.get("Nope".to_string()));
    assert!(matches!(r, Err(ComError::Invoke { code: -2147352570, .. })));
}

#[test]
fn generated_accessors_drive_the_invoker() {
    // The scenario class, end to end: generate the surface, then perform
    // each accessor against an in-memory object through the invoker.
    let api = com_shim("class Foo { mut Bar: i32, fn Baz(String) -> bool }").unwrap();
    let mut object = FakeObject::new();
    object.ids.insert("Bar".to_string(), 10);
    object.ids.insert("Baz".to_string(), 11);
    let handle = IDispatch::from_raw(42);

    // set_bar(33)
    let setter = &api.accessors[1];
    assert_eq!(setter.kind, AccessorKind::PropertyPut);
    let req = handle.set(
        setter.com_name.clone(),
        <VARIANT as VariantTypeExt<i32>>::variant_from(33),
    );
    let out = object.run(req).unwrap();
    let done: Result<(), ComError> = out.variant_into();
    assert_eq!(done, Ok(()));

    // bar() == 33
    let getter = &api.accessors[0];
    assert_eq!(getter.kind, AccessorKind::PropertyGet);
    let got = object.run(handle.get(getter.com_name.clone())).unwrap();
    let n: Result<i32, ComError> = got.variant_into();
    assert_eq!(n, Ok(33));

    // baz("p0") == true, with the argument submitted to the boundary
    let method = &api.accessors[2];
    assert_eq!(method.kind, AccessorKind::MethodCall);
    let req = handle.call(
        method.com_name.clone(),
        vec![<VARIANT as VariantTypeExt<String>>::variant_from("p0".to_string())],
    );
    let got = object.run(req).unwrap();
    let b: Result<bool, ComError> = got.variant_into();
    assert_eq!(b, Ok(true));
    assert_eq!(object.calls.len(), 1);
    assert_eq!(object.calls[0].1, vec![VARIANT::Bstr("p0".to_string())]);
}
