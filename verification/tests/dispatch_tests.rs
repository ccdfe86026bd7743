use com_shim::BrokerFailure;
use com_shim::ComError;
use com_shim::DISPID_PROPERTYPUT;
use com_shim::IDispatch;
use com_shim::IDispatchExt;
use com_shim::InvokeMode;
use com_shim::VARIANT;
use com_shim::assemble_dispparams_get;
use com_shim::assemble_dispparams_put;
use com_shim::finish_invoke;
use com_shim::with_dispid;

#[test]
fn set_submits_exactly_one_property_put_argument() {
    // `set` always submits exactly one argument, tagged with the reserved
    // property-put identifier.
    let h = IDispatch::from_raw(1);
    let req = h.set("Highlighted".to_string(), VARIANT::Bool(true));
    assert_eq!(req.mode, InvokeMode::PropertyPut);
    assert_eq!(req.name, "Highlighted");
    assert_eq!(req.params.args, vec![VARIANT::Bool(true)]);
    assert_eq!(req.params.named_args, vec![DISPID_PROPERTYPUT]);
    assert_eq!(req.target.raw(), 1);
}

#[test]
fn property_put_identifier_is_the_reserved_one() {
    assert_eq!(DISPID_PROPERTYPUT, -3);
}

#[test]
fn call_submits_arguments_in_reverse_declaration_order() {
    let h = IDispatch::from_raw(2);
    let req = h.call(
        "Baz".to_string(),
        vec![VARIANT::I4(1), VARIANT::I4(2), VARIANT::I4(3)],
    );
    assert_eq!(req.mode, InvokeMode::Method);
    assert_eq!(req.params.args, vec![VARIANT::I4(3), VARIANT::I4(2), VARIANT::I4(1)]);
    assert!(req.params.named_args.is_empty());
}

#[test]
fn get_submits_no_arguments() {
    let h = IDispatch::from_raw(3);
    let req = h.get("Text".to_string());
    assert_eq!(req.mode, InvokeMode::PropertyGet);
    assert_eq!(req.name, "Text");
    assert!(req.params.args.is_empty());
    assert!(req.params.named_args.is_empty());
}

#[test]
fn assemble_get_reverses() {
    let p = assemble_dispparams_get(vec![VARIANT::UI1(1), VARIANT::UI1(2)]);
    assert_eq!(p.args, vec![VARIANT::UI1(2), VARIANT::UI1(1)]);
    assert!(p.named_args.is_empty());
}

#[test]
fn assemble_put_names_its_argument() {
    let p = assemble_dispparams_put(vec![VARIANT::I8(7)]);
    assert_eq!(p.args, vec![VARIANT::I8(7)]);
    assert_eq!(p.named_args, vec![DISPID_PROPERTYPUT]);
}

#[test]
fn resolution_success_carries_the_operation_forward() {
    let h = IDispatch::from_raw(4);
    let req = h.get("Text".to_string());
    let inv = with_dispid(req, Ok(17)).unwrap();
    assert_eq!(inv.dispid, 17);
    assert_eq!(inv.mode, InvokeMode::PropertyGet);
    assert_eq!(inv.target.raw(), 4);
    assert!(inv.params.args.is_empty());
}

#[test]
fn resolution_failure_surfaces_code_and_message_unchanged() {
    let h = IDispatch::from_raw(5);
    let req = h.get("Missing".to_string());
    let r = with_dispid(
        req,
        Err(BrokerFailure { code: -2147352570, message: "unknown name".to_string() }),
    );
    assert_eq!(
        r.err(),
        Some(ComError::Invoke { code: -2147352570, message: "unknown name".to_string() })
    );
}

#[test]
fn invoke_success_returns_the_sole_output_value() {
    let r = finish_invoke(Ok(VARIANT::Bstr("v".to_string())));
    assert_eq!(r, Ok(VARIANT::Bstr("v".to_string())));
}

#[test]
fn invoke_failure_surfaces_code_and_message_unchanged() {
    let r = finish_invoke(Err(BrokerFailure { code: 5, message: "boom".to_string() }));
    assert_eq!(r, Err(ComError::Invoke { code: 5, message: "boom".to_string() }));
}
