use com_shim::AccessorKind;
use com_shim::ComError;
use com_shim::GeneratedApi;
use com_shim::GenerationError;
use com_shim::IDispatch;
use com_shim::ReturnKind;
use com_shim::Type;
use com_shim::VARIANT;
use com_shim::VariantTypeExt;
use com_shim::com_shim;

fn gen(input: &str) -> GeneratedApi {
    com_shim(input).unwrap()
}

#[test]
fn scenario_foo_bar_baz() {
    // `class Foo { mut Bar: i32, fn Baz(String) -> bool }` yields accessors
    // equivalent to `bar() -> Result<i32>`, `set_bar(i32) -> Result<()>` and
    // `baz(String) -> Result<bool>`, wired through get, set and call.
    let api = gen("class Foo { mut Bar: i32, fn Baz(String) -> bool }");
    assert_eq!(api.wrapper_name, "Foo");
    assert_eq!(api.interface_name, "FooExt");
    assert_eq!(api.accessors.len(), 3);

    let getter = &api.accessors[0];
    assert_eq!(getter.ident, "bar");
    assert_eq!(getter.com_name, "Bar");
    assert_eq!(getter.kind, AccessorKind::PropertyGet);
    assert!(getter.params.is_empty());
    assert_eq!(getter.result, ReturnKind::Value(Type::I32));

    let setter = &api.accessors[1];
    assert_eq!(setter.ident, "set_bar");
    assert_eq!(setter.com_name, "Bar");
    assert_eq!(setter.kind, AccessorKind::PropertyPut);
    assert_eq!(setter.params, vec![Type::I32]);
    assert_eq!(setter.result, ReturnKind::NoValue);

    let method = &api.accessors[2];
    assert_eq!(method.ident, "baz");
    assert_eq!(method.com_name, "Baz");
    assert_eq!(method.kind, AccessorKind::MethodCall);
    assert_eq!(method.params, vec![Type::Str]);
    assert_eq!(method.result, ReturnKind::Value(Type::Bool));
}

#[test]
fn mutable_property_yields_getter_and_setter() {
    let api = gen("class Foo { mut Highlighted: bool }");
    assert_eq!(api.accessors.len(), 2);
    assert_eq!(api.accessors[0].kind, AccessorKind::PropertyGet);
    assert_eq!(api.accessors[1].kind, AccessorKind::PropertyPut);
}

#[test]
fn immutable_property_yields_only_a_getter() {
    let api = gen("class Foo { CaretPosition: i64 }");
    assert_eq!(api.accessors.len(), 1);
    assert_eq!(api.accessors[0].kind, AccessorKind::PropertyGet);
    assert_eq!(api.accessors[0].result, ReturnKind::Value(Type::I64));
}

#[test]
fn method_without_return_yields_no_value_result() {
    let api = gen("class Foo { fn SetFocus() }");
    assert_eq!(api.accessors.len(), 1);
    assert_eq!(api.accessors[0].ident, "set_focus");
    assert_eq!(api.accessors[0].result, ReturnKind::NoValue);
}

#[test]
fn object_return_rewraps_the_returned_handle() {
    let api = gen("class Foo { fn GetListProperty(String) -> GuiComponent }");
    assert_eq!(
        api.accessors[0].result,
        ReturnKind::Value(Type::Object("GuiComponent".to_string()))
    );
    // The wrapper built from an object-typed result holds the very handle
    // the raw return value carried.
    let raw = VARIANT::Dispatch(Some(IDispatch::from_raw(99)));
    let handle: Result<IDispatch, ComError> = raw.variant_into();
    assert_eq!(handle.unwrap().raw(), 99);
}

#[test]
fn names_are_case_normalized() {
    let api = gen("class Foo { CaretPosition: i64, fn GetListProperty(String) }");
    assert_eq!(api.accessors[0].ident, "caret_position");
    assert_eq!(api.accessors[1].ident, "get_list_property");
}

#[test]
fn reserved_words_are_escaped() {
    let api = gen("class Foo { Type: i32, fn Match(u8) }");
    assert_eq!(api.accessors[0].ident, "type_");
    assert_eq!(api.accessors[0].com_name, "Type");
    assert_eq!(api.accessors[1].ident, "match_");
    assert_eq!(api.accessors[1].com_name, "Match");
}

#[test]
fn setter_names_are_not_reserved() {
    let api = gen("class Foo { mut Type: i32 }");
    assert_eq!(api.accessors[0].ident, "type_");
    assert_eq!(api.accessors[1].ident, "set_type");
}

#[test]
fn attributes_reattach_to_every_accessor_of_the_member() {
    let api = gen("class Foo { /// Highlight state\n mut Highlighted: bool }");
    assert_eq!(api.accessors[0].attributes, vec!["/// Highlight state".to_string()]);
    assert_eq!(api.accessors[1].attributes, vec!["/// Highlight state".to_string()]);
}

#[test]
fn class_attributes_reattach_to_the_wrapper() {
    let api = gen("/// A generic GUI component\nclass GuiComponent { Text: String }");
    assert_eq!(api.attributes, vec!["/// A generic GUI component".to_string()]);
}

#[test]
fn parents_yield_delegations_and_upcasts() {
    let api = gen("class GuiTextField: GuiVComponent + GuiComponent { }");
    assert_eq!(
        api.parent_interfaces,
        vec!["GuiVComponentExt".to_string(), "GuiComponentExt".to_string()]
    );
    assert_eq!(api.upcasts, vec!["GuiVComponent".to_string(), "GuiComponent".to_string()]);
}

#[test]
fn accessors_keep_member_order() {
    let api = gen("class Foo { A: i32, fn B(), mut C: u8 }");
    let idents: Vec<&str> = api.accessors.iter().map(|a| a.ident.as_str()).collect();
    assert_eq!(idents, vec!["a", "b", "c", "set_c"]);
}

#[test]
fn malformed_input_produces_no_output() {
    let r = com_shim("class Foo { Bar i32 }");
    assert!(matches!(r, Err(GenerationError::ExpectedToken { .. })));
}

#[test]
fn generation_is_a_pure_function_of_the_text() {
    let a = gen("class Foo { mut Bar: i32 }");
    let b = gen("class Foo { mut Bar: i32 }");
    assert_eq!(a, b);
}
