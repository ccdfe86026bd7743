use com_shim::ComError;
use com_shim::IDispatch;
use com_shim::VARIANT;
use com_shim::VariantExt;
use com_shim::VariantTag;
use com_shim::VariantTypeExt;
use com_shim::coerce;

#[test]
fn roundtrip_unit() {
    let v: VARIANT = <VARIANT as VariantTypeExt<()>>::variant_from(());
    assert_eq!(v, VARIANT::Null);
    let r: Result<(), ComError> = v.variant_into();
    assert_eq!(r, Ok(()));
}

#[test]
fn roundtrip_i16() {
    let v: VARIANT = <VARIANT as VariantTypeExt<i16>>::variant_from(-1234);
    assert_eq!(v, VARIANT::I2(-1234));
    let r: Result<i16, ComError> = v.variant_into();
    assert_eq!(r, Ok(-1234));
}

#[test]
fn roundtrip_i32() {
    let v: VARIANT = <VARIANT as VariantTypeExt<i32>>::variant_from(77_000_000);
    let r: Result<i32, ComError> = v.variant_into();
    assert_eq!(r, Ok(77_000_000));
}

#[test]
fn roundtrip_i64() {
    let v: VARIANT = <VARIANT as VariantTypeExt<i64>>::variant_from(i64::MIN);
    let r: Result<i64, ComError> = v.variant_into();
    assert_eq!(r, Ok(i64::MIN));
}

#[test]
fn roundtrip_u8() {
    let v: VARIANT = <VARIANT as VariantTypeExt<u8>>::variant_from(255);
    let r: Result<u8, ComError> = v.variant_into();
    assert_eq!(r, Ok(255));
}

#[test]
fn roundtrip_u16() {
    let v: VARIANT = <VARIANT as VariantTypeExt<u16>>::variant_from(65535);
    let r: Result<u16, ComError> = v.variant_into();
    assert_eq!(r, Ok(65535));
}

#[test]
fn roundtrip_u32() {
    let v: VARIANT = <VARIANT as VariantTypeExt<u32>>::variant_from(4_000_000_000);
    let r: Result<u32, ComError> = v.variant_into();
    assert_eq!(r, Ok(4_000_000_000));
}

#[test]
fn roundtrip_u64() {
    let v: VARIANT = <VARIANT as VariantTypeExt<u64>>::variant_from(u64::MAX);
    let r: Result<u64, ComError> = v.variant_into();
    assert_eq!(r, Ok(u64::MAX));
}

#[test]
fn roundtrip_string() {
    let v: VARIANT = <VARIANT as VariantTypeExt<String>>::variant_from("hello".to_string());
    assert_eq!(v, VARIANT::Bstr("hello".to_string()));
    let r: Result<String, ComError> = v.variant_into();
    assert_eq!(r, Ok("hello".to_string()));
}

#[test]
fn roundtrip_bool() {
    let v: VARIANT = <VARIANT as VariantTypeExt<bool>>::variant_from(true);
    let r: Result<bool, ComError> = v.variant_into();
    assert_eq!(r, Ok(true));
    let w: VARIANT = <VARIANT as VariantTypeExt<bool>>::variant_from(false);
    let s: Result<bool, ComError> = w.variant_into();
    assert_eq!(s, Ok(false));
}

#[test]
fn roundtrip_dispatch_shares_handle() {
    let h = IDispatch::from_raw(42);
    let v: VARIANT = <VARIANT as VariantTypeExt<IDispatch>>::variant_from(h.share());
    let r: Result<IDispatch, ComError> = v.variant_into();
    assert_eq!(r.unwrap().raw(), 42);
}

#[test]
fn null_variant_carries_nothing() {
    let v = VARIANT::null();
    assert_eq!(v, VARIANT::Null);
    assert_eq!(v.tag(), VariantTag::Null);
}

#[test]
fn integer_coercion_widens() {
    let v = VARIANT::I2(42);
    let r: Result<i64, ComError> = v.variant_into();
    assert_eq!(r, Ok(42i64));
}

#[test]
fn integer_coercion_narrows_when_representable() {
    let v = VARIANT::UI8(200);
    let r: Result<u8, ComError> = v.variant_into();
    assert_eq!(r, Ok(200u8));
}

#[test]
fn integer_coercion_fails_out_of_range() {
    let v = VARIANT::I4(300);
    let r: Result<u8, ComError> = v.variant_into();
    assert_eq!(
        r,
        Err(ComError::Conversion { expected: VariantTag::UI1, found: VariantTag::I4 })
    );
}

#[test]
fn negative_does_not_fit_unsigned() {
    let v = VARIANT::I2(-1);
    let r: Result<u64, ComError> = v.variant_into();
    assert_eq!(
        r,
        Err(ComError::Conversion { expected: VariantTag::UI8, found: VariantTag::I2 })
    );
}

#[test]
fn string_tag_is_not_coerced_from_integer() {
    let v = VARIANT::I4(7);
    let r: Result<String, ComError> = v.variant_into();
    assert_eq!(
        r,
        Err(ComError::Conversion { expected: VariantTag::Bstr, found: VariantTag::I4 })
    );
}

#[test]
fn bool_tag_is_not_coerced_from_integer() {
    let v = VARIANT::UI1(1);
    let r: Result<bool, ComError> = v.variant_into();
    assert_eq!(
        r,
        Err(ComError::Conversion { expected: VariantTag::Bool, found: VariantTag::UI1 })
    );
}

#[test]
fn missing_object_reference_on_empty_dispatch() {
    let v = VARIANT::Dispatch(None);
    let r: Result<IDispatch, ComError> = v.variant_into();
    assert_eq!(r, Err(ComError::MissingObject));
}

#[test]
fn missing_object_reference_on_wrong_tag() {
    let v = VARIANT::I2(9);
    let r: Result<IDispatch, ComError> = v.variant_into();
    assert_eq!(r, Err(ComError::MissingObject));
}

#[test]
fn coerce_same_tag_is_identity() {
    let v = VARIANT::Bstr("text".to_string());
    let r = coerce(&v, VariantTag::Bstr);
    assert_eq!(r, Ok(VARIANT::Bstr("text".to_string())));
    // the original is untouched
    assert_eq!(v, VARIANT::Bstr("text".to_string()));
}

#[test]
fn coerce_incompatible_tags_fails() {
    let v = VARIANT::Bool(true);
    let r = coerce(&v, VariantTag::I4);
    assert_eq!(
        r,
        Err(ComError::Conversion { expected: VariantTag::I4, found: VariantTag::Bool })
    );
}

#[test]
fn duplicate_preserves_value() {
    let v = VARIANT::Dispatch(Some(IDispatch::from_raw(5)));
    let w = v.duplicate();
    assert_eq!(v, w);
}
