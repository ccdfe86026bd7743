//! The tagged-union value representation crossing the invocation boundary,
//! and the conversions between native typed values and that representation.
//!
//! Before a payload is read out of a value, the value is coerced to the
//! requested tag.  The model coerces between the integer kinds whenever the
//! held number is representable in the requested kind; every other pair of
//! tags must match exactly.  A coerced value is a fresh value: the original
//! is left in place and nothing is leaked, since every temporary is dropped
//! on both the success and the failure path.

use vstd::prelude::*;

use crate::IDispatch;
use crate::error::ComError;

verus! {

/// The tag of a boundary value.
#[derive(Clone, Copy, Debug, PartialEq, Eq, Structural)]
pub enum VariantTag {
    /// No value.
    Null,
    /// Signed 16-bit integer.
    I2,
    /// Signed 32-bit integer.
    I4,
    /// Signed 64-bit integer.
    I8,
    /// Unsigned 8-bit integer.
    UI1,
    /// Unsigned 16-bit integer.
    UI2,
    /// Unsigned 32-bit integer.
    UI4,
    /// Unsigned 64-bit integer.
    UI8,
    /// Heap-allocated text.
    Bstr,
    /// Boolean.
    Bool,
    /// An embedded object reference.
    Dispatch,
}

/// A boundary value: a tag and the payload it owns.  Ownership of a heap
/// payload (text, an object reference) transfers with the value, so the
/// value alone is responsible for releasing it.
#[derive(Debug, PartialEq)]
pub enum VARIANT {
    /// No value.
    Null,
    /// Signed 16-bit integer.
    I2(i16),
    /// Signed 32-bit integer.
    I4(i32),
    /// Signed 64-bit integer.
    I8(i64),
    /// Unsigned 8-bit integer.
    UI1(u8),
    /// Unsigned 16-bit integer.
    UI2(u16),
    /// Unsigned 32-bit integer.
    UI4(u32),
    /// Unsigned 64-bit integer.
    UI8(u64),
    /// Heap-allocated text; the variant owns it.
    Bstr(String),
    /// Boolean.
    Bool(bool),
    /// An object reference, possibly absent.
    Dispatch(Option<IDispatch>),
}

/// The tag of a value.
pub open spec fn tag_of(v: VARIANT) -> VariantTag {
    match v {
        VARIANT::Null => VariantTag::Null,
        VARIANT::I2(_) => VariantTag::I2,
        VARIANT::I4(_) => VariantTag::I4,
        VARIANT::I8(_) => VariantTag::I8,
        VARIANT::UI1(_) => VariantTag::UI1,
        VARIANT::UI2(_) => VariantTag::UI2,
        VARIANT::UI4(_) => VariantTag::UI4,
        VARIANT::UI8(_) => VariantTag::UI8,
        VARIANT::Bstr(_) => VariantTag::Bstr,
        VARIANT::Bool(_) => VariantTag::Bool,
        VARIANT::Dispatch(_) => VariantTag::Dispatch,
    }
}

/// The number a value holds, if its tag is one of the integer kinds.
pub open spec fn spec_int_value(v: VARIANT) -> Option<int> {
    match v {
        VARIANT::I2(n) => Some(n as int),
        VARIANT::I4(n) => Some(n as int),
        VARIANT::I8(n) => Some(n as int),
        VARIANT::UI1(n) => Some(n as int),
        VARIANT::UI2(n) => Some(n as int),
        VARIANT::UI4(n) => Some(n as int),
        VARIANT::UI8(n) => Some(n as int),
        _ => None,
    }
}

/// Whether `n` is representable in the integer kind tagged `t`.  False for
/// every tag that is not an integer kind.
pub open spec fn spec_in_range(t: VariantTag, n: int) -> bool {
    match t {
        VariantTag::I2 => i16::MIN <= n <= i16::MAX,
        VariantTag::I4 => i32::MIN <= n <= i32::MAX,
        VariantTag::I8 => i64::MIN <= n <= i64::MAX,
        VariantTag::UI1 => 0 <= n <= u8::MAX,
        VariantTag::UI2 => 0 <= n <= u16::MAX,
        VariantTag::UI4 => 0 <= n <= u32::MAX,
        VariantTag::UI8 => 0 <= n <= u64::MAX,
        _ => false,
    }
}

/// The value of integer kind `t` holding `n`.
pub open spec fn spec_make_int(t: VariantTag, n: int) -> VARIANT
    recommends
        spec_in_range(t, n),
{
    match t {
        VariantTag::I2 => VARIANT::I2(n as i16),
        VariantTag::I4 => VARIANT::I4(n as i32),
        VariantTag::I8 => VARIANT::I8(n as i64),
        VariantTag::UI1 => VARIANT::UI1(n as u8),
        VariantTag::UI2 => VARIANT::UI2(n as u16),
        VariantTag::UI4 => VARIANT::UI4(n as u32),
        VariantTag::UI8 => VARIANT::UI8(n as u64),
        _ => VARIANT::Null,
    }
}

/// What coercion returns: the same value on a matching tag; a fresh value of
/// the requested integer kind when an integer is representable there; and a
/// conversion failure naming both tags otherwise.
pub open spec fn spec_coerce(v: VARIANT, target: VariantTag) -> Result<VARIANT, ComError> {
    if tag_of(v) == target {
        Ok(v)
    } else if spec_int_value(v) matches Some(n) && spec_in_range(target, n) {
        Ok(spec_make_int(target, spec_int_value(v)->Some_0))
    } else {
        Err(ComError::Conversion { expected: target, found: tag_of(v) })
    }
}

impl VARIANT {
    /// The tag of this value.
    pub fn tag(&self) -> (t: VariantTag)
        ensures
            t == tag_of(*self),
    {
        match self {
            VARIANT::Null => VariantTag::Null,
            VARIANT::I2(_) => VariantTag::I2,
            VARIANT::I4(_) => VariantTag::I4,
            VARIANT::I8(_) => VariantTag::I8,
            VARIANT::UI1(_) => VariantTag::UI1,
            VARIANT::UI2(_) => VariantTag::UI2,
            VARIANT::UI4(_) => VariantTag::UI4,
            VARIANT::UI8(_) => VariantTag::UI8,
            VARIANT::Bstr(_) => VariantTag::Bstr,
            VARIANT::Bool(_) => VariantTag::Bool,
            VARIANT::Dispatch(_) => VariantTag::Dispatch,
        }
    }

    /// A fresh value equal to this one.  Cloning an object reference clones
    /// the reference, never the remote object.
    pub fn duplicate(&self) -> (r: VARIANT)
        ensures
            r == *self,
    {
        match self {
            VARIANT::Null => VARIANT::Null,
            VARIANT::I2(n) => VARIANT::I2(*n),
            VARIANT::I4(n) => VARIANT::I4(*n),
            VARIANT::I8(n) => VARIANT::I8(*n),
            VARIANT::UI1(n) => VARIANT::UI1(*n),
            VARIANT::UI2(n) => VARIANT::UI2(*n),
            VARIANT::UI4(n) => VARIANT::UI4(*n),
            VARIANT::UI8(n) => VARIANT::UI8(*n),
            VARIANT::Bstr(s) => VARIANT::Bstr(s.clone()),
            VARIANT::Bool(b) => VARIANT::Bool(*b),
            VARIANT::Dispatch(d) => match d {
                Some(h) => VARIANT::Dispatch(Some(h.share())),
                None => VARIANT::Dispatch(None),
            },
        }
    }

    /// The held number, for the integer kinds, widened to a common width.
    fn int_value(&self) -> (r: Option<i128>)
        ensures
            r matches Some(m) ==> spec_int_value(*self) == Some(m as int),
            r is None ==> spec_int_value(*self) is None,
    {
        match self {
            VARIANT::I2(n) => Some(*n as i128),
            VARIANT::I4(n) => Some(*n as i128),
            VARIANT::I8(n) => Some(*n as i128),
            VARIANT::UI1(n) => Some(*n as i128),
            VARIANT::UI2(n) => Some(*n as i128),
            VARIANT::UI4(n) => Some(*n as i128),
            VARIANT::UI8(n) => Some(*n as i128),
            _ => None,
        }
    }
}

/// Coerce `v` to the requested tag, as the boundary does before a payload is
/// extracted.  The original value stays with the caller; the result is a
/// fresh value.
pub fn coerce(v: &VARIANT, target: VariantTag) -> (r: Result<VARIANT, ComError>)
    ensures
        r == spec_coerce(*v, target),
{
    if v.tag() == target {
        return Ok(v.duplicate());
    }
    match v.int_value() {
        Some(n) => {
            match target {
                VariantTag::I2 => {
                    if i16::MIN as i128 <= n && n <= i16::MAX as i128 {
                        Ok(VARIANT::I2(n as i16))
                    } else {
                        Err(ComError::Conversion { expected: target, found: v.tag() })
                    }
                },
                VariantTag::I4 => {
                    if i32::MIN as i128 <= n && n <= i32::MAX as i128 {
                        Ok(VARIANT::I4(n as i32))
                    } else {
                        Err(ComError::Conversion { expected: target, found: v.tag() })
                    }
                },
                VariantTag::I8 => {
                    if i64::MIN as i128 <= n && n <= i64::MAX as i128 {
                        Ok(VARIANT::I8(n as i64))
                    } else {
                        Err(ComError::Conversion { expected: target, found: v.tag() })
                    }
                },
                VariantTag::UI1 => {
                    if 0 <= n && n <= u8::MAX as i128 {
                        Ok(VARIANT::UI1(n as u8))
                    } else {
                        Err(ComError::Conversion { expected: target, found: v.tag() })
                    }
                },
                VariantTag::UI2 => {
                    if 0 <= n && n <= u16::MAX as i128 {
                        Ok(VARIANT::UI2(n as u16))
                    } else {
                        Err(ComError::Conversion { expected: target, found: v.tag() })
                    }
                },
                VariantTag::UI4 => {
                    if 0 <= n && n <= u32::MAX as i128 {
                        Ok(VARIANT::UI4(n as u32))
                    } else {
                        Err(ComError::Conversion { expected: target, found: v.tag() })
                    }
                },
                VariantTag::UI8 => {
                    if 0 <= n && n <= u64::MAX as i128 {
                        Ok(VARIANT::UI8(n as u64))
                    } else {
                        Err(ComError::Conversion { expected: target, found: v.tag() })
                    }
                },
                _ => Err(ComError::Conversion { expected: target, found: v.tag() }),
            }
        },
        None => Err(ComError::Conversion { expected: target, found: v.tag() }),
    }
}

/// The distinguished "no value" boundary value.
pub trait VariantExt: Sized {
    /// What the built value is.
    spec fn spec_null() -> Self;

    /// Build a value that carries nothing.
    fn null() -> (r: Self)
        ensures
            r == Self::spec_null(),
    ;
}

impl VariantExt for VARIANT {
    open spec fn spec_null() -> VARIANT {
        VARIANT::Null
    }

    fn null() -> (r: VARIANT) {
        VARIANT::Null
    }
}

/// The conversion pair between one native type and the boundary value
/// representation: `variant_from` wraps a native value, transferring
/// ownership of any heap payload into the variant, and `variant_into`
/// coerces the variant to the type's tag and extracts the payload.
pub trait VariantTypeExt<T>: Sized {
    /// What wrapping returns.
    spec fn spec_variant_from(value: T) -> Self;

    /// What extraction returns.
    spec fn spec_variant_into(v: &Self) -> Result<T, ComError>;

    /// Wrap a native value; the tag is exactly the type's own tag.
    fn variant_from(value: T) -> (r: Self)
        ensures
            r == Self::spec_variant_from(value),
    ;

    /// Coerce this value to the type's tag and extract the payload.
    fn variant_into(&self) -> (r: Result<T, ComError>)
        ensures
            r == Self::spec_variant_into(self),
    ;
}

impl VariantTypeExt<()> for VARIANT {
    open spec fn spec_variant_from(value: ()) -> VARIANT {
        VARIANT::Null
    }

    open spec fn spec_variant_into(v: &VARIANT) -> Result<(), ComError> {
        Ok(())
    }

    fn variant_from(value: ()) -> (r: VARIANT) {
        VARIANT::Null
    }

    fn variant_into(&self) -> (r: Result<(), ComError>) {
        Ok(())
    }
}

impl VariantTypeExt<i16> for VARIANT {
    open spec fn spec_variant_from(value: i16) -> VARIANT {
        VARIANT::I2(value)
    }

    open spec fn spec_variant_into(v: &VARIANT) -> Result<i16, ComError> {
        match spec_coerce(*v, VariantTag::I2) {
            Ok(w) => Ok(w->I2_0),
            Err(e) => Err(e),
        }
    }

    fn variant_from(value: i16) -> (r: VARIANT) {
        VARIANT::I2(value)
    }

    fn variant_into(&self) -> (r: Result<i16, ComError>) {
        match coerce(self, VariantTag::I2) {
            Ok(w) => match w {
                VARIANT::I2(n) => Ok(n),
                _ => {
                    proof {
                        assert(false);
                    }
                    Err(ComError::MissingObject)
                },
            },
            Err(e) => Err(e),
        }
    }
}

impl VariantTypeExt<i32> for VARIANT {
    open spec fn spec_variant_from(value: i32) -> VARIANT {
        VARIANT::I4(value)
    }

    open spec fn spec_variant_into(v: &VARIANT) -> Result<i32, ComError> {
        match spec_coerce(*v, VariantTag::I4) {
            Ok(w) => Ok(w->I4_0),
            Err(e) => Err(e),
        }
    }

    fn variant_from(value: i32) -> (r: VARIANT) {
        VARIANT::I4(value)
    }

    fn variant_into(&self) -> (r: Result<i32, ComError>) {
        match coerce(self, VariantTag::I4) {
            Ok(w) => match w {
                VARIANT::I4(n) => Ok(n),
                _ => {
                    proof {
                        assert(false);
                    }
                    Err(ComError::MissingObject)
                },
            },
            Err(e) => Err(e),
        }
    }
}

impl VariantTypeExt<i64> for VARIANT {
    open spec fn spec_variant_from(value: i64) -> VARIANT {
        VARIANT::I8(value)
    }

    open spec fn spec_variant_into(v: &VARIANT) -> Result<i64, ComError> {
        match spec_coerce(*v, VariantTag::I8) {
            Ok(w) => Ok(w->I8_0),
            Err(e) => Err(e),
        }
    }

    fn variant_from(value: i64) -> (r: VARIANT) {
        VARIANT::I8(value)
    }

    fn variant_into(&self) -> (r: Result<i64, ComError>) {
        match coerce(self, VariantTag::I8) {
            Ok(w) => match w {
                VARIANT::I8(n) => Ok(n),
                _ => {
                    proof {
                        assert(false);
                    }
                    Err(ComError::MissingObject)
                },
            },
            Err(e) => Err(e),
        }
    }
}

impl VariantTypeExt<u8> for VARIANT {
    open spec fn spec_variant_from(value: u8) -> VARIANT {
        VARIANT::UI1(value)
    }

    open spec fn spec_variant_into(v: &VARIANT) -> Result<u8, ComError> {
        match spec_coerce(*v, VariantTag::UI1) {
            Ok(w) => Ok(w->UI1_0),
            Err(e) => Err(e),
        }
    }

    fn variant_from(value: u8) -> (r: VARIANT) {
        VARIANT::UI1(value)
    }

    fn variant_into(&self) -> (r: Result<u8, ComError>) {
        match coerce(self, VariantTag::UI1) {
            Ok(w) => match w {
                VARIANT::UI1(n) => Ok(n),
                _ => {
                    proof {
                        assert(false);
                    }
                    Err(ComError::MissingObject)
                },
            },
            Err(e) => Err(e),
        }
    }
}

impl VariantTypeExt<u16> for VARIANT {
    open spec fn spec_variant_from(value: u16) -> VARIANT {
        VARIANT::UI2(value)
    }

    open spec fn spec_variant_into(v: &VARIANT) -> Result<u16, ComError> {
        match spec_coerce(*v, VariantTag::UI2) {
            Ok(w) => Ok(w->UI2_0),
            Err(e) => Err(e),
        }
    }

    fn variant_from(value: u16) -> (r: VARIANT) {
        VARIANT::UI2(value)
    }

    fn variant_into(&self) -> (r: Result<u16, ComError>) {
        match coerce(self, VariantTag::UI2) {
            Ok(w) => match w {
                VARIANT::UI2(n) => Ok(n),
                _ => {
                    proof {
                        assert(false);
                    }
                    Err(ComError::MissingObject)
                },
            },
            Err(e) => Err(e),
        }
    }
}

impl VariantTypeExt<u32> for VARIANT {
    open spec fn spec_variant_from(value: u32) -> VARIANT {
        VARIANT::UI4(value)
    }

    open spec fn spec_variant_into(v: &VARIANT) -> Result<u32, ComError> {
        match spec_coerce(*v, VariantTag::UI4) {
            Ok(w) => Ok(w->UI4_0),
            Err(e) => Err(e),
        }
    }

    fn variant_from(value: u32) -> (r: VARIANT) {
        VARIANT::UI4(value)
    }

    fn variant_into(&self) -> (r: Result<u32, ComError>) {
        match coerce(self, VariantTag::UI4) {
            Ok(w) => match w {
                VARIANT::UI4(n) => Ok(n),
                _ => {
                    proof {
                        assert(false);
                    }
                    Err(ComError::MissingObject)
                },
            },
            Err(e) => Err(e),
        }
    }
}

impl VariantTypeExt<u64> for VARIANT {
    open spec fn spec_variant_from(value: u64) -> VARIANT {
        VARIANT::UI8(value)
    }

    open spec fn spec_variant_into(v: &VARIANT) -> Result<u64, ComError> {
        match spec_coerce(*v, VariantTag::UI8) {
            Ok(w) => Ok(w->UI8_0),
            Err(e) => Err(e),
        }
    }

    fn variant_from(value: u64) -> (r: VARIANT) {
        VARIANT::UI8(value)
    }

    fn variant_into(&self) -> (r: Result<u64, ComError>) {
        match coerce(self, VariantTag::UI8) {
            Ok(w) => match w {
                VARIANT::UI8(n) => Ok(n),
                _ => {
                    proof {
                        assert(false);
                    }
                    Err(ComError::MissingObject)
                },
            },
            Err(e) => Err(e),
        }
    }
}

impl VariantTypeExt<String> for VARIANT {
    open spec fn spec_variant_from(value: String) -> VARIANT {
        VARIANT::Bstr(value)
    }

    open spec fn spec_variant_into(v: &VARIANT) -> Result<String, ComError> {
        match spec_coerce(*v, VariantTag::Bstr) {
            Ok(w) => Ok(w->Bstr_0),
            Err(e) => Err(e),
        }
    }

    fn variant_from(value: String) -> (r: VARIANT) {
        VARIANT::Bstr(value)
    }

    fn variant_into(&self) -> (r: Result<String, ComError>) {
        match self {
            VARIANT::Bstr(s) => Ok(s.clone()),
            _ => Err(ComError::Conversion { expected: VariantTag::Bstr, found: self.tag() }),
        }
    }
}

impl VariantTypeExt<bool> for VARIANT {
    open spec fn spec_variant_from(value: bool) -> VARIANT {
        VARIANT::Bool(value)
    }

    open spec fn spec_variant_into(v: &VARIANT) -> Result<bool, ComError> {
        match spec_coerce(*v, VariantTag::Bool) {
            Ok(w) => Ok(w->Bool_0),
            Err(e) => Err(e),
        }
    }

    fn variant_from(value: bool) -> (r: VARIANT) {
        VARIANT::Bool(value)
    }

    fn variant_into(&self) -> (r: Result<bool, ComError>) {
        match self {
            VARIANT::Bool(b) => Ok(*b),
            _ => Err(ComError::Conversion { expected: VariantTag::Bool, found: self.tag() }),
        }
    }
}

impl VariantTypeExt<IDispatch> for VARIANT {
    open spec fn spec_variant_from(value: IDispatch) -> VARIANT {
        VARIANT::Dispatch(Some(value))
    }

    /// The distinct accessor for the embedded object handle: no coercion is
    /// asked for, and a value that carries no object reference fails.
    open spec fn spec_variant_into(v: &VARIANT) -> Result<IDispatch, ComError> {
        match *v {
            VARIANT::Dispatch(Some(h)) => Ok(h),
            _ => Err(ComError::MissingObject),
        }
    }

    fn variant_from(value: IDispatch) -> (r: VARIANT) {
        VARIANT::Dispatch(Some(value))
    }

    fn variant_into(&self) -> (r: Result<IDispatch, ComError>) {
        match self {
            VARIANT::Dispatch(Some(h)) => Ok(h.share()),
            _ => Err(ComError::MissingObject),
        }
    }
}

/// Wrapping a native value and extracting it again reconstructs the value:
/// the wrap sets the tag to exactly the type's own tag, so the coercion on
/// the way out is the identity.
pub proof fn lemma_roundtrip_unit(v: ())
    ensures
        <VARIANT as VariantTypeExt<()>>::spec_variant_into(
            &<VARIANT as VariantTypeExt<()>>::spec_variant_from(v),
        ) == Ok::<(), ComError>(v),
{
}

/// Round trip for signed 16-bit integers.
pub proof fn lemma_roundtrip_i16(v: i16)
    ensures
        <VARIANT as VariantTypeExt<i16>>::spec_variant_into(
            &<VARIANT as VariantTypeExt<i16>>::spec_variant_from(v),
        ) == Ok::<i16, ComError>(v),
{
}

/// Round trip for signed 32-bit integers.
pub proof fn lemma_roundtrip_i32(v: i32)
    ensures
        <VARIANT as VariantTypeExt<i32>>::spec_variant_into(
            &<VARIANT as VariantTypeExt<i32>>::spec_variant_from(v),
        ) == Ok::<i32, ComError>(v),
{
}

/// Round trip for signed 64-bit integers.
pub proof fn lemma_roundtrip_i64(v: i64)
    ensures
        <VARIANT as VariantTypeExt<i64>>::spec_variant_into(
            &<VARIANT as VariantTypeExt<i64>>::spec_variant_from(v),
        ) == Ok::<i64, ComError>(v),
{
}

/// Round trip for unsigned 8-bit integers.
pub proof fn lemma_roundtrip_u8(v: u8)
    ensures
        <VARIANT as VariantTypeExt<u8>>::spec_variant_into(
            &<VARIANT as VariantTypeExt<u8>>::spec_variant_from(v),
        ) == Ok::<u8, ComError>(v),
{
}

/// Round trip for unsigned 16-bit integers.
pub proof fn lemma_roundtrip_u16(v: u16)
    ensures
        <VARIANT as VariantTypeExt<u16>>::spec_variant_into(
            &<VARIANT as VariantTypeExt<u16>>::spec_variant_from(v),
        ) == Ok::<u16, ComError>(v),
{
}

/// Round trip for unsigned 32-bit integers.
pub proof fn lemma_roundtrip_u32(v: u32)
    ensures
        <VARIANT as VariantTypeExt<u32>>::spec_variant_into(
            &<VARIANT as VariantTypeExt<u32>>::spec_variant_from(v),
        ) == Ok::<u32, ComError>(v),
{
}

/// Round trip for unsigned 64-bit integers.
pub proof fn lemma_roundtrip_u64(v: u64)
    ensures
        <VARIANT as VariantTypeExt<u64>>::spec_variant_into(
            &<VARIANT as VariantTypeExt<u64>>::spec_variant_from(v),
        ) == Ok::<u64, ComError>(v),
{
}

/// Round trip for text.
pub proof fn lemma_roundtrip_string(v: String)
    ensures
        <VARIANT as VariantTypeExt<String>>::spec_variant_into(
            &<VARIANT as VariantTypeExt<String>>::spec_variant_from(v),
        ) == Ok::<String, ComError>(v),
{
}

/// Round trip for booleans.
pub proof fn lemma_roundtrip_bool(v: bool)
    ensures
        <VARIANT as VariantTypeExt<bool>>::spec_variant_into(
            &<VARIANT as VariantTypeExt<bool>>::spec_variant_from(v),
        ) == Ok::<bool, ComError>(v),
{
}

/// Round trip for object references: what comes back is the same reference.
pub proof fn lemma_roundtrip_dispatch(v: IDispatch)
    ensures
        <VARIANT as VariantTypeExt<IDispatch>>::spec_variant_into(
            &<VARIANT as VariantTypeExt<IDispatch>>::spec_variant_from(v),
        ) == Ok::<IDispatch, ComError>(v),
{
}

} // verus!
