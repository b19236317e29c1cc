//! Values that a builder accepts for a field, converted to the field's type
//! on the way in: a failed conversion is kept in the builder and reported
//! when the builder is used.

use super::enums::{FareMediaType, LocationType, StoptimesDirection};
use crate::text::owned;
use vstd::prelude::*;

verus! {

/// A value that a builder field of type `V` accepts.
pub trait FieldValue<V>: Sized {
    /// The value that the field receives, or the message of the failed
    /// conversion.
    spec fn converted(&self) -> Result<V, Seq<char>>;

    /// Converts the value for the field.
    fn convert(self) -> (r: Result<V, String>)
        ensures
            match r {
                Ok(v) => self.converted() == Ok::<V, Seq<char>>(v),
                Err(e) => self.converted() == Err::<V, Seq<char>>(e@),
            },
    ;
}

/// Why an integer does not fit the type of a field.
pub open spec fn out_of_range() -> Seq<char> {
    "out of range integral type conversion attempted"@
}

impl FieldValue<u64> for u64 {
    open spec fn converted(&self) -> Result<u64, Seq<char>> {
        Ok(*self)
    }

    fn convert(self) -> (r: Result<u64, String>) {
        Ok(self)
    }
}

impl FieldValue<u64> for u32 {
    open spec fn converted(&self) -> Result<u64, Seq<char>> {
        Ok(*self as u64)
    }

    fn convert(self) -> (r: Result<u64, String>) {
        Ok(self as u64)
    }
}

impl FieldValue<u64> for i64 {
    open spec fn converted(&self) -> Result<u64, Seq<char>> {
        if *self >= 0 {
            Ok(*self as u64)
        } else {
            Err(out_of_range())
        }
    }

    fn convert(self) -> (r: Result<u64, String>) {
        if self >= 0 {
            Ok(self as u64)
        } else {
            Err(owned("out of range integral type conversion attempted"))
        }
    }
}

impl FieldValue<u64> for i32 {
    open spec fn converted(&self) -> Result<u64, Seq<char>> {
        if *self >= 0 {
            Ok(*self as u64)
        } else {
            Err(out_of_range())
        }
    }

    fn convert(self) -> (r: Result<u64, String>) {
        if self >= 0 {
            Ok(self as u64)
        } else {
            Err(owned("out of range integral type conversion attempted"))
        }
    }
}

impl FieldValue<i64> for i64 {
    open spec fn converted(&self) -> Result<i64, Seq<char>> {
        Ok(*self)
    }

    fn convert(self) -> (r: Result<i64, String>) {
        Ok(self)
    }
}

impl FieldValue<i64> for i32 {
    open spec fn converted(&self) -> Result<i64, Seq<char>> {
        Ok(*self as i64)
    }

    fn convert(self) -> (r: Result<i64, String>) {
        Ok(self as i64)
    }
}

impl FieldValue<i64> for u32 {
    open spec fn converted(&self) -> Result<i64, Seq<char>> {
        Ok(*self as i64)
    }

    fn convert(self) -> (r: Result<i64, String>) {
        Ok(self as i64)
    }
}

impl FieldValue<i64> for u64 {
    open spec fn converted(&self) -> Result<i64, Seq<char>> {
        if *self <= i64::MAX {
            Ok(*self as i64)
        } else {
            Err(out_of_range())
        }
    }

    fn convert(self) -> (r: Result<i64, String>) {
        if self <= i64::MAX as u64 {
            Ok(self as i64)
        } else {
            Err(owned("out of range integral type conversion attempted"))
        }
    }
}

/// Why a text names no value of an enumeration.
pub open spec fn invalid_value() -> Seq<char> {
    "invalid value"@
}

impl FieldValue<FareMediaType> for FareMediaType {
    open spec fn converted(&self) -> Result<FareMediaType, Seq<char>> {
        Ok(*self)
    }

    fn convert(self) -> (r: Result<FareMediaType, String>) {
        Ok(self)
    }
}

impl<'a> FieldValue<FareMediaType> for &'a str {
    open spec fn converted(&self) -> Result<FareMediaType, Seq<char>> {
        match FareMediaType::spec_named(self@) {
            Some(v) => Ok(v),
            None => Err(invalid_value()),
        }
    }

    fn convert(self) -> (r: Result<FareMediaType, String>) {
        match FareMediaType::parse(self) {
            Ok(v) => Ok(v),
            Err(e) => Err(e.0),
        }
    }
}

impl FieldValue<LocationType> for LocationType {
    open spec fn converted(&self) -> Result<LocationType, Seq<char>> {
        Ok(*self)
    }

    fn convert(self) -> (r: Result<LocationType, String>) {
        Ok(self)
    }
}

impl<'a> FieldValue<LocationType> for &'a str {
    open spec fn converted(&self) -> Result<LocationType, Seq<char>> {
        match LocationType::spec_named(self@) {
            Some(v) => Ok(v),
            None => Err(invalid_value()),
        }
    }

    fn convert(self) -> (r: Result<LocationType, String>) {
        match LocationType::parse(self) {
            Ok(v) => Ok(v),
            Err(e) => Err(e.0),
        }
    }
}

impl FieldValue<StoptimesDirection> for StoptimesDirection {
    open spec fn converted(&self) -> Result<StoptimesDirection, Seq<char>> {
        Ok(*self)
    }

    fn convert(self) -> (r: Result<StoptimesDirection, String>) {
        Ok(self)
    }
}

impl<'a> FieldValue<StoptimesDirection> for &'a str {
    open spec fn converted(&self) -> Result<StoptimesDirection, Seq<char>> {
        match StoptimesDirection::spec_named(self@) {
            Some(v) => Ok(v),
            None => Err(invalid_value()),
        }
    }

    fn convert(self) -> (r: Result<StoptimesDirection, String>) {
        match StoptimesDirection::parse(self) {
            Ok(v) => Ok(v),
            Err(e) => Err(e.0),
        }
    }
}

/// How the integer values convert: to an unsigned field exactly when they are
/// not negative, to a signed 64-bit field exactly when they fit in it, and
/// otherwise with the message of an out-of-range conversion.
pub proof fn law_integer_field_values(a: u64, b: u32, c: i64, d: i32)
    ensures
        <u64 as FieldValue<u64>>::converted(&a) == Ok::<u64, Seq<char>>(a),
        <u32 as FieldValue<u64>>::converted(&b) == Ok::<u64, Seq<char>>(b as u64),
        c >= 0 ==> <i64 as FieldValue<u64>>::converted(&c) == Ok::<u64, Seq<char>>(c as u64),
        c < 0 ==> <i64 as FieldValue<u64>>::converted(&c) == Err::<u64, Seq<char>>(
            "out of range integral type conversion attempted"@,
        ),
        d >= 0 ==> <i32 as FieldValue<u64>>::converted(&d) == Ok::<u64, Seq<char>>(d as u64),
        d < 0 ==> <i32 as FieldValue<u64>>::converted(&d) == Err::<u64, Seq<char>>(
            "out of range integral type conversion attempted"@,
        ),
        <i64 as FieldValue<i64>>::converted(&c) == Ok::<i64, Seq<char>>(c),
        <i32 as FieldValue<i64>>::converted(&d) == Ok::<i64, Seq<char>>(d as i64),
        <u32 as FieldValue<i64>>::converted(&b) == Ok::<i64, Seq<char>>(b as i64),
        a <= 0x7fff_ffff_ffff_ffff ==> <u64 as FieldValue<i64>>::converted(&a) == Ok::<i64, Seq<char>>(
            a as i64,
        ),
        a > 0x7fff_ffff_ffff_ffff ==> <u64 as FieldValue<i64>>::converted(&a) == Err::<i64, Seq<char>>(
            "out of range integral type conversion attempted"@,
        ),
{
}

/// An enumeration value converts to itself, and a text to the value that it
/// names in the API, or to the message "invalid value" where it names none.
pub proof fn law_enum_field_values(
    media: FareMediaType,
    location: LocationType,
    direction: StoptimesDirection,
    text: &str,
)
    ensures
        <FareMediaType as FieldValue<FareMediaType>>::converted(&media) == Ok::<FareMediaType, Seq<char>>(media),
        <LocationType as FieldValue<LocationType>>::converted(&location) == Ok::<LocationType, Seq<char>>(location),
        <StoptimesDirection as FieldValue<StoptimesDirection>>::converted(&direction)
            == Ok::<StoptimesDirection, Seq<char>>(direction),
        <&str as FieldValue<FareMediaType>>::converted(&text) == match FareMediaType::spec_named(text@) {
            Some(v) => Ok::<FareMediaType, Seq<char>>(v),
            None => Err::<FareMediaType, Seq<char>>("invalid value"@),
        },
        <&str as FieldValue<LocationType>>::converted(&text) == match LocationType::spec_named(text@) {
            Some(v) => Ok::<LocationType, Seq<char>>(v),
            None => Err::<LocationType, Seq<char>>("invalid value"@),
        },
        <&str as FieldValue<StoptimesDirection>>::converted(&text) == match StoptimesDirection::spec_named(text@) {
            Some(v) => Ok::<StoptimesDirection, Seq<char>>(v),
            None => Err::<StoptimesDirection, Seq<char>>("invalid value"@),
        },
{
}

} // verus!
