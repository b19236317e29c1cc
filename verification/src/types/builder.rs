//! Builders that collect the fields of the API objects one by one.
//!
//! A builder holds, for each field, either its value or the message that
//! explains why there is none; converting it into the object fails with the
//! message of the first field (in declaration order) that has no value.

use super::enums::{AlertCause, AlertEffect, AlertSeverityLevel, FareMediaType, RentalFormFactor, RentalPropulsionType, RentalReturnConstraint};
use super::error::ConversionError;
use super::field::FieldValue;
use super::structs::Timestamp;
use crate::text::{concat, has_prefix, owned, starts_with};
use vstd::prelude::*;

verus! {

/// Builder for [`super::Alert`].
#[derive(Debug)]
pub struct Alert {
    pub cause: Result<Option<AlertCause>, String>,
    pub cause_detail: Result<Option<String>, String>,
    pub communication_period: Result<Vec<super::TimeRange>, String>,
    pub description_text: Result<String, String>,
    pub effect: Result<Option<AlertEffect>, String>,
    pub effect_detail: Result<Option<String>, String>,
    pub header_text: Result<String, String>,
    pub image_alternative_text: Result<Option<String>, String>,
    pub image_media_type: Result<Option<String>, String>,
    pub image_url: Result<Option<String>, String>,
    pub impact_period: Result<Vec<super::TimeRange>, String>,
    pub severity_level: Result<Option<AlertSeverityLevel>, String>,
    pub tts_description_text: Result<Option<String>, String>,
    pub tts_header_text: Result<Option<String>, String>,
    pub url: Result<Option<String>, String>,
}

impl Alert {
    /// Nothing has been supplied: optional fields are empty and required ones
    /// hold the message that says so.
    pub open spec fn is_fresh(&self) -> bool {
        &&& self.cause == Ok::<Option<AlertCause>, String>(None)
        &&& self.cause_detail == Ok::<Option<String>, String>(None)
        &&& self.communication_period matches Ok(v) && v@ == Seq::<super::TimeRange>::empty()
        &&& self.description_text matches Err(e) && e@ == "no value supplied for description_text"@
        &&& self.effect == Ok::<Option<AlertEffect>, String>(None)
        &&& self.effect_detail == Ok::<Option<String>, String>(None)
        &&& self.header_text matches Err(e) && e@ == "no value supplied for header_text"@
        &&& self.image_alternative_text == Ok::<Option<String>, String>(None)
        &&& self.image_media_type == Ok::<Option<String>, String>(None)
        &&& self.image_url == Ok::<Option<String>, String>(None)
        &&& self.impact_period matches Ok(v) && v@ == Seq::<super::TimeRange>::empty()
        &&& self.severity_level == Ok::<Option<AlertSeverityLevel>, String>(None)
        &&& self.tts_description_text == Ok::<Option<String>, String>(None)
        &&& self.tts_header_text == Ok::<Option<String>, String>(None)
        &&& self.url == Ok::<Option<String>, String>(None)
    }

    /// Supplies `cause`.
    pub fn cause(self, value: Option<AlertCause>) -> (r: Self)
        ensures
            r == (Alert { cause: Ok(value), ..self }),
    {
        Alert { cause: Ok(value), ..self }
    }

    /// Supplies `cause_detail`.
    pub fn cause_detail(self, value: Option<String>) -> (r: Self)
        ensures
            r == (Alert { cause_detail: Ok(value), ..self }),
    {
        Alert { cause_detail: Ok(value), ..self }
    }

    /// Supplies `communication_period`.
    pub fn communication_period(self, value: Vec<super::TimeRange>) -> (r: Self)
        ensures
            r == (Alert { communication_period: Ok(value), ..self }),
    {
        Alert { communication_period: Ok(value), ..self }
    }

    /// Supplies `description_text`.
    pub fn description_text(self, value: String) -> (r: Self)
        ensures
            r == (Alert { description_text: Ok(value), ..self }),
    {
        Alert { description_text: Ok(value), ..self }
    }

    /// Supplies `effect`.
    pub fn effect(self, value: Option<AlertEffect>) -> (r: Self)
        ensures
            r == (Alert { effect: Ok(value), ..self }),
    {
        Alert { effect: Ok(value), ..self }
    }

    /// Supplies `effect_detail`.
    pub fn effect_detail(self, value: Option<String>) -> (r: Self)
        ensures
            r == (Alert { effect_detail: Ok(value), ..self }),
    {
        Alert { effect_detail: Ok(value), ..self }
    }

    /// Supplies `header_text`.
    pub fn header_text(self, value: String) -> (r: Self)
        ensures
            r == (Alert { header_text: Ok(value), ..self }),
    {
        Alert { header_text: Ok(value), ..self }
    }

    /// Supplies `image_alternative_text`.
    pub fn image_alternative_text(self, value: Option<String>) -> (r: Self)
        ensures
            r == (Alert { image_alternative_text: Ok(value), ..self }),
    {
        Alert { image_alternative_text: Ok(value), ..self }
    }

    /// Supplies `image_media_type`.
    pub fn image_media_type(self, value: Option<String>) -> (r: Self)
        ensures
            r == (Alert { image_media_type: Ok(value), ..self }),
    {
        Alert { image_media_type: Ok(value), ..self }
    }

    /// Supplies `image_url`.
    pub fn image_url(self, value: Option<String>) -> (r: Self)
        ensures
            r == (Alert { image_url: Ok(value), ..self }),
    {
        Alert { image_url: Ok(value), ..self }
    }

    /// Supplies `impact_period`.
    pub fn impact_period(self, value: Vec<super::TimeRange>) -> (r: Self)
        ensures
            r == (Alert { impact_period: Ok(value), ..self }),
    {
        Alert { impact_period: Ok(value), ..self }
    }

    /// Supplies `severity_level`.
    pub fn severity_level(self, value: Option<AlertSeverityLevel>) -> (r: Self)
        ensures
            r == (Alert { severity_level: Ok(value), ..self }),
    {
        Alert { severity_level: Ok(value), ..self }
    }

    /// Supplies `tts_description_text`.
    pub fn tts_description_text(self, value: Option<String>) -> (r: Self)
        ensures
            r == (Alert { tts_description_text: Ok(value), ..self }),
    {
        Alert { tts_description_text: Ok(value), ..self }
    }

    /// Supplies `tts_header_text`.
    pub fn tts_header_text(self, value: Option<String>) -> (r: Self)
        ensures
            r == (Alert { tts_header_text: Ok(value), ..self }),
    {
        Alert { tts_header_text: Ok(value), ..self }
    }

    /// Supplies `url`.
    pub fn url(self, value: Option<String>) -> (r: Self)
        ensures
            r == (Alert { url: Ok(value), ..self }),
    {
        Alert { url: Ok(value), ..self }
    }

}

impl Default for Alert {
    fn default() -> (r: Self)
        ensures
            r.is_fresh(),
    {
        Alert {
            cause: Ok(None),
            cause_detail: Ok(None),
            communication_period: Ok(Vec::new()),
            description_text: Err(owned("no value supplied for description_text")),
            effect: Ok(None),
            effect_detail: Ok(None),
            header_text: Err(owned("no value supplied for header_text")),
            image_alternative_text: Ok(None),
            image_media_type: Ok(None),
            image_url: Ok(None),
            impact_period: Ok(Vec::new()),
            severity_level: Ok(None),
            tts_description_text: Ok(None),
            tts_header_text: Ok(None),
            url: Ok(None),
        }
    }
}

/// What a builder converts into: the first field without a value (in
/// declaration order) gives the error message; an image media type must
/// start with "image/".
pub open spec fn alert_from_builder(b: Alert) -> Result<super::Alert, Seq<char>> {
    if b.cause is Err {
        Err((b.cause->Err_0)@)
    } else if b.cause_detail is Err {
        Err((b.cause_detail->Err_0)@)
    } else if b.communication_period is Err {
        Err((b.communication_period->Err_0)@)
    } else if b.description_text is Err {
        Err((b.description_text->Err_0)@)
    } else if b.effect is Err {
        Err((b.effect->Err_0)@)
    } else if b.effect_detail is Err {
        Err((b.effect_detail->Err_0)@)
    } else if b.header_text is Err {
        Err((b.header_text->Err_0)@)
    } else if b.image_alternative_text is Err {
        Err((b.image_alternative_text->Err_0)@)
    } else if b.image_media_type is Err {
        Err((b.image_media_type->Err_0)@)
    } else if b.image_url is Err {
        Err((b.image_url->Err_0)@)
    } else if b.impact_period is Err {
        Err((b.impact_period->Err_0)@)
    } else if b.severity_level is Err {
        Err((b.severity_level->Err_0)@)
    } else if b.tts_description_text is Err {
        Err((b.tts_description_text->Err_0)@)
    } else if b.tts_header_text is Err {
        Err((b.tts_header_text->Err_0)@)
    } else if b.url is Err {
        Err((b.url->Err_0)@)
    } else if b.image_media_type->Ok_0 matches Some(t) && !has_prefix(t@, "image/"@) {
        Err("image_media_type must start with \"image/\""@)
    } else {
        Ok(super::Alert {
            cause: b.cause->Ok_0,
            cause_detail: b.cause_detail->Ok_0,
            communication_period: b.communication_period->Ok_0,
            description_text: b.description_text->Ok_0,
            effect: b.effect->Ok_0,
            effect_detail: b.effect_detail->Ok_0,
            header_text: b.header_text->Ok_0,
            image_alternative_text: b.image_alternative_text->Ok_0,
            image_media_type: b.image_media_type->Ok_0,
            image_url: b.image_url->Ok_0,
            impact_period: b.impact_period->Ok_0,
            severity_level: b.severity_level->Ok_0,
            tts_description_text: b.tts_description_text->Ok_0,
            tts_header_text: b.tts_header_text->Ok_0,
            url: b.url->Ok_0,
        })
    }
}

/// The builder that holds every field of an object.
pub open spec fn builder_of_alert(v: super::Alert) -> Alert {
    Alert {
        cause: Ok(v.cause),
        cause_detail: Ok(v.cause_detail),
        communication_period: Ok(v.communication_period),
        description_text: Ok(v.description_text),
        effect: Ok(v.effect),
        effect_detail: Ok(v.effect_detail),
        header_text: Ok(v.header_text),
        image_alternative_text: Ok(v.image_alternative_text),
        image_media_type: Ok(v.image_media_type),
        image_url: Ok(v.image_url),
        impact_period: Ok(v.impact_period),
        severity_level: Ok(v.severity_level),
        tts_description_text: Ok(v.tts_description_text),
        tts_header_text: Ok(v.tts_header_text),
        url: Ok(v.url),
    }
}

impl core::convert::TryFrom<Alert> for super::Alert {
    type Error = ConversionError;

    fn try_from(value: Alert) -> (r: Result<super::Alert, ConversionError>)
        ensures
            match r {
                Ok(v) => alert_from_builder(value) == Ok::<super::Alert, Seq<char>>(v),
                Err(e) => alert_from_builder(value) == Err::<super::Alert, Seq<char>>(e@),
            },
    {
        let Alert { cause, cause_detail, communication_period, description_text, effect, effect_detail, header_text, image_alternative_text, image_media_type, image_url, impact_period, severity_level, tts_description_text, tts_header_text, url } = value;
        let cause = match cause {
            Ok(v) => v,
            Err(e) => return Err(ConversionError(e)),
        };
        let cause_detail = match cause_detail {
            Ok(v) => v,
            Err(e) => return Err(ConversionError(e)),
        };
        let communication_period = match communication_period {
            Ok(v) => v,
            Err(e) => return Err(ConversionError(e)),
        };
        let description_text = match description_text {
            Ok(v) => v,
            Err(e) => return Err(ConversionError(e)),
        };
        let effect = match effect {
            Ok(v) => v,
            Err(e) => return Err(ConversionError(e)),
        };
        let effect_detail = match effect_detail {
            Ok(v) => v,
            Err(e) => return Err(ConversionError(e)),
        };
        let header_text = match header_text {
            Ok(v) => v,
            Err(e) => return Err(ConversionError(e)),
        };
        let image_alternative_text = match image_alternative_text {
            Ok(v) => v,
            Err(e) => return Err(ConversionError(e)),
        };
        let image_media_type = match image_media_type {
            Ok(v) => v,
            Err(e) => return Err(ConversionError(e)),
        };
        let image_url = match image_url {
            Ok(v) => v,
            Err(e) => return Err(ConversionError(e)),
        };
        let impact_period = match impact_period {
            Ok(v) => v,
            Err(e) => return Err(ConversionError(e)),
        };
        let severity_level = match severity_level {
            Ok(v) => v,
            Err(e) => return Err(ConversionError(e)),
        };
        let tts_description_text = match tts_description_text {
            Ok(v) => v,
            Err(e) => return Err(ConversionError(e)),
        };
        let tts_header_text = match tts_header_text {
            Ok(v) => v,
            Err(e) => return Err(ConversionError(e)),
        };
        let url = match url {
            Ok(v) => v,
            Err(e) => return Err(ConversionError(e)),
        };
        match &image_media_type {
            Some(t) => {
                if !starts_with(t.as_str(), "image/") {
                    return Err(ConversionError::new("image_media_type must start with \"image/\""));
                }
            },
            None => {},
        }
        Ok(super::Alert { cause, cause_detail, communication_period, description_text, effect, effect_detail, header_text, image_alternative_text, image_media_type, image_url, impact_period, severity_level, tts_description_text, tts_header_text, url })
    }
}

impl vstd::std_specs::convert::TryFromSpecImpl<Alert> for super::Alert {
    /// The conversion can refuse a builder with a message that no spec value
    /// of the error type spells out, so its result is stated by the
    /// `ensures` of `try_from` instead.
    open spec fn obeys_try_from_spec() -> bool {
        false
    }

    open spec fn try_from_spec(v: Alert) -> Result<Self, ConversionError> {
        arbitrary()
    }
}

impl From<super::Alert> for Alert {
    fn from(value: super::Alert) -> (r: Self) {
        Alert {
            cause: Ok(value.cause),
            cause_detail: Ok(value.cause_detail),
            communication_period: Ok(value.communication_period),
            description_text: Ok(value.description_text),
            effect: Ok(value.effect),
            effect_detail: Ok(value.effect_detail),
            header_text: Ok(value.header_text),
            image_alternative_text: Ok(value.image_alternative_text),
            image_media_type: Ok(value.image_media_type),
            image_url: Ok(value.image_url),
            impact_period: Ok(value.impact_period),
            severity_level: Ok(value.severity_level),
            tts_description_text: Ok(value.tts_description_text),
            tts_header_text: Ok(value.tts_header_text),
            url: Ok(value.url),
        }
    }
}

impl vstd::std_specs::convert::FromSpecImpl<super::Alert> for Alert {
    open spec fn obeys_from_spec() -> bool {
        true
    }

    open spec fn from_spec(v: super::Alert) -> Self {
        builder_of_alert(v)
    }
}

/// An alert whose image media type (if any) starts with "image/", taken
/// apart into a builder, converts back into the same alert.
pub proof fn law_alert_builder_roundtrip(v: super::Alert)
    requires
        v.image_media_type matches Some(t) ==> has_prefix(t@, "image/"@),
    ensures
        alert_from_builder(builder_of_alert(v)) == Ok::<super::Alert, Seq<char>>(v),
{
}

/// Builder for [`super::EncodedPolyline`].
#[derive(Debug)]
pub struct EncodedPolyline {
    pub length: Result<u64, String>,
    pub points: Result<String, String>,
    pub precision: Result<i64, String>,
}

impl EncodedPolyline {
    /// Nothing has been supplied: optional fields are empty and required ones
    /// hold the message that says so.
    pub open spec fn is_fresh(&self) -> bool {
        &&& self.length matches Err(e) && e@ == "no value supplied for length"@
        &&& self.points matches Err(e) && e@ == "no value supplied for points"@
        &&& self.precision matches Err(e) && e@ == "no value supplied for precision"@
    }

    /// Supplies `length`, converted to its type; a failed conversion is kept
    /// with its message.
    pub fn length<T: FieldValue<u64>>(self, value: T) -> (r: Self)
        ensures
            r == (EncodedPolyline { length: r.length, ..self }),
            match value.converted() {
                Ok(v) => r.length == Ok::<u64, String>(v),
                Err(m) => r.length matches Err(e) && e@ == "error converting supplied value for length: "@ + m,
            },
    {
        let converted = match value.convert() {
            Ok(v) => Ok(v),
            Err(m) => Err(concat("error converting supplied value for length: ", m.as_str())),
        };
        EncodedPolyline { length: converted, ..self }
    }

    /// Supplies `points`.
    pub fn points(self, value: String) -> (r: Self)
        ensures
            r == (EncodedPolyline { points: Ok(value), ..self }),
    {
        EncodedPolyline { points: Ok(value), ..self }
    }

    /// Supplies `precision`, converted to its type; a failed conversion is kept
    /// with its message.
    pub fn precision<T: FieldValue<i64>>(self, value: T) -> (r: Self)
        ensures
            r == (EncodedPolyline { precision: r.precision, ..self }),
            match value.converted() {
                Ok(v) => r.precision == Ok::<i64, String>(v),
                Err(m) => r.precision matches Err(e) && e@ == "error converting supplied value for precision: "@ + m,
            },
    {
        let converted = match value.convert() {
            Ok(v) => Ok(v),
            Err(m) => Err(concat("error converting supplied value for precision: ", m.as_str())),
        };
        EncodedPolyline { precision: converted, ..self }
    }

}

impl Default for EncodedPolyline {
    fn default() -> (r: Self)
        ensures
            r.is_fresh(),
    {
        EncodedPolyline {
            length: Err(owned("no value supplied for length")),
            points: Err(owned("no value supplied for points")),
            precision: Err(owned("no value supplied for precision")),
        }
    }
}

/// The object that a builder converts into: the first field without a
/// value (in declaration order) gives the error message.
pub open spec fn encoded_polyline_from_builder(b: EncodedPolyline) -> Result<super::EncodedPolyline, ConversionError> {
    if b.length is Err {
        Err(ConversionError(b.length->Err_0))
    } else if b.points is Err {
        Err(ConversionError(b.points->Err_0))
    } else if b.precision is Err {
        Err(ConversionError(b.precision->Err_0))
    } else {
        Ok(super::EncodedPolyline {
            length: b.length->Ok_0,
            points: b.points->Ok_0,
            precision: b.precision->Ok_0,
        })
    }
}

/// The builder that holds every field of an object.
pub open spec fn builder_of_encoded_polyline(v: super::EncodedPolyline) -> EncodedPolyline {
    EncodedPolyline {
        length: Ok(v.length),
        points: Ok(v.points),
        precision: Ok(v.precision),
    }
}

impl core::convert::TryFrom<EncodedPolyline> for super::EncodedPolyline {
    type Error = ConversionError;

    fn try_from(value: EncodedPolyline) -> (r: Result<super::EncodedPolyline, ConversionError>) {
        let EncodedPolyline { length, points, precision } = value;
        let length = match length {
            Ok(v) => v,
            Err(e) => return Err(ConversionError(e)),
        };
        let points = match points {
            Ok(v) => v,
            Err(e) => return Err(ConversionError(e)),
        };
        let precision = match precision {
            Ok(v) => v,
            Err(e) => return Err(ConversionError(e)),
        };
        Ok(super::EncodedPolyline { length, points, precision })
    }
}

impl vstd::std_specs::convert::TryFromSpecImpl<EncodedPolyline> for super::EncodedPolyline {
    open spec fn obeys_try_from_spec() -> bool {
        true
    }

    open spec fn try_from_spec(v: EncodedPolyline) -> Result<Self, ConversionError> {
        encoded_polyline_from_builder(v)
    }
}

impl From<super::EncodedPolyline> for EncodedPolyline {
    fn from(value: super::EncodedPolyline) -> (r: Self) {
        EncodedPolyline {
            length: Ok(value.length),
            points: Ok(value.points),
            precision: Ok(value.precision),
        }
    }
}

impl vstd::std_specs::convert::FromSpecImpl<super::EncodedPolyline> for EncodedPolyline {
    open spec fn obeys_from_spec() -> bool {
        true
    }

    open spec fn from_spec(v: super::EncodedPolyline) -> Self {
        builder_of_encoded_polyline(v)
    }
}

/// An object taken apart into a builder converts back into the same object.
pub proof fn law_encoded_polyline_builder_roundtrip(v: super::EncodedPolyline)
    ensures
        encoded_polyline_from_builder(builder_of_encoded_polyline(v)) == Ok::<super::EncodedPolyline, ConversionError>(v),
{
}

/// Builder for [`super::FareMedia`].
#[derive(Debug)]
pub struct FareMedia {
    pub fare_media_name: Result<Option<String>, String>,
    pub fare_media_type: Result<FareMediaType, String>,
}

impl FareMedia {
    /// Nothing has been supplied: optional fields are empty and required ones
    /// hold the message that says so.
    pub open spec fn is_fresh(&self) -> bool {
        &&& self.fare_media_name == Ok::<Option<String>, String>(None)
        &&& self.fare_media_type matches Err(e) && e@ == "no value supplied for fare_media_type"@
    }

    /// Supplies `fare_media_name`.
    pub fn fare_media_name(self, value: Option<String>) -> (r: Self)
        ensures
            r == (FareMedia { fare_media_name: Ok(value), ..self }),
    {
        FareMedia { fare_media_name: Ok(value), ..self }
    }

    /// Supplies `fare_media_type`, converted to its type; a failed conversion is kept
    /// with its message.
    pub fn fare_media_type<T: FieldValue<FareMediaType>>(self, value: T) -> (r: Self)
        ensures
            r == (FareMedia { fare_media_type: r.fare_media_type, ..self }),
            match value.converted() {
                Ok(v) => r.fare_media_type == Ok::<FareMediaType, String>(v),
                Err(m) => r.fare_media_type matches Err(e) && e@ == "error converting supplied value for fare_media_type: "@ + m,
            },
    {
        let converted = match value.convert() {
            Ok(v) => Ok(v),
            Err(m) => Err(concat("error converting supplied value for fare_media_type: ", m.as_str())),
        };
        FareMedia { fare_media_type: converted, ..self }
    }

}

impl Default for FareMedia {
    fn default() -> (r: Self)
        ensures
            r.is_fresh(),
    {
        FareMedia {
            fare_media_name: Ok(None),
            fare_media_type: Err(owned("no value supplied for fare_media_type")),
        }
    }
}

/// The object that a builder converts into: the first field without a
/// value (in declaration order) gives the error message.
pub open spec fn fare_media_from_builder(b: FareMedia) -> Result<super::FareMedia, ConversionError> {
    if b.fare_media_name is Err {
        Err(ConversionError(b.fare_media_name->Err_0))
    } else if b.fare_media_type is Err {
        Err(ConversionError(b.fare_media_type->Err_0))
    } else {
        Ok(super::FareMedia {
            fare_media_name: b.fare_media_name->Ok_0,
            fare_media_type: b.fare_media_type->Ok_0,
        })
    }
}

/// The builder that holds every field of an object.
pub open spec fn builder_of_fare_media(v: super::FareMedia) -> FareMedia {
    FareMedia {
        fare_media_name: Ok(v.fare_media_name),
        fare_media_type: Ok(v.fare_media_type),
    }
}

impl core::convert::TryFrom<FareMedia> for super::FareMedia {
    type Error = ConversionError;

    fn try_from(value: FareMedia) -> (r: Result<super::FareMedia, ConversionError>) {
        let FareMedia { fare_media_name, fare_media_type } = value;
        let fare_media_name = match fare_media_name {
            Ok(v) => v,
            Err(e) => return Err(ConversionError(e)),
        };
        let fare_media_type = match fare_media_type {
            Ok(v) => v,
            Err(e) => return Err(ConversionError(e)),
        };
        Ok(super::FareMedia { fare_media_name, fare_media_type })
    }
}

impl vstd::std_specs::convert::TryFromSpecImpl<FareMedia> for super::FareMedia {
    open spec fn obeys_try_from_spec() -> bool {
        true
    }

    open spec fn try_from_spec(v: FareMedia) -> Result<Self, ConversionError> {
        fare_media_from_builder(v)
    }
}

impl From<super::FareMedia> for FareMedia {
    fn from(value: super::FareMedia) -> (r: Self) {
        FareMedia {
            fare_media_name: Ok(value.fare_media_name),
            fare_media_type: Ok(value.fare_media_type),
        }
    }
}

impl vstd::std_specs::convert::FromSpecImpl<super::FareMedia> for FareMedia {
    open spec fn obeys_from_spec() -> bool {
        true
    }

    open spec fn from_spec(v: super::FareMedia) -> Self {
        builder_of_fare_media(v)
    }
}

/// An object taken apart into a builder converts back into the same object.
pub proof fn law_fare_media_builder_roundtrip(v: super::FareMedia)
    ensures
        fare_media_from_builder(builder_of_fare_media(v)) == Ok::<super::FareMedia, ConversionError>(v),
{
}

/// Builder for [`super::Rental`].
#[derive(Debug)]
pub struct Rental {
    pub form_factor: Result<Option<RentalFormFactor>, String>,
    pub from_station_name: Result<Option<String>, String>,
    pub propulsion_type: Result<Option<RentalPropulsionType>, String>,
    pub rental_uri_android: Result<Option<String>, String>,
    pub rental_uri_ios: Result<Option<String>, String>,
    pub rental_uri_web: Result<Option<String>, String>,
    pub return_constraint: Result<Option<RentalReturnConstraint>, String>,
    pub station_name: Result<Option<String>, String>,
    pub system_id: Result<String, String>,
    pub system_name: Result<Option<String>, String>,
    pub to_station_name: Result<Option<String>, String>,
    pub url: Result<Option<String>, String>,
}

impl Rental {
    /// Nothing has been supplied: optional fields are empty and required ones
    /// hold the message that says so.
    pub open spec fn is_fresh(&self) -> bool {
        &&& self.form_factor == Ok::<Option<RentalFormFactor>, String>(None)
        &&& self.from_station_name == Ok::<Option<String>, String>(None)
        &&& self.propulsion_type == Ok::<Option<RentalPropulsionType>, String>(None)
        &&& self.rental_uri_android == Ok::<Option<String>, String>(None)
        &&& self.rental_uri_ios == Ok::<Option<String>, String>(None)
        &&& self.rental_uri_web == Ok::<Option<String>, String>(None)
        &&& self.return_constraint == Ok::<Option<RentalReturnConstraint>, String>(None)
        &&& self.station_name == Ok::<Option<String>, String>(None)
        &&& self.system_id matches Err(e) && e@ == "no value supplied for system_id"@
        &&& self.system_name == Ok::<Option<String>, String>(None)
        &&& self.to_station_name == Ok::<Option<String>, String>(None)
        &&& self.url == Ok::<Option<String>, String>(None)
    }

    /// Supplies `form_factor`.
    pub fn form_factor(self, value: Option<RentalFormFactor>) -> (r: Self)
        ensures
            r == (Rental { form_factor: Ok(value), ..self }),
    {
        Rental { form_factor: Ok(value), ..self }
    }

    /// Supplies `from_station_name`.
    pub fn from_station_name(self, value: Option<String>) -> (r: Self)
        ensures
            r == (Rental { from_station_name: Ok(value), ..self }),
    {
        Rental { from_station_name: Ok(value), ..self }
    }

    /// Supplies `propulsion_type`.
    pub fn propulsion_type(self, value: Option<RentalPropulsionType>) -> (r: Self)
        ensures
            r == (Rental { propulsion_type: Ok(value), ..self }),
    {
        Rental { propulsion_type: Ok(value), ..self }
    }

    /// Supplies `rental_uri_android`.
    pub fn rental_uri_android(self, value: Option<String>) -> (r: Self)
        ensures
            r == (Rental { rental_uri_android: Ok(value), ..self }),
    {
        Rental { rental_uri_android: Ok(value), ..self }
    }

    /// Supplies `rental_uri_ios`.
    pub fn rental_uri_ios(self, value: Option<String>) -> (r: Self)
        ensures
            r == (Rental { rental_uri_ios: Ok(value), ..self }),
    {
        Rental { rental_uri_ios: Ok(value), ..self }
    }

    /// Supplies `rental_uri_web`.
    pub fn rental_uri_web(self, value: Option<String>) -> (r: Self)
        ensures
            r == (Rental { rental_uri_web: Ok(value), ..self }),
    {
        Rental { rental_uri_web: Ok(value), ..self }
    }

    /// Supplies `return_constraint`.
    pub fn return_constraint(self, value: Option<RentalReturnConstraint>) -> (r: Self)
        ensures
            r == (Rental { return_constraint: Ok(value), ..self }),
    {
        Rental { return_constraint: Ok(value), ..self }
    }

    /// Supplies `station_name`.
    pub fn station_name(self, value: Option<String>) -> (r: Self)
        ensures
            r == (Rental { station_name: Ok(value), ..self }),
    {
        Rental { station_name: Ok(value), ..self }
    }

    /// Supplies `system_id`.
    pub fn system_id(self, value: String) -> (r: Self)
        ensures
            r == (Rental { system_id: Ok(value), ..self }),
    {
        Rental { system_id: Ok(value), ..self }
    }

    /// Supplies `system_name`.
    pub fn system_name(self, value: Option<String>) -> (r: Self)
        ensures
            r == (Rental { system_name: Ok(value), ..self }),
    {
        Rental { system_name: Ok(value), ..self }
    }

    /// Supplies `to_station_name`.
    pub fn to_station_name(self, value: Option<String>) -> (r: Self)
        ensures
            r == (Rental { to_station_name: Ok(value), ..self }),
    {
        Rental { to_station_name: Ok(value), ..self }
    }

    /// Supplies `url`.
    pub fn url(self, value: Option<String>) -> (r: Self)
        ensures
            r == (Rental { url: Ok(value), ..self }),
    {
        Rental { url: Ok(value), ..self }
    }

}

impl Default for Rental {
    fn default() -> (r: Self)
        ensures
            r.is_fresh(),
    {
        Rental {
            form_factor: Ok(None),
            from_station_name: Ok(None),
            propulsion_type: Ok(None),
            rental_uri_android: Ok(None),
            rental_uri_ios: Ok(None),
            rental_uri_web: Ok(None),
            return_constraint: Ok(None),
            station_name: Ok(None),
            system_id: Err(owned("no value supplied for system_id")),
            system_name: Ok(None),
            to_station_name: Ok(None),
            url: Ok(None),
        }
    }
}

/// The object that a builder converts into: the first field without a
/// value (in declaration order) gives the error message.
pub open spec fn rental_from_builder(b: Rental) -> Result<super::Rental, ConversionError> {
    if b.form_factor is Err {
        Err(ConversionError(b.form_factor->Err_0))
    } else if b.from_station_name is Err {
        Err(ConversionError(b.from_station_name->Err_0))
    } else if b.propulsion_type is Err {
        Err(ConversionError(b.propulsion_type->Err_0))
    } else if b.rental_uri_android is Err {
        Err(ConversionError(b.rental_uri_android->Err_0))
    } else if b.rental_uri_ios is Err {
        Err(ConversionError(b.rental_uri_ios->Err_0))
    } else if b.rental_uri_web is Err {
        Err(ConversionError(b.rental_uri_web->Err_0))
    } else if b.return_constraint is Err {
        Err(ConversionError(b.return_constraint->Err_0))
    } else if b.station_name is Err {
        Err(ConversionError(b.station_name->Err_0))
    } else if b.system_id is Err {
        Err(ConversionError(b.system_id->Err_0))
    } else if b.system_name is Err {
        Err(ConversionError(b.system_name->Err_0))
    } else if b.to_station_name is Err {
        Err(ConversionError(b.to_station_name->Err_0))
    } else if b.url is Err {
        Err(ConversionError(b.url->Err_0))
    } else {
        Ok(super::Rental {
            form_factor: b.form_factor->Ok_0,
            from_station_name: b.from_station_name->Ok_0,
            propulsion_type: b.propulsion_type->Ok_0,
            rental_uri_android: b.rental_uri_android->Ok_0,
            rental_uri_ios: b.rental_uri_ios->Ok_0,
            rental_uri_web: b.rental_uri_web->Ok_0,
            return_constraint: b.return_constraint->Ok_0,
            station_name: b.station_name->Ok_0,
            system_id: b.system_id->Ok_0,
            system_name: b.system_name->Ok_0,
            to_station_name: b.to_station_name->Ok_0,
            url: b.url->Ok_0,
        })
    }
}

/// The builder that holds every field of an object.
pub open spec fn builder_of_rental(v: super::Rental) -> Rental {
    Rental {
        form_factor: Ok(v.form_factor),
        from_station_name: Ok(v.from_station_name),
        propulsion_type: Ok(v.propulsion_type),
        rental_uri_android: Ok(v.rental_uri_android),
        rental_uri_ios: Ok(v.rental_uri_ios),
        rental_uri_web: Ok(v.rental_uri_web),
        return_constraint: Ok(v.return_constraint),
        station_name: Ok(v.station_name),
        system_id: Ok(v.system_id),
        system_name: Ok(v.system_name),
        to_station_name: Ok(v.to_station_name),
        url: Ok(v.url),
    }
}

impl core::convert::TryFrom<Rental> for super::Rental {
    type Error = ConversionError;

    fn try_from(value: Rental) -> (r: Result<super::Rental, ConversionError>) {
        let Rental { form_factor, from_station_name, propulsion_type, rental_uri_android, rental_uri_ios, rental_uri_web, return_constraint, station_name, system_id, system_name, to_station_name, url } = value;
        let form_factor = match form_factor {
            Ok(v) => v,
            Err(e) => return Err(ConversionError(e)),
        };
        let from_station_name = match from_station_name {
            Ok(v) => v,
            Err(e) => return Err(ConversionError(e)),
        };
        let propulsion_type = match propulsion_type {
            Ok(v) => v,
            Err(e) => return Err(ConversionError(e)),
        };
        let rental_uri_android = match rental_uri_android {
            Ok(v) => v,
            Err(e) => return Err(ConversionError(e)),
        };
        let rental_uri_ios = match rental_uri_ios {
            Ok(v) => v,
            Err(e) => return Err(ConversionError(e)),
        };
        let rental_uri_web = match rental_uri_web {
            Ok(v) => v,
            Err(e) => return Err(ConversionError(e)),
        };
        let return_constraint = match return_constraint {
            Ok(v) => v,
            Err(e) => return Err(ConversionError(e)),
        };
        let station_name = match station_name {
            Ok(v) => v,
            Err(e) => return Err(ConversionError(e)),
        };
        let system_id = match system_id {
            Ok(v) => v,
            Err(e) => return Err(ConversionError(e)),
        };
        let system_name = match system_name {
            Ok(v) => v,
            Err(e) => return Err(ConversionError(e)),
        };
        let to_station_name = match to_station_name {
            Ok(v) => v,
            Err(e) => return Err(ConversionError(e)),
        };
        let url = match url {
            Ok(v) => v,
            Err(e) => return Err(ConversionError(e)),
        };
        Ok(super::Rental { form_factor, from_station_name, propulsion_type, rental_uri_android, rental_uri_ios, rental_uri_web, return_constraint, station_name, system_id, system_name, to_station_name, url })
    }
}

impl vstd::std_specs::convert::TryFromSpecImpl<Rental> for super::Rental {
    open spec fn obeys_try_from_spec() -> bool {
        true
    }

    open spec fn try_from_spec(v: Rental) -> Result<Self, ConversionError> {
        rental_from_builder(v)
    }
}

impl From<super::Rental> for Rental {
    fn from(value: super::Rental) -> (r: Self) {
        Rental {
            form_factor: Ok(value.form_factor),
            from_station_name: Ok(value.from_station_name),
            propulsion_type: Ok(value.propulsion_type),
            rental_uri_android: Ok(value.rental_uri_android),
            rental_uri_ios: Ok(value.rental_uri_ios),
            rental_uri_web: Ok(value.rental_uri_web),
            return_constraint: Ok(value.return_constraint),
            station_name: Ok(value.station_name),
            system_id: Ok(value.system_id),
            system_name: Ok(value.system_name),
            to_station_name: Ok(value.to_station_name),
            url: Ok(value.url),
        }
    }
}

impl vstd::std_specs::convert::FromSpecImpl<super::Rental> for Rental {
    open spec fn obeys_from_spec() -> bool {
        true
    }

    open spec fn from_spec(v: super::Rental) -> Self {
        builder_of_rental(v)
    }
}

/// An object taken apart into a builder converts back into the same object.
pub proof fn law_rental_builder_roundtrip(v: super::Rental)
    ensures
        rental_from_builder(builder_of_rental(v)) == Ok::<super::Rental, ConversionError>(v),
{
}

/// Builder for [`super::RiderCategory`].
#[derive(Debug)]
pub struct RiderCategory {
    pub eligibility_url: Result<Option<String>, String>,
    pub is_default_fare_category: Result<bool, String>,
    pub rider_category_name: Result<String, String>,
}

impl RiderCategory {
    /// Nothing has been supplied: optional fields are empty and required ones
    /// hold the message that says so.
    pub open spec fn is_fresh(&self) -> bool {
        &&& self.eligibility_url == Ok::<Option<String>, String>(None)
        &&& self.is_default_fare_category matches Err(e) && e@ == "no value supplied for is_default_fare_category"@
        &&& self.rider_category_name matches Err(e) && e@ == "no value supplied for rider_category_name"@
    }

    /// Supplies `eligibility_url`.
    pub fn eligibility_url(self, value: Option<String>) -> (r: Self)
        ensures
            r == (RiderCategory { eligibility_url: Ok(value), ..self }),
    {
        RiderCategory { eligibility_url: Ok(value), ..self }
    }

    /// Supplies `is_default_fare_category`.
    pub fn is_default_fare_category(self, value: bool) -> (r: Self)
        ensures
            r == (RiderCategory { is_default_fare_category: Ok(value), ..self }),
    {
        RiderCategory { is_default_fare_category: Ok(value), ..self }
    }

    /// Supplies `rider_category_name`.
    pub fn rider_category_name(self, value: String) -> (r: Self)
        ensures
            r == (RiderCategory { rider_category_name: Ok(value), ..self }),
    {
        RiderCategory { rider_category_name: Ok(value), ..self }
    }

}

impl Default for RiderCategory {
    fn default() -> (r: Self)
        ensures
            r.is_fresh(),
    {
        RiderCategory {
            eligibility_url: Ok(None),
            is_default_fare_category: Err(owned("no value supplied for is_default_fare_category")),
            rider_category_name: Err(owned("no value supplied for rider_category_name")),
        }
    }
}

/// The object that a builder converts into: the first field without a
/// value (in declaration order) gives the error message.
pub open spec fn rider_category_from_builder(b: RiderCategory) -> Result<super::RiderCategory, ConversionError> {
    if b.eligibility_url is Err {
        Err(ConversionError(b.eligibility_url->Err_0))
    } else if b.is_default_fare_category is Err {
        Err(ConversionError(b.is_default_fare_category->Err_0))
    } else if b.rider_category_name is Err {
        Err(ConversionError(b.rider_category_name->Err_0))
    } else {
        Ok(super::RiderCategory {
            eligibility_url: b.eligibility_url->Ok_0,
            is_default_fare_category: b.is_default_fare_category->Ok_0,
            rider_category_name: b.rider_category_name->Ok_0,
        })
    }
}

/// The builder that holds every field of an object.
pub open spec fn builder_of_rider_category(v: super::RiderCategory) -> RiderCategory {
    RiderCategory {
        eligibility_url: Ok(v.eligibility_url),
        is_default_fare_category: Ok(v.is_default_fare_category),
        rider_category_name: Ok(v.rider_category_name),
    }
}

impl core::convert::TryFrom<RiderCategory> for super::RiderCategory {
    type Error = ConversionError;

    fn try_from(value: RiderCategory) -> (r: Result<super::RiderCategory, ConversionError>) {
        let RiderCategory { eligibility_url, is_default_fare_category, rider_category_name } = value;
        let eligibility_url = match eligibility_url {
            Ok(v) => v,
            Err(e) => return Err(ConversionError(e)),
        };
        let is_default_fare_category = match is_default_fare_category {
            Ok(v) => v,
            Err(e) => return Err(ConversionError(e)),
        };
        let rider_category_name = match rider_category_name {
            Ok(v) => v,
            Err(e) => return Err(ConversionError(e)),
        };
        Ok(super::RiderCategory { eligibility_url, is_default_fare_category, rider_category_name })
    }
}

impl vstd::std_specs::convert::TryFromSpecImpl<RiderCategory> for super::RiderCategory {
    open spec fn obeys_try_from_spec() -> bool {
        true
    }

    open spec fn try_from_spec(v: RiderCategory) -> Result<Self, ConversionError> {
        rider_category_from_builder(v)
    }
}

impl From<super::RiderCategory> for RiderCategory {
    fn from(value: super::RiderCategory) -> (r: Self) {
        RiderCategory {
            eligibility_url: Ok(value.eligibility_url),
            is_default_fare_category: Ok(value.is_default_fare_category),
            rider_category_name: Ok(value.rider_category_name),
        }
    }
}

impl vstd::std_specs::convert::FromSpecImpl<super::RiderCategory> for RiderCategory {
    open spec fn obeys_from_spec() -> bool {
        true
    }

    open spec fn from_spec(v: super::RiderCategory) -> Self {
        builder_of_rider_category(v)
    }
}

/// An object taken apart into a builder converts back into the same object.
pub proof fn law_rider_category_builder_roundtrip(v: super::RiderCategory)
    ensures
        rider_category_from_builder(builder_of_rider_category(v)) == Ok::<super::RiderCategory, ConversionError>(v),
{
}

/// Builder for [`super::TimeRange`].
#[derive(Debug)]
pub struct TimeRange {
    pub end: Result<Option<Timestamp>, String>,
    pub start: Result<Option<Timestamp>, String>,
}

impl TimeRange {
    /// Nothing has been supplied: optional fields are empty and required ones
    /// hold the message that says so.
    pub open spec fn is_fresh(&self) -> bool {
        &&& self.end == Ok::<Option<Timestamp>, String>(None)
        &&& self.start == Ok::<Option<Timestamp>, String>(None)
    }

    /// Supplies `end`.
    pub fn end(self, value: Option<Timestamp>) -> (r: Self)
        ensures
            r == (TimeRange { end: Ok(value), ..self }),
    {
        TimeRange { end: Ok(value), ..self }
    }

    /// Supplies `start`.
    pub fn start(self, value: Option<Timestamp>) -> (r: Self)
        ensures
            r == (TimeRange { start: Ok(value), ..self }),
    {
        TimeRange { start: Ok(value), ..self }
    }

}

impl Default for TimeRange {
    fn default() -> (r: Self)
        ensures
            r.is_fresh(),
    {
        TimeRange {
            end: Ok(None),
            start: Ok(None),
        }
    }
}

/// What a builder converts into: the first field without a value (in
/// declaration order) gives the error message; a range needs a start or an
/// end, so one with neither is refused too.
pub open spec fn time_range_from_builder(b: TimeRange) -> Result<super::TimeRange, Seq<char>> {
    if b.end is Err {
        Err(b.end->Err_0@)
    } else if b.start is Err {
        Err(b.start->Err_0@)
    } else if b.start->Ok_0 is None && b.end->Ok_0 is None {
        Err("either start or end must be provided"@)
    } else {
        Ok(super::TimeRange {
            end: b.end->Ok_0,
            start: b.start->Ok_0,
        })
    }
}

/// The builder that holds every field of an object.
pub open spec fn builder_of_time_range(v: super::TimeRange) -> TimeRange {
    TimeRange {
        end: Ok(v.end),
        start: Ok(v.start),
    }
}

impl core::convert::TryFrom<TimeRange> for super::TimeRange {
    type Error = ConversionError;

    fn try_from(value: TimeRange) -> (r: Result<super::TimeRange, ConversionError>)
        ensures
            match r {
                Ok(v) => time_range_from_builder(value) == Ok::<super::TimeRange, Seq<char>>(v),
                Err(e) => time_range_from_builder(value) == Err::<super::TimeRange, Seq<char>>(e@),
            },
    {
        let TimeRange { end, start } = value;
        let end = match end {
            Ok(v) => v,
            Err(e) => return Err(ConversionError(e)),
        };
        let start = match start {
            Ok(v) => v,
            Err(e) => return Err(ConversionError(e)),
        };
        if start.is_none() && end.is_none() {
            return Err(ConversionError::new("either start or end must be provided"));
        }
        Ok(super::TimeRange { end, start })
    }
}

impl vstd::std_specs::convert::TryFromSpecImpl<TimeRange> for super::TimeRange {
    /// The conversion can refuse a builder with a message that no spec value
    /// of the error type spells out, so its result is stated by the
    /// `ensures` of `try_from` instead.
    open spec fn obeys_try_from_spec() -> bool {
        false
    }

    open spec fn try_from_spec(v: TimeRange) -> Result<Self, ConversionError> {
        arbitrary()
    }
}

impl From<super::TimeRange> for TimeRange {
    fn from(value: super::TimeRange) -> (r: Self) {
        TimeRange {
            end: Ok(value.end),
            start: Ok(value.start),
        }
    }
}

impl vstd::std_specs::convert::FromSpecImpl<super::TimeRange> for TimeRange {
    open spec fn obeys_from_spec() -> bool {
        true
    }

    open spec fn from_spec(v: super::TimeRange) -> Self {
        builder_of_time_range(v)
    }
}

/// A time range with a start or an end, taken apart into a builder, converts
/// back into the same range.
pub proof fn law_time_range_builder_roundtrip(v: super::TimeRange)
    requires
        v.start is Some || v.end is Some,
    ensures
        time_range_from_builder(builder_of_time_range(v)) == Ok::<super::TimeRange, Seq<char>>(v),
{
}

/// Builder for [`super::TripInfo`].
#[derive(Debug)]
pub struct TripInfo {
    pub display_name: Result<Option<String>, String>,
    pub route_short_name: Result<Option<String>, String>,
    pub trip_id: Result<String, String>,
}

impl TripInfo {
    /// Nothing has been supplied: optional fields are empty and required ones
    /// hold the message that says so.
    pub open spec fn is_fresh(&self) -> bool {
        &&& self.display_name == Ok::<Option<String>, String>(None)
        &&& self.route_short_name == Ok::<Option<String>, String>(None)
        &&& self.trip_id matches Err(e) && e@ == "no value supplied for trip_id"@
    }

    /// Supplies `display_name`.
    pub fn display_name(self, value: Option<String>) -> (r: Self)
        ensures
            r == (TripInfo { display_name: Ok(value), ..self }),
    {
        TripInfo { display_name: Ok(value), ..self }
    }

    /// Supplies `route_short_name`.
    pub fn route_short_name(self, value: Option<String>) -> (r: Self)
        ensures
            r == (TripInfo { route_short_name: Ok(value), ..self }),
    {
        TripInfo { route_short_name: Ok(value), ..self }
    }

    /// Supplies `trip_id`.
    pub fn trip_id(self, value: String) -> (r: Self)
        ensures
            r == (TripInfo { trip_id: Ok(value), ..self }),
    {
        TripInfo { trip_id: Ok(value), ..self }
    }

}

impl Default for TripInfo {
    fn default() -> (r: Self)
        ensures
            r.is_fresh(),
    {
        TripInfo {
            display_name: Ok(None),
            route_short_name: Ok(None),
            trip_id: Err(owned("no value supplied for trip_id")),
        }
    }
}

/// The object that a builder converts into: the first field without a
/// value (in declaration order) gives the error message.
pub open spec fn trip_info_from_builder(b: TripInfo) -> Result<super::TripInfo, ConversionError> {
    if b.display_name is Err {
        Err(ConversionError(b.display_name->Err_0))
    } else if b.route_short_name is Err {
        Err(ConversionError(b.route_short_name->Err_0))
    } else if b.trip_id is Err {
        Err(ConversionError(b.trip_id->Err_0))
    } else {
        Ok(super::TripInfo {
            display_name: b.display_name->Ok_0,
            route_short_name: b.route_short_name->Ok_0,
            trip_id: b.trip_id->Ok_0,
        })
    }
}

/// The builder that holds every field of an object.
pub open spec fn builder_of_trip_info(v: super::TripInfo) -> TripInfo {
    TripInfo {
        display_name: Ok(v.display_name),
        route_short_name: Ok(v.route_short_name),
        trip_id: Ok(v.trip_id),
    }
}

impl core::convert::TryFrom<TripInfo> for super::TripInfo {
    type Error = ConversionError;

    fn try_from(value: TripInfo) -> (r: Result<super::TripInfo, ConversionError>) {
        let TripInfo { display_name, route_short_name, trip_id } = value;
        let display_name = match display_name {
            Ok(v) => v,
            Err(e) => return Err(ConversionError(e)),
        };
        let route_short_name = match route_short_name {
            Ok(v) => v,
            Err(e) => return Err(ConversionError(e)),
        };
        let trip_id = match trip_id {
            Ok(v) => v,
            Err(e) => return Err(ConversionError(e)),
        };
        Ok(super::TripInfo { display_name, route_short_name, trip_id })
    }
}

impl vstd::std_specs::convert::TryFromSpecImpl<TripInfo> for super::TripInfo {
    open spec fn obeys_try_from_spec() -> bool {
        true
    }

    open spec fn try_from_spec(v: TripInfo) -> Result<Self, ConversionError> {
        trip_info_from_builder(v)
    }
}

impl From<super::TripInfo> for TripInfo {
    fn from(value: super::TripInfo) -> (r: Self) {
        TripInfo {
            display_name: Ok(value.display_name),
            route_short_name: Ok(value.route_short_name),
            trip_id: Ok(value.trip_id),
        }
    }
}

impl vstd::std_specs::convert::FromSpecImpl<super::TripInfo> for TripInfo {
    open spec fn obeys_from_spec() -> bool {
        true
    }

    open spec fn from_spec(v: super::TripInfo) -> Self {
        builder_of_trip_info(v)
    }
}

/// An object taken apart into a builder converts back into the same object.
pub proof fn law_trip_info_builder_roundtrip(v: super::TripInfo)
    ensures
        trip_info_from_builder(builder_of_trip_info(v)) == Ok::<super::TripInfo, ConversionError>(v),
{
}

/// A builder whose fields all hold values converts into the object whose
/// fields are those values, field by field.
pub proof fn law_alert_from_full_builder(b: Alert)
    requires
        b.cause is Ok,
        b.cause_detail is Ok,
        b.communication_period is Ok,
        b.description_text is Ok,
        b.effect is Ok,
        b.effect_detail is Ok,
        b.header_text is Ok,
        b.image_alternative_text is Ok,
        b.image_media_type is Ok,
        b.image_url is Ok,
        b.impact_period is Ok,
        b.severity_level is Ok,
        b.tts_description_text is Ok,
        b.tts_header_text is Ok,
        b.url is Ok,
        b.image_media_type->Ok_0 matches Some(t) ==> has_prefix(t@, "image/"@),
    ensures
        alert_from_builder(b) is Ok,
        alert_from_builder(b)->Ok_0.cause == b.cause->Ok_0,
        alert_from_builder(b)->Ok_0.cause_detail == b.cause_detail->Ok_0,
        alert_from_builder(b)->Ok_0.communication_period == b.communication_period->Ok_0,
        alert_from_builder(b)->Ok_0.description_text == b.description_text->Ok_0,
        alert_from_builder(b)->Ok_0.effect == b.effect->Ok_0,
        alert_from_builder(b)->Ok_0.effect_detail == b.effect_detail->Ok_0,
        alert_from_builder(b)->Ok_0.header_text == b.header_text->Ok_0,
        alert_from_builder(b)->Ok_0.image_alternative_text == b.image_alternative_text->Ok_0,
        alert_from_builder(b)->Ok_0.image_media_type == b.image_media_type->Ok_0,
        alert_from_builder(b)->Ok_0.image_url == b.image_url->Ok_0,
        alert_from_builder(b)->Ok_0.impact_period == b.impact_period->Ok_0,
        alert_from_builder(b)->Ok_0.severity_level == b.severity_level->Ok_0,
        alert_from_builder(b)->Ok_0.tts_description_text == b.tts_description_text->Ok_0,
        alert_from_builder(b)->Ok_0.tts_header_text == b.tts_header_text->Ok_0,
        alert_from_builder(b)->Ok_0.url == b.url->Ok_0,
{
}

/// A builder with a field that holds no value converts into the error of
/// the first such field, in declaration order.
pub proof fn law_alert_builder_reports_first_missing(b: Alert)
    ensures
        b.cause is Err ==> alert_from_builder(b) == Err::<super::Alert, Seq<char>>(b.cause->Err_0@),
        b.cause is Ok && b.cause_detail is Err ==> alert_from_builder(b) == Err::<super::Alert, Seq<char>>(b.cause_detail->Err_0@),
        b.cause is Ok && b.cause_detail is Ok && b.communication_period is Err ==> alert_from_builder(b) == Err::<super::Alert, Seq<char>>(b.communication_period->Err_0@),
        b.cause is Ok && b.cause_detail is Ok && b.communication_period is Ok && b.description_text is Err ==> alert_from_builder(b) == Err::<super::Alert, Seq<char>>(b.description_text->Err_0@),
        b.cause is Ok && b.cause_detail is Ok && b.communication_period is Ok && b.description_text is Ok && b.effect is Err ==> alert_from_builder(b) == Err::<super::Alert, Seq<char>>(b.effect->Err_0@),
        b.cause is Ok && b.cause_detail is Ok && b.communication_period is Ok && b.description_text is Ok && b.effect is Ok && b.effect_detail is Err ==> alert_from_builder(b) == Err::<super::Alert, Seq<char>>(b.effect_detail->Err_0@),
        b.cause is Ok && b.cause_detail is Ok && b.communication_period is Ok && b.description_text is Ok && b.effect is Ok && b.effect_detail is Ok && b.header_text is Err ==> alert_from_builder(b) == Err::<super::Alert, Seq<char>>(b.header_text->Err_0@),
        b.cause is Ok && b.cause_detail is Ok && b.communication_period is Ok && b.description_text is Ok && b.effect is Ok && b.effect_detail is Ok && b.header_text is Ok && b.image_alternative_text is Err ==> alert_from_builder(b) == Err::<super::Alert, Seq<char>>(b.image_alternative_text->Err_0@),
        b.cause is Ok && b.cause_detail is Ok && b.communication_period is Ok && b.description_text is Ok && b.effect is Ok && b.effect_detail is Ok && b.header_text is Ok && b.image_alternative_text is Ok && b.image_media_type is Err ==> alert_from_builder(b) == Err::<super::Alert, Seq<char>>(b.image_media_type->Err_0@),
        b.cause is Ok && b.cause_detail is Ok && b.communication_period is Ok && b.description_text is Ok && b.effect is Ok && b.effect_detail is Ok && b.header_text is Ok && b.image_alternative_text is Ok && b.image_media_type is Ok && b.image_url is Err ==> alert_from_builder(b) == Err::<super::Alert, Seq<char>>(b.image_url->Err_0@),
        b.cause is Ok && b.cause_detail is Ok && b.communication_period is Ok && b.description_text is Ok && b.effect is Ok && b.effect_detail is Ok && b.header_text is Ok && b.image_alternative_text is Ok && b.image_media_type is Ok && b.image_url is Ok && b.impact_period is Err ==> alert_from_builder(b) == Err::<super::Alert, Seq<char>>(b.impact_period->Err_0@),
        b.cause is Ok && b.cause_detail is Ok && b.communication_period is Ok && b.description_text is Ok && b.effect is Ok && b.effect_detail is Ok && b.header_text is Ok && b.image_alternative_text is Ok && b.image_media_type is Ok && b.image_url is Ok && b.impact_period is Ok && b.severity_level is Err ==> alert_from_builder(b) == Err::<super::Alert, Seq<char>>(b.severity_level->Err_0@),
        b.cause is Ok && b.cause_detail is Ok && b.communication_period is Ok && b.description_text is Ok && b.effect is Ok && b.effect_detail is Ok && b.header_text is Ok && b.image_alternative_text is Ok && b.image_media_type is Ok && b.image_url is Ok && b.impact_period is Ok && b.severity_level is Ok && b.tts_description_text is Err ==> alert_from_builder(b) == Err::<super::Alert, Seq<char>>(b.tts_description_text->Err_0@),
        b.cause is Ok && b.cause_detail is Ok && b.communication_period is Ok && b.description_text is Ok && b.effect is Ok && b.effect_detail is Ok && b.header_text is Ok && b.image_alternative_text is Ok && b.image_media_type is Ok && b.image_url is Ok && b.impact_period is Ok && b.severity_level is Ok && b.tts_description_text is Ok && b.tts_header_text is Err ==> alert_from_builder(b) == Err::<super::Alert, Seq<char>>(b.tts_header_text->Err_0@),
        b.cause is Ok && b.cause_detail is Ok && b.communication_period is Ok && b.description_text is Ok && b.effect is Ok && b.effect_detail is Ok && b.header_text is Ok && b.image_alternative_text is Ok && b.image_media_type is Ok && b.image_url is Ok && b.impact_period is Ok && b.severity_level is Ok && b.tts_description_text is Ok && b.tts_header_text is Ok && b.url is Err ==> alert_from_builder(b) == Err::<super::Alert, Seq<char>>(b.url->Err_0@),
{
}

/// An object taken apart into a builder puts each of its fields into the
/// field of the same name.
pub proof fn law_builder_of_alert_keeps_fields(v: super::Alert)
    ensures
        builder_of_alert(v).cause matches Ok(w) && w == v.cause,
        builder_of_alert(v).cause_detail matches Ok(w) && w == v.cause_detail,
        builder_of_alert(v).communication_period matches Ok(w) && w == v.communication_period,
        builder_of_alert(v).description_text matches Ok(w) && w == v.description_text,
        builder_of_alert(v).effect matches Ok(w) && w == v.effect,
        builder_of_alert(v).effect_detail matches Ok(w) && w == v.effect_detail,
        builder_of_alert(v).header_text matches Ok(w) && w == v.header_text,
        builder_of_alert(v).image_alternative_text matches Ok(w) && w == v.image_alternative_text,
        builder_of_alert(v).image_media_type matches Ok(w) && w == v.image_media_type,
        builder_of_alert(v).image_url matches Ok(w) && w == v.image_url,
        builder_of_alert(v).impact_period matches Ok(w) && w == v.impact_period,
        builder_of_alert(v).severity_level matches Ok(w) && w == v.severity_level,
        builder_of_alert(v).tts_description_text matches Ok(w) && w == v.tts_description_text,
        builder_of_alert(v).tts_header_text matches Ok(w) && w == v.tts_header_text,
        builder_of_alert(v).url matches Ok(w) && w == v.url,
{
}

/// A fresh builder holds nothing: its optional fields are empty, and each
/// required field holds the message that no value was supplied for it.
pub proof fn law_fresh_alert_builder(b: Alert)
    requires
        b.is_fresh(),
    ensures
        b.cause == Ok::<Option<AlertCause>, String>(None),
        b.cause_detail == Ok::<Option<String>, String>(None),
        b.communication_period matches Ok(v) && v@ == Seq::<super::TimeRange>::empty(),
        b.description_text matches Err(e) && e@ == "no value supplied for description_text"@,
        b.effect == Ok::<Option<AlertEffect>, String>(None),
        b.effect_detail == Ok::<Option<String>, String>(None),
        b.header_text matches Err(e) && e@ == "no value supplied for header_text"@,
        b.image_alternative_text == Ok::<Option<String>, String>(None),
        b.image_media_type == Ok::<Option<String>, String>(None),
        b.image_url == Ok::<Option<String>, String>(None),
        b.impact_period matches Ok(v) && v@ == Seq::<super::TimeRange>::empty(),
        b.severity_level == Ok::<Option<AlertSeverityLevel>, String>(None),
        b.tts_description_text == Ok::<Option<String>, String>(None),
        b.tts_header_text == Ok::<Option<String>, String>(None),
        b.url == Ok::<Option<String>, String>(None),
{
}

/// A builder whose fields all hold values converts into the object whose
/// fields are those values, field by field.
pub proof fn law_encoded_polyline_from_full_builder(b: EncodedPolyline)
    requires
        b.length is Ok,
        b.points is Ok,
        b.precision is Ok,

    ensures
        encoded_polyline_from_builder(b) is Ok,
        encoded_polyline_from_builder(b)->Ok_0.length == b.length->Ok_0,
        encoded_polyline_from_builder(b)->Ok_0.points == b.points->Ok_0,
        encoded_polyline_from_builder(b)->Ok_0.precision == b.precision->Ok_0,
{
}

/// A builder with a field that holds no value converts into the error of
/// the first such field, in declaration order.
pub proof fn law_encoded_polyline_builder_reports_first_missing(b: EncodedPolyline)
    ensures
        b.length is Err ==> (encoded_polyline_from_builder(b) matches Err(e) && e@ == b.length->Err_0@),
        b.length is Ok && b.points is Err ==> (encoded_polyline_from_builder(b) matches Err(e) && e@ == b.points->Err_0@),
        b.length is Ok && b.points is Ok && b.precision is Err ==> (encoded_polyline_from_builder(b) matches Err(e) && e@ == b.precision->Err_0@),
{
}

/// An object taken apart into a builder puts each of its fields into the
/// field of the same name.
pub proof fn law_builder_of_encoded_polyline_keeps_fields(v: super::EncodedPolyline)
    ensures
        builder_of_encoded_polyline(v).length matches Ok(w) && w == v.length,
        builder_of_encoded_polyline(v).points matches Ok(w) && w == v.points,
        builder_of_encoded_polyline(v).precision matches Ok(w) && w == v.precision,
{
}

/// A fresh builder holds nothing: its optional fields are empty, and each
/// required field holds the message that no value was supplied for it.
pub proof fn law_fresh_encoded_polyline_builder(b: EncodedPolyline)
    requires
        b.is_fresh(),
    ensures
        b.length matches Err(e) && e@ == "no value supplied for length"@,
        b.points matches Err(e) && e@ == "no value supplied for points"@,
        b.precision matches Err(e) && e@ == "no value supplied for precision"@,
{
}

/// A builder whose fields all hold values converts into the object whose
/// fields are those values, field by field.
pub proof fn law_fare_media_from_full_builder(b: FareMedia)
    requires
        b.fare_media_name is Ok,
        b.fare_media_type is Ok,

    ensures
        fare_media_from_builder(b) is Ok,
        fare_media_from_builder(b)->Ok_0.fare_media_name == b.fare_media_name->Ok_0,
        fare_media_from_builder(b)->Ok_0.fare_media_type == b.fare_media_type->Ok_0,
{
}

/// A builder with a field that holds no value converts into the error of
/// the first such field, in declaration order.
pub proof fn law_fare_media_builder_reports_first_missing(b: FareMedia)
    ensures
        b.fare_media_name is Err ==> (fare_media_from_builder(b) matches Err(e) && e@ == b.fare_media_name->Err_0@),
        b.fare_media_name is Ok && b.fare_media_type is Err ==> (fare_media_from_builder(b) matches Err(e) && e@ == b.fare_media_type->Err_0@),
{
}

/// An object taken apart into a builder puts each of its fields into the
/// field of the same name.
pub proof fn law_builder_of_fare_media_keeps_fields(v: super::FareMedia)
    ensures
        builder_of_fare_media(v).fare_media_name matches Ok(w) && w == v.fare_media_name,
        builder_of_fare_media(v).fare_media_type matches Ok(w) && w == v.fare_media_type,
{
}

/// A fresh builder holds nothing: its optional fields are empty, and each
/// required field holds the message that no value was supplied for it.
pub proof fn law_fresh_fare_media_builder(b: FareMedia)
    requires
        b.is_fresh(),
    ensures
        b.fare_media_name == Ok::<Option<String>, String>(None),
        b.fare_media_type matches Err(e) && e@ == "no value supplied for fare_media_type"@,
{
}

/// A builder whose fields all hold values converts into the object whose
/// fields are those values, field by field.
pub proof fn law_rental_from_full_builder(b: Rental)
    requires
        b.form_factor is Ok,
        b.from_station_name is Ok,
        b.propulsion_type is Ok,
        b.rental_uri_android is Ok,
        b.rental_uri_ios is Ok,
        b.rental_uri_web is Ok,
        b.return_constraint is Ok,
        b.station_name is Ok,
        b.system_id is Ok,
        b.system_name is Ok,
        b.to_station_name is Ok,
        b.url is Ok,

    ensures
        rental_from_builder(b) is Ok,
        rental_from_builder(b)->Ok_0.form_factor == b.form_factor->Ok_0,
        rental_from_builder(b)->Ok_0.from_station_name == b.from_station_name->Ok_0,
        rental_from_builder(b)->Ok_0.propulsion_type == b.propulsion_type->Ok_0,
        rental_from_builder(b)->Ok_0.rental_uri_android == b.rental_uri_android->Ok_0,
        rental_from_builder(b)->Ok_0.rental_uri_ios == b.rental_uri_ios->Ok_0,
        rental_from_builder(b)->Ok_0.rental_uri_web == b.rental_uri_web->Ok_0,
        rental_from_builder(b)->Ok_0.return_constraint == b.return_constraint->Ok_0,
        rental_from_builder(b)->Ok_0.station_name == b.station_name->Ok_0,
        rental_from_builder(b)->Ok_0.system_id == b.system_id->Ok_0,
        rental_from_builder(b)->Ok_0.system_name == b.system_name->Ok_0,
        rental_from_builder(b)->Ok_0.to_station_name == b.to_station_name->Ok_0,
        rental_from_builder(b)->Ok_0.url == b.url->Ok_0,
{
}

/// A builder with a field that holds no value converts into the error of
/// the first such field, in declaration order.
pub proof fn law_rental_builder_reports_first_missing(b: Rental)
    ensures
        b.form_factor is Err ==> (rental_from_builder(b) matches Err(e) && e@ == b.form_factor->Err_0@),
        b.form_factor is Ok && b.from_station_name is Err ==> (rental_from_builder(b) matches Err(e) && e@ == b.from_station_name->Err_0@),
        b.form_factor is Ok && b.from_station_name is Ok && b.propulsion_type is Err ==> (rental_from_builder(b) matches Err(e) && e@ == b.propulsion_type->Err_0@),
        b.form_factor is Ok && b.from_station_name is Ok && b.propulsion_type is Ok && b.rental_uri_android is Err ==> (rental_from_builder(b) matches Err(e) && e@ == b.rental_uri_android->Err_0@),
        b.form_factor is Ok && b.from_station_name is Ok && b.propulsion_type is Ok && b.rental_uri_android is Ok && b.rental_uri_ios is Err ==> (rental_from_builder(b) matches Err(e) && e@ == b.rental_uri_ios->Err_0@),
        b.form_factor is Ok && b.from_station_name is Ok && b.propulsion_type is Ok && b.rental_uri_android is Ok && b.rental_uri_ios is Ok && b.rental_uri_web is Err ==> (rental_from_builder(b) matches Err(e) && e@ == b.rental_uri_web->Err_0@),
        b.form_factor is Ok && b.from_station_name is Ok && b.propulsion_type is Ok && b.rental_uri_android is Ok && b.rental_uri_ios is Ok && b.rental_uri_web is Ok && b.return_constraint is Err ==> (rental_from_builder(b) matches Err(e) && e@ == b.return_constraint->Err_0@),
        b.form_factor is Ok && b.from_station_name is Ok && b.propulsion_type is Ok && b.rental_uri_android is Ok && b.rental_uri_ios is Ok && b.rental_uri_web is Ok && b.return_constraint is Ok && b.station_name is Err ==> (rental_from_builder(b) matches Err(e) && e@ == b.station_name->Err_0@),
        b.form_factor is Ok && b.from_station_name is Ok && b.propulsion_type is Ok && b.rental_uri_android is Ok && b.rental_uri_ios is Ok && b.rental_uri_web is Ok && b.return_constraint is Ok && b.station_name is Ok && b.system_id is Err ==> (rental_from_builder(b) matches Err(e) && e@ == b.system_id->Err_0@),
        b.form_factor is Ok && b.from_station_name is Ok && b.propulsion_type is Ok && b.rental_uri_android is Ok && b.rental_uri_ios is Ok && b.rental_uri_web is Ok && b.return_constraint is Ok && b.station_name is Ok && b.system_id is Ok && b.system_name is Err ==> (rental_from_builder(b) matches Err(e) && e@ == b.system_name->Err_0@),
        b.form_factor is Ok && b.from_station_name is Ok && b.propulsion_type is Ok && b.rental_uri_android is Ok && b.rental_uri_ios is Ok && b.rental_uri_web is Ok && b.return_constraint is Ok && b.station_name is Ok && b.system_id is Ok && b.system_name is Ok && b.to_station_name is Err ==> (rental_from_builder(b) matches Err(e) && e@ == b.to_station_name->Err_0@),
        b.form_factor is Ok && b.from_station_name is Ok && b.propulsion_type is Ok && b.rental_uri_android is Ok && b.rental_uri_ios is Ok && b.rental_uri_web is Ok && b.return_constraint is Ok && b.station_name is Ok && b.system_id is Ok && b.system_name is Ok && b.to_station_name is Ok && b.url is Err ==> (rental_from_builder(b) matches Err(e) && e@ == b.url->Err_0@),
{
}

/// An object taken apart into a builder puts each of its fields into the
/// field of the same name.
pub proof fn law_builder_of_rental_keeps_fields(v: super::Rental)
    ensures
        builder_of_rental(v).form_factor matches Ok(w) && w == v.form_factor,
        builder_of_rental(v).from_station_name matches Ok(w) && w == v.from_station_name,
        builder_of_rental(v).propulsion_type matches Ok(w) && w == v.propulsion_type,
        builder_of_rental(v).rental_uri_android matches Ok(w) && w == v.rental_uri_android,
        builder_of_rental(v).rental_uri_ios matches Ok(w) && w == v.rental_uri_ios,
        builder_of_rental(v).rental_uri_web matches Ok(w) && w == v.rental_uri_web,
        builder_of_rental(v).return_constraint matches Ok(w) && w == v.return_constraint,
        builder_of_rental(v).station_name matches Ok(w) && w == v.station_name,
        builder_of_rental(v).system_id matches Ok(w) && w == v.system_id,
        builder_of_rental(v).system_name matches Ok(w) && w == v.system_name,
        builder_of_rental(v).to_station_name matches Ok(w) && w == v.to_station_name,
        builder_of_rental(v).url matches Ok(w) && w == v.url,
{
}

/// A fresh builder holds nothing: its optional fields are empty, and each
/// required field holds the message that no value was supplied for it.
pub proof fn law_fresh_rental_builder(b: Rental)
    requires
        b.is_fresh(),
    ensures
        b.form_factor == Ok::<Option<RentalFormFactor>, String>(None),
        b.from_station_name == Ok::<Option<String>, String>(None),
        b.propulsion_type == Ok::<Option<RentalPropulsionType>, String>(None),
        b.rental_uri_android == Ok::<Option<String>, String>(None),
        b.rental_uri_ios == Ok::<Option<String>, String>(None),
        b.rental_uri_web == Ok::<Option<String>, String>(None),
        b.return_constraint == Ok::<Option<RentalReturnConstraint>, String>(None),
        b.station_name == Ok::<Option<String>, String>(None),
        b.system_id matches Err(e) && e@ == "no value supplied for system_id"@,
        b.system_name == Ok::<Option<String>, String>(None),
        b.to_station_name == Ok::<Option<String>, String>(None),
        b.url == Ok::<Option<String>, String>(None),
{
}

/// A builder whose fields all hold values converts into the object whose
/// fields are those values, field by field.
pub proof fn law_rider_category_from_full_builder(b: RiderCategory)
    requires
        b.eligibility_url is Ok,
        b.is_default_fare_category is Ok,
        b.rider_category_name is Ok,

    ensures
        rider_category_from_builder(b) is Ok,
        rider_category_from_builder(b)->Ok_0.eligibility_url == b.eligibility_url->Ok_0,
        rider_category_from_builder(b)->Ok_0.is_default_fare_category == b.is_default_fare_category->Ok_0,
        rider_category_from_builder(b)->Ok_0.rider_category_name == b.rider_category_name->Ok_0,
{
}

/// A builder with a field that holds no value converts into the error of
/// the first such field, in declaration order.
pub proof fn law_rider_category_builder_reports_first_missing(b: RiderCategory)
    ensures
        b.eligibility_url is Err ==> (rider_category_from_builder(b) matches Err(e) && e@ == b.eligibility_url->Err_0@),
        b.eligibility_url is Ok && b.is_default_fare_category is Err ==> (rider_category_from_builder(b) matches Err(e) && e@ == b.is_default_fare_category->Err_0@),
        b.eligibility_url is Ok && b.is_default_fare_category is Ok && b.rider_category_name is Err ==> (rider_category_from_builder(b) matches Err(e) && e@ == b.rider_category_name->Err_0@),
{
}

/// An object taken apart into a builder puts each of its fields into the
/// field of the same name.
pub proof fn law_builder_of_rider_category_keeps_fields(v: super::RiderCategory)
    ensures
        builder_of_rider_category(v).eligibility_url matches Ok(w) && w == v.eligibility_url,
        builder_of_rider_category(v).is_default_fare_category matches Ok(w) && w == v.is_default_fare_category,
        builder_of_rider_category(v).rider_category_name matches Ok(w) && w == v.rider_category_name,
{
}

/// A fresh builder holds nothing: its optional fields are empty, and each
/// required field holds the message that no value was supplied for it.
pub proof fn law_fresh_rider_category_builder(b: RiderCategory)
    requires
        b.is_fresh(),
    ensures
        b.eligibility_url == Ok::<Option<String>, String>(None),
        b.is_default_fare_category matches Err(e) && e@ == "no value supplied for is_default_fare_category"@,
        b.rider_category_name matches Err(e) && e@ == "no value supplied for rider_category_name"@,
{
}

/// A builder whose fields all hold values converts into the object whose
/// fields are those values, field by field.
pub proof fn law_time_range_from_full_builder(b: TimeRange)
    requires
        b.end is Ok,
        b.start is Ok,
        b.start->Ok_0 is Some || b.end->Ok_0 is Some,
    ensures
        time_range_from_builder(b) is Ok,
        time_range_from_builder(b)->Ok_0.end == b.end->Ok_0,
        time_range_from_builder(b)->Ok_0.start == b.start->Ok_0,
{
}

/// A builder with a field that holds no value converts into the error of
/// the first such field, in declaration order.
pub proof fn law_time_range_builder_reports_first_missing(b: TimeRange)
    ensures
        b.end is Err ==> time_range_from_builder(b) == Err::<super::TimeRange, Seq<char>>(b.end->Err_0@),
        b.end is Ok && b.start is Err ==> time_range_from_builder(b) == Err::<super::TimeRange, Seq<char>>(b.start->Err_0@),
{
}

/// An object taken apart into a builder puts each of its fields into the
/// field of the same name.
pub proof fn law_builder_of_time_range_keeps_fields(v: super::TimeRange)
    ensures
        builder_of_time_range(v).end matches Ok(w) && w == v.end,
        builder_of_time_range(v).start matches Ok(w) && w == v.start,
{
}

/// A fresh builder holds nothing: its optional fields are empty, and each
/// required field holds the message that no value was supplied for it.
pub proof fn law_fresh_time_range_builder(b: TimeRange)
    requires
        b.is_fresh(),
    ensures
        b.end == Ok::<Option<Timestamp>, String>(None),
        b.start == Ok::<Option<Timestamp>, String>(None),
{
}

/// A builder whose fields all hold values converts into the object whose
/// fields are those values, field by field.
pub proof fn law_trip_info_from_full_builder(b: TripInfo)
    requires
        b.display_name is Ok,
        b.route_short_name is Ok,
        b.trip_id is Ok,

    ensures
        trip_info_from_builder(b) is Ok,
        trip_info_from_builder(b)->Ok_0.display_name == b.display_name->Ok_0,
        trip_info_from_builder(b)->Ok_0.route_short_name == b.route_short_name->Ok_0,
        trip_info_from_builder(b)->Ok_0.trip_id == b.trip_id->Ok_0,
{
}

/// A builder with a field that holds no value converts into the error of
/// the first such field, in declaration order.
pub proof fn law_trip_info_builder_reports_first_missing(b: TripInfo)
    ensures
        b.display_name is Err ==> (trip_info_from_builder(b) matches Err(e) && e@ == b.display_name->Err_0@),
        b.display_name is Ok && b.route_short_name is Err ==> (trip_info_from_builder(b) matches Err(e) && e@ == b.route_short_name->Err_0@),
        b.display_name is Ok && b.route_short_name is Ok && b.trip_id is Err ==> (trip_info_from_builder(b) matches Err(e) && e@ == b.trip_id->Err_0@),
{
}

/// An object taken apart into a builder puts each of its fields into the
/// field of the same name.
pub proof fn law_builder_of_trip_info_keeps_fields(v: super::TripInfo)
    ensures
        builder_of_trip_info(v).display_name matches Ok(w) && w == v.display_name,
        builder_of_trip_info(v).route_short_name matches Ok(w) && w == v.route_short_name,
        builder_of_trip_info(v).trip_id matches Ok(w) && w == v.trip_id,
{
}

/// A fresh builder holds nothing: its optional fields are empty, and each
/// required field holds the message that no value was supplied for it.
pub proof fn law_fresh_trip_info_builder(b: TripInfo)
    requires
        b.is_fresh(),
    ensures
        b.display_name == Ok::<Option<String>, String>(None),
        b.route_short_name == Ok::<Option<String>, String>(None),
        b.trip_id matches Err(e) && e@ == "no value supplied for trip_id"@,
{
}

} // verus!
