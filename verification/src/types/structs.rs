//! Objects of the API.

use super::builder;
use super::enums::{AlertCause, AlertEffect, AlertSeverityLevel, FareMediaType, RentalFormFactor, RentalPropulsionType, RentalReturnConstraint};
use vstd::prelude::*;

verus! {

/// An instant in UTC, as the seconds and nanoseconds since the Unix epoch
/// that a `chrono::DateTime<Utc>` holds (`timestamp` and
/// `timestamp_subsec_nanos`).
#[derive(Clone, Copy, Debug, PartialEq, Eq)]
pub struct Timestamp {
    pub secs: i64,
    pub nsecs: u32,
}

/// An alert, indicating some sort of incident in the public transit
/// network.
#[derive(Clone, Debug)]
pub struct Alert {
    pub cause: Option<AlertCause>,
    /// Description of the cause of the alert that allows for
    /// agency-specific language; more specific than the Cause.
    pub cause_detail: Option<String>,
    /// Time when the alert should be shown to the user.
    /// If missing, the alert will be shown as long as it appears in the
    /// feed. If multiple ranges are given, the alert will be shown
    /// during all of them.
    pub communication_period: Vec<TimeRange>,
    /// Description for the alert.
    /// This plain-text string will be formatted as the body of the alert
    /// (or shown on an explicit "expand" request by the user).
    /// The information in the description should add to the information of
    /// the header.
    pub description_text: String,
    pub effect: Option<AlertEffect>,
    /// Description of the effect of the alert that allows for
    /// agency-specific language; more specific than the Effect.
    pub effect_detail: Option<String>,
    /// Header for the alert. This plain-text string will be highlighted,
    /// for example in boldface.
    pub header_text: String,
    /// Text describing the appearance of the linked image in the image
    /// field (e.g., in case the image can't be displayed or the
    /// user can't see the image for accessibility reasons). See the
    /// HTML spec for alt image text.
    pub image_alternative_text: Option<String>,
    /// IANA media type as to specify the type of image to be displayed. The
    /// type must start with "image/"
    pub image_media_type: Option<String>,
    /// String containing an URL linking to an image.
    pub image_url: Option<String>,
    /// Time when the services are affected by the disruption mentioned in
    /// the alert.
    pub impact_period: Vec<TimeRange>,
    pub severity_level: Option<AlertSeverityLevel>,
    /// Text containing a description for the alert to be used for
    /// text-to-speech implementations. This field is the
    /// text-to-speech version of description_text.
    /// It should contain the same information as description_text but
    /// formatted such that it can be read as text-to-speech
    /// (for example, abbreviations removed, numbers spelled out, etc.)
    pub tts_description_text: Option<String>,
    /// Text containing the alert's header to be used for text-to-speech
    /// implementations. This field is the text-to-speech version of
    /// header_text. It should contain the same information as
    /// headerText but formatted such that it can read as text-to-speech
    /// (for example, abbreviations removed, numbers spelled out, etc.)
    pub tts_header_text: Option<String>,
    /// The URL which provides additional information about the alert.
    pub url: Option<String>,
}

impl Alert {
    /// A builder with nothing supplied yet.
    pub fn builder() -> (r: builder::Alert)
        ensures
            r.is_fresh(),
    {
        builder::Alert::default()
    }
}

/// `EncodedPolyline`
#[derive(Clone, Debug)]
pub struct EncodedPolyline {
    /// The number of points in the string
    pub length: u64,
    /// The encoded points of the polyline using the Google polyline
    /// encoding.
    pub points: String,
    /// The precision of the returned polyline (7 for /v1, 6 for /v2)
    /// Be aware that with precision 7, coordinates with |longitude| >
    /// 107.37 are undefined/will overflow.
    pub precision: i64,
}

impl EncodedPolyline {
    /// A builder with nothing supplied yet.
    pub fn builder() -> (r: builder::EncodedPolyline)
        ensures
            r.is_fresh(),
    {
        builder::EncodedPolyline::default()
    }
}

/// `FareMedia`
#[derive(Clone, Debug)]
pub struct FareMedia {
    /// Name of the fare media. Required for transit cards and mobile apps.
    pub fare_media_name: Option<String>,
    pub fare_media_type: FareMediaType,
}

impl FareMedia {
    /// A builder with nothing supplied yet.
    pub fn builder() -> (r: builder::FareMedia)
        ensures
            r.is_fresh(),
    {
        builder::FareMedia::default()
    }
}

/// Vehicle rental
#[derive(Clone, Debug)]
pub struct Rental {
    pub form_factor: Option<RentalFormFactor>,
    /// Name of the station where the vehicle is picked up (empty for free
    /// floating vehicles)
    pub from_station_name: Option<String>,
    pub propulsion_type: Option<RentalPropulsionType>,
    /// Rental URI for Android (deep link to the specific station or
    /// vehicle)
    pub rental_uri_android: Option<String>,
    /// Rental URI for iOS (deep link to the specific station or vehicle)
    pub rental_uri_ios: Option<String>,
    /// Rental URI for web (deep link to the specific station or vehicle)
    pub rental_uri_web: Option<String>,
    pub return_constraint: Option<RentalReturnConstraint>,
    /// Name of the station
    pub station_name: Option<String>,
    /// Vehicle share system ID
    pub system_id: String,
    /// Vehicle share system name
    pub system_name: Option<String>,
    /// Name of the station where the vehicle is returned (empty for free
    /// floating vehicles)
    pub to_station_name: Option<String>,
    /// URL of the vehicle share system
    pub url: Option<String>,
}

impl Rental {
    /// A builder with nothing supplied yet.
    pub fn builder() -> (r: builder::Rental)
        ensures
            r.is_fresh(),
    {
        builder::Rental::default()
    }
}

/// `RiderCategory`
#[derive(Clone, Debug)]
pub struct RiderCategory {
    /// URL to a web page providing detailed information about the rider
    /// category and/or its eligibility criteria.
    pub eligibility_url: Option<String>,
    /// Specifies if this category should be considered the default (i.e.
    /// the main category displayed to riders).
    pub is_default_fare_category: bool,
    /// Rider category name as displayed to the rider.
    pub rider_category_name: String,
}

impl RiderCategory {
    /// A builder with nothing supplied yet.
    pub fn builder() -> (r: builder::RiderCategory)
        ensures
            r.is_fresh(),
    {
        builder::RiderCategory::default()
    }
}

/// A time interval.
/// The interval is considered active at time t if t is greater than or
/// equal to the start time and less than the end time.
#[derive(Clone, Debug)]
pub struct TimeRange {
    /// If missing, the interval ends at plus infinity.
    /// If a TimeRange is provided, either start or end must be provided -
    /// both fields cannot be empty.
    pub end: Option<Timestamp>,
    /// If missing, the interval starts at minus infinity.
    /// If a TimeRange is provided, either start or end must be provided -
    /// both fields cannot be empty.
    pub start: Option<Timestamp>,
}

impl TimeRange {
    /// A builder with nothing supplied yet.
    pub fn builder() -> (r: builder::TimeRange)
        ensures
            r.is_fresh(),
    {
        builder::TimeRange::default()
    }
}

impl Default for TimeRange {
    fn default() -> (r: Self)
        ensures
            r.end is None,
            r.start is None,
    {
        TimeRange { end: None, start: None }
    }
}

/// trip id and name
#[derive(Clone, Debug)]
pub struct TripInfo {
    /// trip display name (api version >= 4)
    pub display_name: Option<String>,
    /// trip display name (api version < 4)
    pub route_short_name: Option<String>,
    /// trip ID (dataset trip id prefixed with the dataset tag)
    pub trip_id: String,
}

impl TripInfo {
    /// A builder with nothing supplied yet.
    pub fn builder() -> (r: builder::TripInfo)
        ensures
            r.is_fresh(),
    {
        builder::TripInfo::default()
    }
}

} // verus!
