//! Places and stops as the routing service names them, and the options of
//! a search for connections.

use crate::models::{Mode, PedestrianProfile, RentalFormFactor, RentalPropulsionType};
use crate::text::owned;
use vstd::prelude::*;

verus! {

/// A place that a connection starts or ends at.
#[derive(Debug, Clone)]
pub struct PlaceID(String);

impl View for PlaceID {
    type V = Seq<char>;

    /// The text by which the service identifies the place.
    closed spec fn view(&self) -> Seq<char> {
        self.0@
    }
}

impl PlaceID {
    /// globally unique id of a stop
    pub fn from_stop_id(stop_id: &str) -> (r: Self)
        ensures
            r@ == stop_id@,
    {
        PlaceID(owned(stop_id))
    }

    /// The text by which the service identifies the place.
    pub fn as_str(&self) -> (r: &str)
        ensures
            r@ == self@,
    {
        self.0.as_str()
    }
}

/// A stop of public transport.
#[derive(Debug, Clone)]
pub struct StopID(String);

impl View for StopID {
    type V = Seq<char>;

    /// The globally unique id of the stop.
    closed spec fn view(&self) -> Seq<char> {
        self.0@
    }
}

impl StopID {
    /// globally unique id of a stop
    pub fn from_stop_id(stop_id: &str) -> (r: Self)
        ensures
            r@ == stop_id@,
    {
        StopID(owned(stop_id))
    }

    /// The globally unique id of the stop.
    pub fn as_str(&self) -> (r: &str)
        ensures
            r@ == self@,
    {
        self.0.as_str()
    }
}

impl From<StopID> for PlaceID {
    fn from(value: StopID) -> (r: Self)
        ensures
            r@ == value@,
    {
        PlaceID(value.0)
    }
}

impl vstd::std_specs::convert::FromSpecImpl<StopID> for PlaceID {
    open spec fn obeys_from_spec() -> bool {
        true
    }

    closed spec fn from_spec(v: StopID) -> Self {
        PlaceID(v.0)
    }
}

/// Options of a search for the best connections from one place to another.
///
/// Each option left at `None` takes the service's default. The service's
/// factor for direct connections is a floating-point number; no option here
/// sets it, and the JSON form of a request leaves it out.
#[derive(Debug, Clone)]
pub struct OptimalConnectionOptions {
    pub from_place: PlaceID,
    pub to_place: PlaceID,
    pub detailed_transfers: bool,
    pub via: Option<Vec<StopID>>,
    pub via_minimum_stay: Option<Vec<u32>>,
    pub time: Option<chrono::NaiveDateTime>,
    pub max_transfers: Option<u32>,
    pub min_transfer_time: Option<u32>,
    pub additional_transfer_time: Option<u32>,
    pub transfer_time_factor: Option<u32>,
    pub max_matching_distance: Option<u32>,
    pub pedestrian_profile: Option<PedestrianProfile>,
    pub use_routed_transfers: Option<bool>,
    pub transit_modes: Option<Vec<Mode>>,
    pub direct_modes: Option<Vec<Mode>>,
    pub pre_transit_modes: Option<Vec<Mode>>,
    pub post_transit_modes: Option<Vec<Mode>>,
    pub direct_rental_form_factors: Option<Vec<RentalFormFactor>>,
    pub pre_transit_rental_form_factors: Option<Vec<RentalFormFactor>>,
    pub post_transit_rental_form_factors: Option<Vec<RentalFormFactor>>,
    pub direct_rental_propulsion_types: Option<Vec<RentalPropulsionType>>,
    pub pre_transit_rental_propulsion_types: Option<Vec<RentalPropulsionType>>,
    pub post_transit_rental_propulsion_types: Option<Vec<RentalPropulsionType>>,
    pub direct_rental_providers: Option<Vec<String>>,
    pub pre_transit_rental_providers: Option<Vec<String>>,
    pub post_transit_rental_providers: Option<Vec<String>>,
    pub num_itineraries: Option<u32>,
    pub page_cursor: Option<String>,
    pub timetable_view: Option<bool>,
    pub arrive_by: Option<bool>,
    pub search_window: Option<u32>,
    pub require_bike_transport: Option<bool>,
    pub max_pre_transit_time: Option<u32>,
    pub max_post_transit_time: Option<u32>,
    pub max_direct_time: Option<u32>,
    pub timeout: Option<u32>,
    pub passengers: Option<u32>,
    pub luggage: Option<u32>,
    pub with_fares: Option<bool>,
}

impl OptimalConnectionOptions {
    /// A search from `from_place` to `to_place` with every other option
    /// left to the service.
    pub fn from_one_place_to_another(
        from_place: PlaceID,
        to_place: PlaceID,
        detailed_transfers: bool,
    ) -> (r: Self)
        ensures
            r.from_place == from_place,
            r.to_place == to_place,
            r.detailed_transfers == detailed_transfers,
            r.via is None,
            r.via_minimum_stay is None,
            r.time is None,
            r.max_transfers is None,
            r.min_transfer_time is None,
            r.additional_transfer_time is None,
            r.transfer_time_factor is None,
            r.max_matching_distance is None,
            r.pedestrian_profile is None,
            r.use_routed_transfers is None,
            r.transit_modes is None,
            r.direct_modes is None,
            r.pre_transit_modes is None,
            r.post_transit_modes is None,
            r.direct_rental_form_factors is None,
            r.pre_transit_rental_form_factors is None,
            r.post_transit_rental_form_factors is None,
            r.direct_rental_propulsion_types is None,
            r.pre_transit_rental_propulsion_types is None,
            r.post_transit_rental_propulsion_types is None,
            r.direct_rental_providers is None,
            r.pre_transit_rental_providers is None,
            r.post_transit_rental_providers is None,
            r.num_itineraries is None,
            r.page_cursor is None,
            r.timetable_view is None,
            r.arrive_by is None,
            r.search_window is None,
            r.require_bike_transport is None,
            r.max_pre_transit_time is None,
            r.max_post_transit_time is None,
            r.max_direct_time is None,
            r.timeout is None,
            r.passengers is None,
            r.luggage is None,
            r.with_fares is None,
    {
        OptimalConnectionOptions {
            from_place,
            to_place,
            detailed_transfers,
            via: None,
            via_minimum_stay: None,
            time: None,
            max_transfers: None,
            min_transfer_time: None,
            additional_transfer_time: None,
            transfer_time_factor: None,
            max_matching_distance: None,
            pedestrian_profile: None,
            use_routed_transfers: None,
            transit_modes: None,
            direct_modes: None,
            pre_transit_modes: None,
            post_transit_modes: None,
            direct_rental_form_factors: None,
            pre_transit_rental_form_factors: None,
            post_transit_rental_form_factors: None,
            direct_rental_propulsion_types: None,
            pre_transit_rental_propulsion_types: None,
            post_transit_rental_propulsion_types: None,
            direct_rental_providers: None,
            pre_transit_rental_providers: None,
            post_transit_rental_providers: None,
            num_itineraries: None,
            page_cursor: None,
            timetable_view: None,
            arrive_by: None,
            search_window: None,
            require_bike_transport: None,
            max_pre_transit_time: None,
            max_post_transit_time: None,
            max_direct_time: None,
            timeout: None,
            passengers: None,
            luggage: None,
            with_fares: None,
        }
    }

    /// List of via stops to visit.
    ///
    /// See [`Self::via_minimum_stay`] to set a minimum stay duration for each
    /// via stop.
    pub fn via(self, value: Vec<StopID>) -> (r: Self)
        ensures
            r == (OptimalConnectionOptions { via: Some(value), ..self }),
    {
        OptimalConnectionOptions { via: Some(value), ..self }
    }

    /// For each via stop a minimum stay duration in minutes.
    ///
    /// If not set, no stay is required. The value 0 allows staying in the
    /// same trip, so that a via stop does not count as a transfer.
    pub fn via_minimum_stay(self, value: Vec<u32>) -> (r: Self)
        ensures
            r == (OptimalConnectionOptions { via_minimum_stay: Some(value), ..self }),
    {
        OptimalConnectionOptions { via_minimum_stay: Some(value), ..self }
    }

    /// Departure or arrival time; the service takes the current time where
    /// none is set. See [`Self::times_refer_to_arrivals`].
    pub fn time(self, value: chrono::NaiveDateTime) -> (r: Self)
        ensures
            r == (OptimalConnectionOptions { time: Some(value), ..self }),
    {
        OptimalConnectionOptions { time: Some(value), ..self }
    }

    /// The times set by [`Self::time`] and the search window refer to
    /// arrivals.
    pub fn times_refer_to_arrivals(self) -> (r: Self)
        ensures
            r == (OptimalConnectionOptions { arrive_by: Some(true), ..self }),
    {
        OptimalConnectionOptions { arrive_by: Some(true), ..self }
    }

    /// The times set by [`Self::time`] and the search window refer to
    /// departures.
    pub fn times_refer_to_departures(self) -> (r: Self)
        ensures
            r == (OptimalConnectionOptions { arrive_by: Some(false), ..self }),
    {
        OptimalConnectionOptions { arrive_by: Some(false), ..self }
    }

}

/// Error that the routing service reports for a request it refuses.
#[derive(Debug, Clone)]
pub struct MotisError {
    pub error: String,
}

/// How the answer to a request is read, by its HTTP status.
#[derive(Debug, Clone, Copy, PartialEq, Eq)]
pub enum ReplyKind {
    /// The service refused the request (a client error): the body holds a
    /// [`MotisError`].
    RemoteError,
    /// The request failed on the server's side.
    HttpError,
    /// The body holds the answer.
    Answer,
}

/// How a reply with HTTP status `status` is read: client errors (4xx) carry
/// the service's own error, server errors (5xx) fail the request, anything
/// else is the answer.
pub fn reply_kind(status: u16) -> (r: ReplyKind)
    ensures
        400 <= status < 500 ==> r == ReplyKind::RemoteError,
        500 <= status < 600 ==> r == ReplyKind::HttpError,
        status < 400 || 600 <= status ==> r == ReplyKind::Answer,
{
    if 400 <= status && status < 500 {
        ReplyKind::RemoteError
    } else if 500 <= status && status < 600 {
        ReplyKind::HttpError
    } else {
        ReplyKind::Answer
    }
}

} // verus!
