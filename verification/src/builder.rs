//! Builders of the requests that the client sends.
//!
//! Each builder collects the parameters of one operation; `params` checks
//! them and hands out what the request is made of, or the message of the
//! first parameter (in declaration order) that is missing.

use crate::client::ApiClient;
use crate::text::{concat, owned};
use crate::types::field::FieldValue;
use crate::types::{LocationType, Mode, StoptimesDirection, Timestamp};
use vstd::prelude::*;

verus! {

/// Builder for [`ApiClient::reverse_geocode`].
#[derive(Debug)]
pub struct ReverseGeocode<'a> {
    pub client: &'a ApiClient,
    pub place: Result<String, String>,
    pub type_: Result<Option<LocationType>, String>,
}

/// What a request of [`ApiClient::reverse_geocode`] is made of.
#[derive(Debug)]
pub struct ReverseGeocodeParams<'a> {
    pub client: &'a ApiClient,
    /// Where the request goes.
    pub url: String,
    pub place: String,
    pub type_: Option<LocationType>,
}

impl<'a> ReverseGeocode<'a> {
    /// Nothing has been supplied for a request through `client`: optional
    /// parameters are empty and required ones hold the message that says so.
    pub open spec fn is_new_for(&self, client: &'a ApiClient) -> bool {
        &&& self.client == client
        &&& self.place matches Err(e) && e@ == "place was not initialized"@
        &&& self.type_ == Ok::<Option<LocationType>, String>(None)
    }

    /// The message of the first parameter without a value, if any.
    pub open spec fn first_missing(&self) -> Option<String> {
        if self.place is Err {
            Some(self.place->Err_0)
        } else if self.type_ is Err {
            Some(self.type_->Err_0)
        } else {
            None
        }
    }

    pub fn new(client: &'a ApiClient) -> (r: Self)
        ensures
            r.is_new_for(client),
    {
        ReverseGeocode {
            client: client,
            place: Err(owned("place was not initialized")),
            type_: Ok(None),
        }
    }

    pub fn place(self, value: String) -> (r: Self)
        ensures
            r == (ReverseGeocode { place: Ok(value), ..self }),
    {
        ReverseGeocode { place: Ok(value), ..self }
    }

    pub fn type_<T: FieldValue<LocationType>>(self, value: T) -> (r: Self)
        ensures
            r == (ReverseGeocode { type_: r.type_, ..self }),
            match value.converted() {
                Ok(v) => r.type_ == Ok::<Option<LocationType>, String>(Some(v)),
                Err(_) => r.type_ matches Err(e) && e@ == "conversion to `LocationType` for type_ failed"@,
            },
    {
        let converted = match value.convert() {
            Ok(v) => Ok(Some(v)),
            Err(_) => Err(owned("conversion to `LocationType` for type_ failed")),
        };
        ReverseGeocode { type_: converted, ..self }
    }

    /// Checks the parameters of the request. The request is a `GET` request to `/api/v1/reverse-geocode`.
    pub fn params(self) -> (r: Result<ReverseGeocodeParams<'a>, String>)
        ensures
            match r {
                Err(e) => self.first_missing() == Some(e),
                Ok(p) => {
                    &&& self.first_missing() is None
                    &&& p.client == self.client
                    &&& p.url@ == self.client.baseurl@ + "/api/v1/reverse-geocode"@
                    &&& p.place == self.place->Ok_0
                    &&& p.type_ == self.type_->Ok_0
                },
            },
    {
        let ReverseGeocode { client, place, type_ } = self;
        let place = match place {
            Ok(v) => v,
            Err(e) => return Err(e),
        };
        let type_ = match type_ {
            Ok(v) => v,
            Err(e) => return Err(e),
        };
        let url = concat(client.baseurl.as_str(), "/api/v1/reverse-geocode");
        Ok(ReverseGeocodeParams { client, url, place, type_ })
    }
}

/// Builder for [`ApiClient::trip`].
#[derive(Debug)]
pub struct Trip<'a> {
    pub client: &'a ApiClient,
    pub join_interlined_legs: Result<Option<bool>, String>,
    pub language: Result<Option<String>, String>,
    pub trip_id: Result<String, String>,
    pub with_scheduled_skipped_stops: Result<Option<bool>, String>,
}

/// What a request of [`ApiClient::trip`] is made of.
#[derive(Debug)]
pub struct TripParams<'a> {
    pub client: &'a ApiClient,
    /// Where the request goes.
    pub url: String,
    pub join_interlined_legs: Option<bool>,
    pub language: Option<String>,
    pub trip_id: String,
    pub with_scheduled_skipped_stops: Option<bool>,
}

impl<'a> Trip<'a> {
    /// Nothing has been supplied for a request through `client`: optional
    /// parameters are empty and required ones hold the message that says so.
    pub open spec fn is_new_for(&self, client: &'a ApiClient) -> bool {
        &&& self.client == client
        &&& self.join_interlined_legs == Ok::<Option<bool>, String>(None)
        &&& self.language == Ok::<Option<String>, String>(None)
        &&& self.trip_id matches Err(e) && e@ == "trip_id was not initialized"@
        &&& self.with_scheduled_skipped_stops == Ok::<Option<bool>, String>(None)
    }

    /// The message of the first parameter without a value, if any.
    pub open spec fn first_missing(&self) -> Option<String> {
        if self.join_interlined_legs is Err {
            Some(self.join_interlined_legs->Err_0)
        } else if self.language is Err {
            Some(self.language->Err_0)
        } else if self.trip_id is Err {
            Some(self.trip_id->Err_0)
        } else if self.with_scheduled_skipped_stops is Err {
            Some(self.with_scheduled_skipped_stops->Err_0)
        } else {
            None
        }
    }

    pub fn new(client: &'a ApiClient) -> (r: Self)
        ensures
            r.is_new_for(client),
    {
        Trip {
            client: client,
            join_interlined_legs: Ok(None),
            language: Ok(None),
            trip_id: Err(owned("trip_id was not initialized")),
            with_scheduled_skipped_stops: Ok(None),
        }
    }

    pub fn join_interlined_legs(self, value: bool) -> (r: Self)
        ensures
            r == (Trip { join_interlined_legs: Ok(Some(value)), ..self }),
    {
        Trip { join_interlined_legs: Ok(Some(value)), ..self }
    }

    pub fn language(self, value: String) -> (r: Self)
        ensures
            r == (Trip { language: Ok(Some(value)), ..self }),
    {
        Trip { language: Ok(Some(value)), ..self }
    }

    pub fn trip_id(self, value: String) -> (r: Self)
        ensures
            r == (Trip { trip_id: Ok(value), ..self }),
    {
        Trip { trip_id: Ok(value), ..self }
    }

    pub fn with_scheduled_skipped_stops(self, value: bool) -> (r: Self)
        ensures
            r == (Trip { with_scheduled_skipped_stops: Ok(Some(value)), ..self }),
    {
        Trip { with_scheduled_skipped_stops: Ok(Some(value)), ..self }
    }

    /// Checks the parameters of the request. The request is a `GET` request to `/api/v4/trip`.
    pub fn params(self) -> (r: Result<TripParams<'a>, String>)
        ensures
            match r {
                Err(e) => self.first_missing() == Some(e),
                Ok(p) => {
                    &&& self.first_missing() is None
                    &&& p.client == self.client
                    &&& p.url@ == self.client.baseurl@ + "/api/v4/trip"@
                    &&& p.join_interlined_legs == self.join_interlined_legs->Ok_0
                    &&& p.language == self.language->Ok_0
                    &&& p.trip_id == self.trip_id->Ok_0
                    &&& p.with_scheduled_skipped_stops == self.with_scheduled_skipped_stops->Ok_0
                },
            },
    {
        let Trip { client, join_interlined_legs, language, trip_id, with_scheduled_skipped_stops } = self;
        let join_interlined_legs = match join_interlined_legs {
            Ok(v) => v,
            Err(e) => return Err(e),
        };
        let language = match language {
            Ok(v) => v,
            Err(e) => return Err(e),
        };
        let trip_id = match trip_id {
            Ok(v) => v,
            Err(e) => return Err(e),
        };
        let with_scheduled_skipped_stops = match with_scheduled_skipped_stops {
            Ok(v) => v,
            Err(e) => return Err(e),
        };
        let url = concat(client.baseurl.as_str(), "/api/v4/trip");
        Ok(TripParams { client, url, join_interlined_legs, language, trip_id, with_scheduled_skipped_stops })
    }
}

/// Builder for [`ApiClient::stoptimes`].
#[derive(Debug)]
pub struct Stoptimes<'a> {
    pub client: &'a ApiClient,
    pub arrive_by: Result<Option<bool>, String>,
    pub direction: Result<Option<StoptimesDirection>, String>,
    pub exact_radius: Result<Option<bool>, String>,
    pub fetch_stops: Result<Option<bool>, String>,
    pub language: Result<Option<String>, String>,
    pub mode: Result<Option<Vec<Mode>>, String>,
    pub n: Result<i64, String>,
    pub page_cursor: Result<Option<String>, String>,
    pub radius: Result<Option<i64>, String>,
    pub stop_id: Result<String, String>,
    pub time: Result<Option<Timestamp>, String>,
    pub with_scheduled_skipped_stops: Result<Option<bool>, String>,
}

/// What a request of [`ApiClient::stoptimes`] is made of.
#[derive(Debug)]
pub struct StoptimesParams<'a> {
    pub client: &'a ApiClient,
    /// Where the request goes.
    pub url: String,
    pub arrive_by: Option<bool>,
    pub direction: Option<StoptimesDirection>,
    pub exact_radius: Option<bool>,
    pub fetch_stops: Option<bool>,
    pub language: Option<String>,
    pub mode: Option<Vec<Mode>>,
    pub n: i64,
    pub page_cursor: Option<String>,
    pub radius: Option<i64>,
    pub stop_id: String,
    pub time: Option<Timestamp>,
    pub with_scheduled_skipped_stops: Option<bool>,
}

impl<'a> Stoptimes<'a> {
    /// Nothing has been supplied for a request through `client`: optional
    /// parameters are empty and required ones hold the message that says so.
    pub open spec fn is_new_for(&self, client: &'a ApiClient) -> bool {
        &&& self.client == client
        &&& self.arrive_by == Ok::<Option<bool>, String>(None)
        &&& self.direction == Ok::<Option<StoptimesDirection>, String>(None)
        &&& self.exact_radius == Ok::<Option<bool>, String>(None)
        &&& self.fetch_stops == Ok::<Option<bool>, String>(None)
        &&& self.language == Ok::<Option<String>, String>(None)
        &&& self.mode == Ok::<Option<Vec<Mode>>, String>(None)
        &&& self.n matches Err(e) && e@ == "n was not initialized"@
        &&& self.page_cursor == Ok::<Option<String>, String>(None)
        &&& self.radius == Ok::<Option<i64>, String>(None)
        &&& self.stop_id matches Err(e) && e@ == "stop_id was not initialized"@
        &&& self.time == Ok::<Option<Timestamp>, String>(None)
        &&& self.with_scheduled_skipped_stops == Ok::<Option<bool>, String>(None)
    }

    /// The message of the first parameter without a value, if any.
    pub open spec fn first_missing(&self) -> Option<String> {
        if self.arrive_by is Err {
            Some(self.arrive_by->Err_0)
        } else if self.direction is Err {
            Some(self.direction->Err_0)
        } else if self.exact_radius is Err {
            Some(self.exact_radius->Err_0)
        } else if self.fetch_stops is Err {
            Some(self.fetch_stops->Err_0)
        } else if self.language is Err {
            Some(self.language->Err_0)
        } else if self.mode is Err {
            Some(self.mode->Err_0)
        } else if self.n is Err {
            Some(self.n->Err_0)
        } else if self.page_cursor is Err {
            Some(self.page_cursor->Err_0)
        } else if self.radius is Err {
            Some(self.radius->Err_0)
        } else if self.stop_id is Err {
            Some(self.stop_id->Err_0)
        } else if self.time is Err {
            Some(self.time->Err_0)
        } else if self.with_scheduled_skipped_stops is Err {
            Some(self.with_scheduled_skipped_stops->Err_0)
        } else {
            None
        }
    }

    pub fn new(client: &'a ApiClient) -> (r: Self)
        ensures
            r.is_new_for(client),
    {
        Stoptimes {
            client: client,
            arrive_by: Ok(None),
            direction: Ok(None),
            exact_radius: Ok(None),
            fetch_stops: Ok(None),
            language: Ok(None),
            mode: Ok(None),
            n: Err(owned("n was not initialized")),
            page_cursor: Ok(None),
            radius: Ok(None),
            stop_id: Err(owned("stop_id was not initialized")),
            time: Ok(None),
            with_scheduled_skipped_stops: Ok(None),
        }
    }

    pub fn arrive_by(self, value: bool) -> (r: Self)
        ensures
            r == (Stoptimes { arrive_by: Ok(Some(value)), ..self }),
    {
        Stoptimes { arrive_by: Ok(Some(value)), ..self }
    }

    pub fn direction<T: FieldValue<StoptimesDirection>>(self, value: T) -> (r: Self)
        ensures
            r == (Stoptimes { direction: r.direction, ..self }),
            match value.converted() {
                Ok(v) => r.direction == Ok::<Option<StoptimesDirection>, String>(Some(v)),
                Err(_) => r.direction matches Err(e) && e@ == "conversion to `StoptimesDirection` for direction failed"@,
            },
    {
        let converted = match value.convert() {
            Ok(v) => Ok(Some(v)),
            Err(_) => Err(owned("conversion to `StoptimesDirection` for direction failed")),
        };
        Stoptimes { direction: converted, ..self }
    }

    pub fn exact_radius(self, value: bool) -> (r: Self)
        ensures
            r == (Stoptimes { exact_radius: Ok(Some(value)), ..self }),
    {
        Stoptimes { exact_radius: Ok(Some(value)), ..self }
    }

    pub fn fetch_stops(self, value: bool) -> (r: Self)
        ensures
            r == (Stoptimes { fetch_stops: Ok(Some(value)), ..self }),
    {
        Stoptimes { fetch_stops: Ok(Some(value)), ..self }
    }

    pub fn language(self, value: String) -> (r: Self)
        ensures
            r == (Stoptimes { language: Ok(Some(value)), ..self }),
    {
        Stoptimes { language: Ok(Some(value)), ..self }
    }

    pub fn mode(self, value: Vec<Mode>) -> (r: Self)
        ensures
            r == (Stoptimes { mode: Ok(Some(value)), ..self }),
    {
        Stoptimes { mode: Ok(Some(value)), ..self }
    }

    pub fn n<T: FieldValue<i64>>(self, value: T) -> (r: Self)
        ensures
            r == (Stoptimes { n: r.n, ..self }),
            match value.converted() {
                Ok(v) => r.n == Ok::<i64, String>(v),
                Err(_) => r.n matches Err(e) && e@ == "conversion to `i64` for n failed"@,
            },
    {
        let converted = match value.convert() {
            Ok(v) => Ok(v),
            Err(_) => Err(owned("conversion to `i64` for n failed")),
        };
        Stoptimes { n: converted, ..self }
    }

    pub fn page_cursor(self, value: String) -> (r: Self)
        ensures
            r == (Stoptimes { page_cursor: Ok(Some(value)), ..self }),
    {
        Stoptimes { page_cursor: Ok(Some(value)), ..self }
    }

    pub fn radius<T: FieldValue<i64>>(self, value: T) -> (r: Self)
        ensures
            r == (Stoptimes { radius: r.radius, ..self }),
            match value.converted() {
                Ok(v) => r.radius == Ok::<Option<i64>, String>(Some(v)),
                Err(_) => r.radius matches Err(e) && e@ == "conversion to `i64` for radius failed"@,
            },
    {
        let converted = match value.convert() {
            Ok(v) => Ok(Some(v)),
            Err(_) => Err(owned("conversion to `i64` for radius failed")),
        };
        Stoptimes { radius: converted, ..self }
    }

    pub fn stop_id(self, value: String) -> (r: Self)
        ensures
            r == (Stoptimes { stop_id: Ok(value), ..self }),
    {
        Stoptimes { stop_id: Ok(value), ..self }
    }

    pub fn time(self, value: Timestamp) -> (r: Self)
        ensures
            r == (Stoptimes { time: Ok(Some(value)), ..self }),
    {
        Stoptimes { time: Ok(Some(value)), ..self }
    }

    pub fn with_scheduled_skipped_stops(self, value: bool) -> (r: Self)
        ensures
            r == (Stoptimes { with_scheduled_skipped_stops: Ok(Some(value)), ..self }),
    {
        Stoptimes { with_scheduled_skipped_stops: Ok(Some(value)), ..self }
    }

    /// Checks the parameters of the request. The request is a `GET` request to `/api/v4/stoptimes`.
    pub fn params(self) -> (r: Result<StoptimesParams<'a>, String>)
        ensures
            match r {
                Err(e) => self.first_missing() == Some(e),
                Ok(p) => {
                    &&& self.first_missing() is None
                    &&& p.client == self.client
                    &&& p.url@ == self.client.baseurl@ + "/api/v4/stoptimes"@
                    &&& p.arrive_by == self.arrive_by->Ok_0
                    &&& p.direction == self.direction->Ok_0
                    &&& p.exact_radius == self.exact_radius->Ok_0
                    &&& p.fetch_stops == self.fetch_stops->Ok_0
                    &&& p.language == self.language->Ok_0
                    &&& p.mode == self.mode->Ok_0
                    &&& p.n == self.n->Ok_0
                    &&& p.page_cursor == self.page_cursor->Ok_0
                    &&& p.radius == self.radius->Ok_0
                    &&& p.stop_id == self.stop_id->Ok_0
                    &&& p.time == self.time->Ok_0
                    &&& p.with_scheduled_skipped_stops == self.with_scheduled_skipped_stops->Ok_0
                },
            },
    {
        let Stoptimes { client, arrive_by, direction, exact_radius, fetch_stops, language, mode, n, page_cursor, radius, stop_id, time, with_scheduled_skipped_stops } = self;
        let arrive_by = match arrive_by {
            Ok(v) => v,
            Err(e) => return Err(e),
        };
        let direction = match direction {
            Ok(v) => v,
            Err(e) => return Err(e),
        };
        let exact_radius = match exact_radius {
            Ok(v) => v,
            Err(e) => return Err(e),
        };
        let fetch_stops = match fetch_stops {
            Ok(v) => v,
            Err(e) => return Err(e),
        };
        let language = match language {
            Ok(v) => v,
            Err(e) => return Err(e),
        };
        let mode = match mode {
            Ok(v) => v,
            Err(e) => return Err(e),
        };
        let n = match n {
            Ok(v) => v,
            Err(e) => return Err(e),
        };
        let page_cursor = match page_cursor {
            Ok(v) => v,
            Err(e) => return Err(e),
        };
        let radius = match radius {
            Ok(v) => v,
            Err(e) => return Err(e),
        };
        let stop_id = match stop_id {
            Ok(v) => v,
            Err(e) => return Err(e),
        };
        let time = match time {
            Ok(v) => v,
            Err(e) => return Err(e),
        };
        let with_scheduled_skipped_stops = match with_scheduled_skipped_stops {
            Ok(v) => v,
            Err(e) => return Err(e),
        };
        let url = concat(client.baseurl.as_str(), "/api/v4/stoptimes");
        Ok(StoptimesParams { client, url, arrive_by, direction, exact_radius, fetch_stops, language, mode, n, page_cursor, radius, stop_id, time, with_scheduled_skipped_stops })
    }
}

/// Builder for [`ApiClient::initial`].
#[derive(Debug)]
pub struct Initial<'a> {
    pub client: &'a ApiClient,
}

/// What a request of [`ApiClient::initial`] is made of.
#[derive(Debug)]
pub struct InitialParams<'a> {
    pub client: &'a ApiClient,
    /// Where the request goes.
    pub url: String,
}

impl<'a> Initial<'a> {
    /// Nothing has been supplied for a request through `client`: optional
    /// parameters are empty and required ones hold the message that says so.
    pub open spec fn is_new_for(&self, client: &'a ApiClient) -> bool {
        &&& self.client == client
    }

    /// The message of the first parameter without a value, if any.
    pub open spec fn first_missing(&self) -> Option<String> {
        None
    }

    pub fn new(client: &'a ApiClient) -> (r: Self)
        ensures
            r.is_new_for(client),
    {
        Initial {
            client: client,
        }
    }

    /// Checks the parameters of the request. The request is a `GET` request to `/api/v1/map/initial`.
    pub fn params(self) -> (r: Result<InitialParams<'a>, String>)
        ensures
            match r {
                Err(e) => self.first_missing() == Some(e),
                Ok(p) => {
                    &&& self.first_missing() is None
                    &&& p.client == self.client
                    &&& p.url@ == self.client.baseurl@ + "/api/v1/map/initial"@
                },
            },
    {
        let Initial { client } = self;
        let url = concat(client.baseurl.as_str(), "/api/v1/map/initial");
        Ok(InitialParams { client, url })
    }
}

/// Builder for [`ApiClient::stops`].
#[derive(Debug)]
pub struct Stops<'a> {
    pub client: &'a ApiClient,
    pub max: Result<String, String>,
    pub min: Result<String, String>,
}

/// What a request of [`ApiClient::stops`] is made of.
#[derive(Debug)]
pub struct StopsParams<'a> {
    pub client: &'a ApiClient,
    /// Where the request goes.
    pub url: String,
    pub max: String,
    pub min: String,
}

impl<'a> Stops<'a> {
    /// Nothing has been supplied for a request through `client`: optional
    /// parameters are empty and required ones hold the message that says so.
    pub open spec fn is_new_for(&self, client: &'a ApiClient) -> bool {
        &&& self.client == client
        &&& self.max matches Err(e) && e@ == "max was not initialized"@
        &&& self.min matches Err(e) && e@ == "min was not initialized"@
    }

    /// The message of the first parameter without a value, if any.
    pub open spec fn first_missing(&self) -> Option<String> {
        if self.max is Err {
            Some(self.max->Err_0)
        } else if self.min is Err {
            Some(self.min->Err_0)
        } else {
            None
        }
    }

    pub fn new(client: &'a ApiClient) -> (r: Self)
        ensures
            r.is_new_for(client),
    {
        Stops {
            client: client,
            max: Err(owned("max was not initialized")),
            min: Err(owned("min was not initialized")),
        }
    }

    pub fn max(self, value: String) -> (r: Self)
        ensures
            r == (Stops { max: Ok(value), ..self }),
    {
        Stops { max: Ok(value), ..self }
    }

    pub fn min(self, value: String) -> (r: Self)
        ensures
            r == (Stops { min: Ok(value), ..self }),
    {
        Stops { min: Ok(value), ..self }
    }

    /// Checks the parameters of the request. The request is a `GET` request to `/api/v1/map/stops`.
    pub fn params(self) -> (r: Result<StopsParams<'a>, String>)
        ensures
            match r {
                Err(e) => self.first_missing() == Some(e),
                Ok(p) => {
                    &&& self.first_missing() is None
                    &&& p.client == self.client
                    &&& p.url@ == self.client.baseurl@ + "/api/v1/map/stops"@
                    &&& p.max == self.max->Ok_0
                    &&& p.min == self.min->Ok_0
                },
            },
    {
        let Stops { client, max, min } = self;
        let max = match max {
            Ok(v) => v,
            Err(e) => return Err(e),
        };
        let min = match min {
            Ok(v) => v,
            Err(e) => return Err(e),
        };
        let url = concat(client.baseurl.as_str(), "/api/v1/map/stops");
        Ok(StopsParams { client, url, max, min })
    }
}

/// Builder for [`ApiClient::levels`].
#[derive(Debug)]
pub struct Levels<'a> {
    pub client: &'a ApiClient,
    pub max: Result<String, String>,
    pub min: Result<String, String>,
}

/// What a request of [`ApiClient::levels`] is made of.
#[derive(Debug)]
pub struct LevelsParams<'a> {
    pub client: &'a ApiClient,
    /// Where the request goes.
    pub url: String,
    pub max: String,
    pub min: String,
}

impl<'a> Levels<'a> {
    /// Nothing has been supplied for a request through `client`: optional
    /// parameters are empty and required ones hold the message that says so.
    pub open spec fn is_new_for(&self, client: &'a ApiClient) -> bool {
        &&& self.client == client
        &&& self.max matches Err(e) && e@ == "max was not initialized"@
        &&& self.min matches Err(e) && e@ == "min was not initialized"@
    }

    /// The message of the first parameter without a value, if any.
    pub open spec fn first_missing(&self) -> Option<String> {
        if self.max is Err {
            Some(self.max->Err_0)
        } else if self.min is Err {
            Some(self.min->Err_0)
        } else {
            None
        }
    }

    pub fn new(client: &'a ApiClient) -> (r: Self)
        ensures
            r.is_new_for(client),
    {
        Levels {
            client: client,
            max: Err(owned("max was not initialized")),
            min: Err(owned("min was not initialized")),
        }
    }

    pub fn max(self, value: String) -> (r: Self)
        ensures
            r == (Levels { max: Ok(value), ..self }),
    {
        Levels { max: Ok(value), ..self }
    }

    pub fn min(self, value: String) -> (r: Self)
        ensures
            r == (Levels { min: Ok(value), ..self }),
    {
        Levels { min: Ok(value), ..self }
    }

    /// Checks the parameters of the request. The request is a `GET` request to `/api/v1/map/levels`.
    pub fn params(self) -> (r: Result<LevelsParams<'a>, String>)
        ensures
            match r {
                Err(e) => self.first_missing() == Some(e),
                Ok(p) => {
                    &&& self.first_missing() is None
                    &&& p.client == self.client
                    &&& p.url@ == self.client.baseurl@ + "/api/v1/map/levels"@
                    &&& p.max == self.max->Ok_0
                    &&& p.min == self.min->Ok_0
                },
            },
    {
        let Levels { client, max, min } = self;
        let max = match max {
            Ok(v) => v,
            Err(e) => return Err(e),
        };
        let min = match min {
            Ok(v) => v,
            Err(e) => return Err(e),
        };
        let url = concat(client.baseurl.as_str(), "/api/v1/map/levels");
        Ok(LevelsParams { client, url, max, min })
    }
}

/// Builder for [`ApiClient::transfers`].
#[derive(Debug)]
pub struct Transfers<'a> {
    pub client: &'a ApiClient,
    pub id: Result<String, String>,
}

/// What a request of [`ApiClient::transfers`] is made of.
#[derive(Debug)]
pub struct TransfersParams<'a> {
    pub client: &'a ApiClient,
    /// Where the request goes.
    pub url: String,
    pub id: String,
}

impl<'a> Transfers<'a> {
    /// Nothing has been supplied for a request through `client`: optional
    /// parameters are empty and required ones hold the message that says so.
    pub open spec fn is_new_for(&self, client: &'a ApiClient) -> bool {
        &&& self.client == client
        &&& self.id matches Err(e) && e@ == "id was not initialized"@
    }

    /// The message of the first parameter without a value, if any.
    pub open spec fn first_missing(&self) -> Option<String> {
        if self.id is Err {
            Some(self.id->Err_0)
        } else {
            None
        }
    }

    pub fn new(client: &'a ApiClient) -> (r: Self)
        ensures
            r.is_new_for(client),
    {
        Transfers {
            client: client,
            id: Err(owned("id was not initialized")),
        }
    }

    pub fn id(self, value: String) -> (r: Self)
        ensures
            r == (Transfers { id: Ok(value), ..self }),
    {
        Transfers { id: Ok(value), ..self }
    }

    /// Checks the parameters of the request. The request is a `GET` request to `/api/debug/transfers`.
    pub fn params(self) -> (r: Result<TransfersParams<'a>, String>)
        ensures
            match r {
                Err(e) => self.first_missing() == Some(e),
                Ok(p) => {
                    &&& self.first_missing() is None
                    &&& p.client == self.client
                    &&& p.url@ == self.client.baseurl@ + "/api/debug/transfers"@
                    &&& p.id == self.id->Ok_0
                },
            },
    {
        let Transfers { client, id } = self;
        let id = match id {
            Ok(v) => v,
            Err(e) => return Err(e),
        };
        let url = concat(client.baseurl.as_str(), "/api/debug/transfers");
        Ok(TransfersParams { client, url, id })
    }
}

/// A new [`ReverseGeocode`] request leaves every optional parameter unset, and each
/// required parameter holds the message that it was not initialized.
pub proof fn law_new_reverse_geocode_request<'a>(b: ReverseGeocode<'a>, client: &'a ApiClient)
    requires
        b.is_new_for(client),
    ensures
        b.client == client,
        b.place matches Err(e) && e@ == "place was not initialized"@,
        b.type_ == Ok::<Option<LocationType>, String>(None),
{
}

/// The parameter that a [`ReverseGeocode`] request reports as missing is the first one
/// without a value, in declaration order; with all of them it reports none.
pub proof fn law_reverse_geocode_first_missing<'a>(b: ReverseGeocode<'a>)
    ensures
        b.place is Err ==> b.first_missing() == Some(b.place->Err_0),
        b.place is Ok && b.type_ is Err ==> b.first_missing() == Some(b.type_->Err_0),
        b.place is Ok && b.type_ is Ok ==> b.first_missing() is None,
{
}

/// A new [`Trip`] request leaves every optional parameter unset, and each
/// required parameter holds the message that it was not initialized.
pub proof fn law_new_trip_request<'a>(b: Trip<'a>, client: &'a ApiClient)
    requires
        b.is_new_for(client),
    ensures
        b.client == client,
        b.join_interlined_legs == Ok::<Option<bool>, String>(None),
        b.language == Ok::<Option<String>, String>(None),
        b.trip_id matches Err(e) && e@ == "trip_id was not initialized"@,
        b.with_scheduled_skipped_stops == Ok::<Option<bool>, String>(None),
{
}

/// The parameter that a [`Trip`] request reports as missing is the first one
/// without a value, in declaration order; with all of them it reports none.
pub proof fn law_trip_first_missing<'a>(b: Trip<'a>)
    ensures
        b.join_interlined_legs is Err ==> b.first_missing() == Some(b.join_interlined_legs->Err_0),
        b.join_interlined_legs is Ok && b.language is Err ==> b.first_missing() == Some(b.language->Err_0),
        b.join_interlined_legs is Ok && b.language is Ok && b.trip_id is Err ==> b.first_missing() == Some(b.trip_id->Err_0),
        b.join_interlined_legs is Ok && b.language is Ok && b.trip_id is Ok && b.with_scheduled_skipped_stops is Err ==> b.first_missing() == Some(b.with_scheduled_skipped_stops->Err_0),
        b.join_interlined_legs is Ok && b.language is Ok && b.trip_id is Ok && b.with_scheduled_skipped_stops is Ok ==> b.first_missing() is None,
{
}

/// A new [`Stoptimes`] request leaves every optional parameter unset, and each
/// required parameter holds the message that it was not initialized.
pub proof fn law_new_stoptimes_request<'a>(b: Stoptimes<'a>, client: &'a ApiClient)
    requires
        b.is_new_for(client),
    ensures
        b.client == client,
        b.arrive_by == Ok::<Option<bool>, String>(None),
        b.direction == Ok::<Option<StoptimesDirection>, String>(None),
        b.exact_radius == Ok::<Option<bool>, String>(None),
        b.fetch_stops == Ok::<Option<bool>, String>(None),
        b.language == Ok::<Option<String>, String>(None),
        b.mode == Ok::<Option<Vec<Mode>>, String>(None),
        b.n matches Err(e) && e@ == "n was not initialized"@,
        b.page_cursor == Ok::<Option<String>, String>(None),
        b.radius == Ok::<Option<i64>, String>(None),
        b.stop_id matches Err(e) && e@ == "stop_id was not initialized"@,
        b.time == Ok::<Option<Timestamp>, String>(None),
        b.with_scheduled_skipped_stops == Ok::<Option<bool>, String>(None),
{
}

/// The parameter that a [`Stoptimes`] request reports as missing is the first one
/// without a value, in declaration order; with all of them it reports none.
pub proof fn law_stoptimes_first_missing<'a>(b: Stoptimes<'a>)
    ensures
        b.arrive_by is Err ==> b.first_missing() == Some(b.arrive_by->Err_0),
        b.arrive_by is Ok && b.direction is Err ==> b.first_missing() == Some(b.direction->Err_0),
        b.arrive_by is Ok && b.direction is Ok && b.exact_radius is Err ==> b.first_missing() == Some(b.exact_radius->Err_0),
        b.arrive_by is Ok && b.direction is Ok && b.exact_radius is Ok && b.fetch_stops is Err ==> b.first_missing() == Some(b.fetch_stops->Err_0),
        b.arrive_by is Ok && b.direction is Ok && b.exact_radius is Ok && b.fetch_stops is Ok && b.language is Err ==> b.first_missing() == Some(b.language->Err_0),
        b.arrive_by is Ok && b.direction is Ok && b.exact_radius is Ok && b.fetch_stops is Ok && b.language is Ok && b.mode is Err ==> b.first_missing() == Some(b.mode->Err_0),
        b.arrive_by is Ok && b.direction is Ok && b.exact_radius is Ok && b.fetch_stops is Ok && b.language is Ok && b.mode is Ok && b.n is Err ==> b.first_missing() == Some(b.n->Err_0),
        b.arrive_by is Ok && b.direction is Ok && b.exact_radius is Ok && b.fetch_stops is Ok && b.language is Ok && b.mode is Ok && b.n is Ok && b.page_cursor is Err ==> b.first_missing() == Some(b.page_cursor->Err_0),
        b.arrive_by is Ok && b.direction is Ok && b.exact_radius is Ok && b.fetch_stops is Ok && b.language is Ok && b.mode is Ok && b.n is Ok && b.page_cursor is Ok && b.radius is Err ==> b.first_missing() == Some(b.radius->Err_0),
        b.arrive_by is Ok && b.direction is Ok && b.exact_radius is Ok && b.fetch_stops is Ok && b.language is Ok && b.mode is Ok && b.n is Ok && b.page_cursor is Ok && b.radius is Ok && b.stop_id is Err ==> b.first_missing() == Some(b.stop_id->Err_0),
        b.arrive_by is Ok && b.direction is Ok && b.exact_radius is Ok && b.fetch_stops is Ok && b.language is Ok && b.mode is Ok && b.n is Ok && b.page_cursor is Ok && b.radius is Ok && b.stop_id is Ok && b.time is Err ==> b.first_missing() == Some(b.time->Err_0),
        b.arrive_by is Ok && b.direction is Ok && b.exact_radius is Ok && b.fetch_stops is Ok && b.language is Ok && b.mode is Ok && b.n is Ok && b.page_cursor is Ok && b.radius is Ok && b.stop_id is Ok && b.time is Ok && b.with_scheduled_skipped_stops is Err ==> b.first_missing() == Some(b.with_scheduled_skipped_stops->Err_0),
        b.arrive_by is Ok && b.direction is Ok && b.exact_radius is Ok && b.fetch_stops is Ok && b.language is Ok && b.mode is Ok && b.n is Ok && b.page_cursor is Ok && b.radius is Ok && b.stop_id is Ok && b.time is Ok && b.with_scheduled_skipped_stops is Ok ==> b.first_missing() is None,
{
}

/// A new [`Initial`] request leaves every optional parameter unset, and each
/// required parameter holds the message that it was not initialized.
pub proof fn law_new_initial_request<'a>(b: Initial<'a>, client: &'a ApiClient)
    requires
        b.is_new_for(client),
    ensures
        b.client == client,

{
}

/// The parameter that a [`Initial`] request reports as missing is the first one
/// without a value, in declaration order; with all of them it reports none.
pub proof fn law_initial_first_missing<'a>(b: Initial<'a>)
    ensures
        b.first_missing() is None,
{
}

/// A new [`Stops`] request leaves every optional parameter unset, and each
/// required parameter holds the message that it was not initialized.
pub proof fn law_new_stops_request<'a>(b: Stops<'a>, client: &'a ApiClient)
    requires
        b.is_new_for(client),
    ensures
        b.client == client,
        b.max matches Err(e) && e@ == "max was not initialized"@,
        b.min matches Err(e) && e@ == "min was not initialized"@,
{
}

/// The parameter that a [`Stops`] request reports as missing is the first one
/// without a value, in declaration order; with all of them it reports none.
pub proof fn law_stops_first_missing<'a>(b: Stops<'a>)
    ensures
        b.max is Err ==> b.first_missing() == Some(b.max->Err_0),
        b.max is Ok && b.min is Err ==> b.first_missing() == Some(b.min->Err_0),
        b.max is Ok && b.min is Ok ==> b.first_missing() is None,
{
}

/// A new [`Levels`] request leaves every optional parameter unset, and each
/// required parameter holds the message that it was not initialized.
pub proof fn law_new_levels_request<'a>(b: Levels<'a>, client: &'a ApiClient)
    requires
        b.is_new_for(client),
    ensures
        b.client == client,
        b.max matches Err(e) && e@ == "max was not initialized"@,
        b.min matches Err(e) && e@ == "min was not initialized"@,
{
}

/// The parameter that a [`Levels`] request reports as missing is the first one
/// without a value, in declaration order; with all of them it reports none.
pub proof fn law_levels_first_missing<'a>(b: Levels<'a>)
    ensures
        b.max is Err ==> b.first_missing() == Some(b.max->Err_0),
        b.max is Ok && b.min is Err ==> b.first_missing() == Some(b.min->Err_0),
        b.max is Ok && b.min is Ok ==> b.first_missing() is None,
{
}

/// A new [`Transfers`] request leaves every optional parameter unset, and each
/// required parameter holds the message that it was not initialized.
pub proof fn law_new_transfers_request<'a>(b: Transfers<'a>, client: &'a ApiClient)
    requires
        b.is_new_for(client),
    ensures
        b.client == client,
        b.id matches Err(e) && e@ == "id was not initialized"@,
{
}

/// The parameter that a [`Transfers`] request reports as missing is the first one
/// without a value, in declaration order; with all of them it reports none.
pub proof fn law_transfers_first_missing<'a>(b: Transfers<'a>)
    ensures
        b.id is Err ==> b.first_missing() == Some(b.id->Err_0),
        b.id is Ok ==> b.first_missing() is None,
{
}

} // verus!
