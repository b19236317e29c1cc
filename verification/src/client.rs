//! Client for the MOTIS routing API (version v4).

use crate::builder;
use crate::text::owned;
use vstd::prelude::*;

verus! {

/// Client for the MOTIS routing API.
#[derive(Debug)]
pub struct ApiClient {
    /// Base URL of the API: a scheme and a host name, and a port and a path
    /// stem where needed.
    pub baseurl: String,
    /// The HTTP client that sends the requests.
    pub client: reqwest::Client,
}

impl ApiClient {
    /// A client for the API at `baseurl` that sends its requests through
    /// `client`.
    pub fn new_with_client(baseurl: &str, client: reqwest::Client) -> (r: Self)
        ensures
            r.baseurl@ == baseurl@,
            r.client == client,
    {
        ApiClient { baseurl: owned(baseurl), client }
    }

    /// Version of the API that the client speaks.
    pub fn api_version() -> (r: &'static str)
        ensures
            r@ == "v4"@,
    {
        "v4"
    }

    /// Base URL of the API.
    pub fn baseurl(&self) -> (r: &str)
        ensures
            r@ == self.baseurl@,
    {
        self.baseurl.as_str()
    }

    /// The HTTP client that sends the requests.
    pub fn client(&self) -> (r: &reqwest::Client)
        ensures
            *r == self.client,
    {
        &self.client
    }

    /// Sends a `GET` request to `/api/v1/reverse-geocode`.
    pub fn reverse_geocode(&self) -> (r: builder::ReverseGeocode<'_>)
        ensures
            r.is_new_for(self),
    {
        builder::ReverseGeocode::new(self)
    }

    /// Sends a `GET` request to `/api/v4/trip`.
    pub fn trip(&self) -> (r: builder::Trip<'_>)
        ensures
            r.is_new_for(self),
    {
        builder::Trip::new(self)
    }

    /// Sends a `GET` request to `/api/v4/stoptimes`.
    pub fn stoptimes(&self) -> (r: builder::Stoptimes<'_>)
        ensures
            r.is_new_for(self),
    {
        builder::Stoptimes::new(self)
    }

    /// Sends a `GET` request to `/api/v1/map/initial`.
    pub fn initial(&self) -> (r: builder::Initial<'_>)
        ensures
            r.is_new_for(self),
    {
        builder::Initial::new(self)
    }

    /// Sends a `GET` request to `/api/v1/map/stops`.
    pub fn stops(&self) -> (r: builder::Stops<'_>)
        ensures
            r.is_new_for(self),
    {
        builder::Stops::new(self)
    }

    /// Sends a `GET` request to `/api/v1/map/levels`.
    pub fn levels(&self) -> (r: builder::Levels<'_>)
        ensures
            r.is_new_for(self),
    {
        builder::Levels::new(self)
    }

    /// Sends a `GET` request to `/api/debug/transfers`.
    pub fn transfers(&self) -> (r: builder::Transfers<'_>)
        ensures
            r.is_new_for(self),
    {
        builder::Transfers::new(self)
    }
}

} // verus!
