//! Trip ids and names.

use super::generics::{MissingRouteShortName, MissingTripId, RouteShortNameExists, TripIdExists};
use core::marker::PhantomData;
use vstd::prelude::*;

verus! {

/// trip id and name
#[derive(Debug, Clone)]
pub struct TripInfo {
    /// trip display name
    pub route_short_name: String,
    /// trip ID (dataset trip id prefixed with the dataset tag)
    pub trip_id: String,
}

impl TripInfo {
    /// Both fields empty.
    pub open spec fn is_default(&self) -> bool {
        self.route_short_name@ == Seq::<char>::empty() && self.trip_id@ == Seq::<char>::empty()
    }

    /// Create a builder for this object.
    pub fn builder() -> (r: TripInfoBuilder<MissingRouteShortName, MissingTripId>)
        ensures
            r@.is_default(),
    {
        TripInfoBuilder {
            body: TripInfo::default(),
            _route_short_name: PhantomData,
            _trip_id: PhantomData,
        }
    }
}

impl Default for TripInfo {
    fn default() -> (r: Self)
        ensures
            r.is_default(),
    {
        TripInfo { route_short_name: String::new(), trip_id: String::new() }
    }
}

/// Builder for [`TripInfo`] object; its type records which required fields
/// have been supplied.
#[derive(Debug)]
pub struct TripInfoBuilder<RouteShortName, TripId> {
    body: TripInfo,
    _route_short_name: PhantomData<RouteShortName>,
    _trip_id: PhantomData<TripId>,
}

impl<RouteShortName, TripId> View for TripInfoBuilder<RouteShortName, TripId> {
    type V = TripInfo;

    /// The object built so far.
    closed spec fn view(&self) -> TripInfo {
        self.body
    }
}

impl<RouteShortName, TripId> TripInfoBuilder<RouteShortName, TripId> {
    /// trip display name
    pub fn route_short_name(self, value: String) -> (r: TripInfoBuilder<
        RouteShortNameExists,
        TripId,
    >)
        ensures
            r@ == (TripInfo { route_short_name: value, ..self@ }),
    {
        TripInfoBuilder {
            body: TripInfo { route_short_name: value, ..self.body },
            _route_short_name: PhantomData,
            _trip_id: PhantomData,
        }
    }

    /// trip ID (dataset trip id prefixed with the dataset tag)
    pub fn trip_id(self, value: String) -> (r: TripInfoBuilder<RouteShortName, TripIdExists>)
        ensures
            r@ == (TripInfo { trip_id: value, ..self@ }),
    {
        TripInfoBuilder {
            body: TripInfo { trip_id: value, ..self.body },
            _route_short_name: PhantomData,
            _trip_id: PhantomData,
        }
    }
}

impl From<TripInfoBuilder<RouteShortNameExists, TripIdExists>> for TripInfo {
    fn from(value: TripInfoBuilder<RouteShortNameExists, TripIdExists>) -> (r: Self)
        ensures
            r == value@,
    {
        value.body
    }
}

impl vstd::std_specs::convert::FromSpecImpl<TripInfoBuilder<RouteShortNameExists, TripIdExists>> for TripInfo {
    open spec fn obeys_from_spec() -> bool {
        true
    }

    open spec fn from_spec(v: TripInfoBuilder<RouteShortNameExists, TripIdExists>) -> Self {
        v@
    }
}

/// Converting a builder whose required fields have all been supplied gives
/// exactly the object built so far.
pub proof fn law_trip_info_from_builder_is_built_object(b: TripInfoBuilder<RouteShortNameExists, TripIdExists>)
    ensures
        <TripInfo as vstd::std_specs::convert::FromSpec<TripInfoBuilder<RouteShortNameExists, TripIdExists>>>::from_spec(b) == b@,
{
}

/// The default object, which a new builder starts from, holds nothing:
/// every optional field is empty, and the required ones are empty or zero.
pub proof fn law_default_trip_info_is_empty(r: TripInfo)
    requires
        r.is_default(),
    ensures
        r.route_short_name@ == Seq::<char>::empty(),
        r.trip_id@ == Seq::<char>::empty(),
{
}

} // verus!
