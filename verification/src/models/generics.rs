//! Markers that record, in the type of a builder, which required fields
//! have been supplied.

use vstd::prelude::*;

verus! {

/// `length` has not been supplied yet.
#[derive(Clone, Copy, Debug)]
pub struct MissingLength;

/// `length` has been supplied.
#[derive(Clone, Copy, Debug)]
pub struct LengthExists;

/// `points` has not been supplied yet.
#[derive(Clone, Copy, Debug)]
pub struct MissingPoints;

/// `points` has been supplied.
#[derive(Clone, Copy, Debug)]
pub struct PointsExists;

/// `system_id` has not been supplied yet.
#[derive(Clone, Copy, Debug)]
pub struct MissingSystemId;

/// `system_id` has been supplied.
#[derive(Clone, Copy, Debug)]
pub struct SystemIdExists;

/// `route_short_name` has not been supplied yet.
#[derive(Clone, Copy, Debug)]
pub struct MissingRouteShortName;

/// `route_short_name` has been supplied.
#[derive(Clone, Copy, Debug)]
pub struct RouteShortNameExists;

/// `trip_id` has not been supplied yet.
#[derive(Clone, Copy, Debug)]
pub struct MissingTripId;

/// `trip_id` has been supplied.
#[derive(Clone, Copy, Debug)]
pub struct TripIdExists;

} // verus!
