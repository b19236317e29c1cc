//! Enumerations of the routing models.

use vstd::prelude::*;

verus! {

/// location type
#[derive(Clone, Copy, Debug, PartialEq, Eq)]
pub enum MatchType {
    Address,
    Place,
    Stop,
}

impl Default for MatchType {
    fn default() -> (r: Self)
        ensures
            r == MatchType::Address,
    {
        MatchType::Address
    }
}

/// Different accessibility profiles for pedestrians.
#[derive(Clone, Copy, Debug, PartialEq, Eq)]
pub enum PedestrianProfile {
    Foot,
    Wheelchair,
}

impl Default for PedestrianProfile {
    fn default() -> (r: Self)
        ensures
            r == PedestrianProfile::Foot,
    {
        PedestrianProfile::Foot
    }
}

/// - `NORMAL` - latitude / longitude coordinate or address
/// - `BIKESHARE` - bike sharing station
/// - `TRANSIT` - transit stop
#[derive(Clone, Copy, Debug, PartialEq, Eq)]
pub enum VertexType {
    Normal,
    Bikeshare,
    Transit,
}

impl Default for VertexType {
    fn default() -> (r: Self)
        ensures
            r == VertexType::Normal,
    {
        VertexType::Normal
    }
}

#[derive(Clone, Copy, Debug, PartialEq, Eq)]
pub enum RentalFormFactor {
    Bicycle,
    CargoBicycle,
    Car,
    Moped,
    ScooterStanding,
    ScooterSeated,
    Other,
}

#[derive(Clone, Copy, Debug, PartialEq, Eq)]
pub enum RentalPropulsionType {
    Human,
    ElectricAssist,
    Electric,
    Combustion,
    CombustionDiesel,
    Hybrid,
    PlugInHybrid,
    HydrogenFuelCell,
}

impl Default for RentalPropulsionType {
    fn default() -> (r: Self)
        ensures
            r == RentalPropulsionType::Human,
    {
        RentalPropulsionType::Human
    }
}

#[derive(Clone, Copy, Debug, PartialEq, Eq)]
pub enum RentalReturnConstraint {
    NoConstraint,
    AnyStation,
    RoundtripStation,
}

impl Default for RentalReturnConstraint {
    fn default() -> (r: Self)
        ensures
            r == RentalReturnConstraint::NoConstraint,
    {
        RentalReturnConstraint::NoConstraint
    }
}

/// # Street modes
///
///   - `WALK`
///   - `BIKE`
///   - `RENTAL`
///   - `CAR`
///   - `CAR_PARKING`
///
/// # Transit modes
///
///   - `TRANSIT`:
///   - `TRAM`:
#[derive(Clone, Copy, Debug, PartialEq, Eq)]
pub enum Mode {
    Walk,
    Bike,
    /// Experimental. Expect unannounced breaking changes (without version bumps).
    Rental,
    Car,
    CarParking,
    /// translates to:
    /// - [`Self::Rail`]
    /// - [`Self::HighspeedRail`]
    /// - [`Self::Subway`]
    /// - [`Self::Tram`]
    /// - [`Self::Bus`]
    /// - [`Self::Ferry`]
    /// - [`Self::Airplane`]
    /// - [`Self::Coach`]
    Transit,
    /// trams
    Tram,
    /// subway trains
    Subway,
    /// ferries
    Ferry,
    /// airline flights
    Airplane,
    /// metro trains
    Metro,
    /// short distance buses (does not include [`Self::Coach`])
    Bus,
    /// long distance buses (does not include [`Self::Bus`])
    Coach,
    /// translates to:
    /// - [`Self::HighspeedRail`]
    /// - [`Self::LongDistance`]
    /// - [`Self::NightRail`]
    /// - [`Self::RegionalRail`]
    /// - [`Self::RegionalFastRail`]
    Rail,
    /// long distance high speed trains (e.g. TGV)
    HighspeedRail,
    /// long distance inter city trains
    LongDistance,
    /// long distance night trains
    NightRail,
    /// regional express routes that skip low traffic stops to be faster
    RegionalFastRail,
    /// regional train
    RegionalRail,
    Other,
}

impl Default for Mode {
    fn default() -> (r: Self)
        ensures
            r == Mode::Walk,
    {
        Mode::Walk
    }
}

#[derive(Clone, Copy, Debug, PartialEq, Eq)]
pub enum Direction {
    Depart,
    HardLeft,
    Left,
    SlightlyLeft,
    Continue,
    SlightlyRight,
    Right,
    HardRight,
    CircleClockwise,
    CircleCounterclockwise,
    Stairs,
    Elevator,
    UturnLeft,
    UturnRight,
}

impl Default for Direction {
    fn default() -> (r: Self)
        ensures
            r == Direction::Depart,
    {
        Direction::Depart
    }
}

} // verus!
