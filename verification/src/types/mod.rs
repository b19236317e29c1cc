//! Types used as operation parameters and responses.

pub mod builder;
pub mod error;
pub mod field;
mod enums;
mod structs;

pub use enums::{
    AlertCause,
    AlertEffect,
    AlertSeverityLevel,
    Direction,
    ElevationCosts,
    FareMediaType,
    FareTransferRule,
    LocationType,
    Mode,
    PedestrianProfile,
    PickupDropoffType,
    PlanAlgorithm,
    RentalFormFactor,
    RentalPropulsionType,
    RentalReturnConstraint,
    StoptimesDirection,
    VertexType,
};
pub use structs::{Timestamp, Alert, EncodedPolyline, FareMedia, Rental, RiderCategory, TimeRange, TripInfo};
