//! Models used in the routing APIs.

mod encoded_polyline;
mod enums;
pub mod generics;
mod rental;
mod trip_info;

pub use encoded_polyline::{EncodedPolyline, EncodedPolylineBuilder};
pub use enums::{
    Direction, MatchType, Mode, PedestrianProfile, RentalFormFactor, RentalPropulsionType,
    RentalReturnConstraint, VertexType,
};
pub use rental::{Rental, RentalBuilder};
pub use trip_info::{TripInfo, TripInfoBuilder};
