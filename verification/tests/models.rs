use navigatum::models::{
    Direction, EncodedPolyline, MatchType, Mode, PedestrianProfile, Rental, RentalFormFactor,
    RentalPropulsionType, RentalReturnConstraint, TripInfo, VertexType,
};
use navigatum::routing::{PlaceID, StopID};
use navigatum::telemetry::{default_log_level, log_filter};

#[test]
fn typed_builders_collect_fields() {
    let rental: Rental = Rental::builder()
        .station_name("Hauptbahnhof".to_string())
        .system_id("mvg".to_string())
        .form_factor(RentalFormFactor::Bicycle)
        .into();
    assert_eq!(rental.system_id, "mvg");
    assert_eq!(rental.station_name, Some("Hauptbahnhof".to_string()));
    assert_eq!(rental.form_factor, Some(RentalFormFactor::Bicycle));
    assert_eq!(rental.url, None);

    let trip: TripInfo = TripInfo::builder().trip_id("t".to_string()).route_short_name("U6".to_string()).into();
    assert_eq!(trip.trip_id, "t");
    assert_eq!(trip.route_short_name, "U6");

    let line: EncodedPolyline = EncodedPolyline::builder().points("_p~iF".to_string()).length(2).into();
    assert_eq!(line.length, 2);
    assert_eq!(line.points, "_p~iF");
}

#[test]
fn polyline_setters_replace_fields() {
    let line = EncodedPolyline::default().length(4).points("abcd");
    assert_eq!(line.length, 4);
    assert_eq!(line.points, "abcd");
}

#[test]
fn enums_have_their_defaults() {
    assert_eq!(Mode::default(), Mode::Walk);
    assert_eq!(Direction::default(), Direction::Depart);
    assert_eq!(MatchType::default(), MatchType::Address);
    assert_eq!(PedestrianProfile::default(), PedestrianProfile::Foot);
    assert_eq!(VertexType::default(), VertexType::Normal);
    assert_eq!(RentalPropulsionType::default(), RentalPropulsionType::Human);
    assert_eq!(RentalReturnConstraint::default(), RentalReturnConstraint::NoConstraint);
}

#[test]
fn stops_are_places() {
    let stop = StopID::from_stop_id("de:09162:6");
    assert_eq!(stop.as_str(), "de:09162:6");
    let place: PlaceID = stop.into();
    assert_eq!(place.as_str(), "de:09162:6");
    assert_eq!(PlaceID::from_stop_id("x").as_str(), "x");
}

#[test]
fn log_level_follows_verbosity() {
    assert_eq!(default_log_level(0, true), "debug");
    assert_eq!(default_log_level(3, true), "trace");
    assert_eq!(default_log_level(0, false), "info");
    assert_eq!(default_log_level(1, false), "debug");
    assert_eq!(default_log_level(2, false), "trace");
    assert_eq!(
        log_filter("warn"),
        "warn,hyper=info,rustls=info,h2=info,sqlx=info,hickory_resolver=info,hickory_proto=info"
    );
}
