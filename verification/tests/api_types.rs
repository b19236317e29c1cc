use navigatum::types::builder;
use navigatum::types::{
    Alert, AlertCause, AlertEffect, ElevationCosts, EncodedPolyline, FareMedia, FareMediaType,
    Mode, PlanAlgorithm, Rental, RentalReturnConstraint, RiderCategory, TimeRange, Timestamp,
    TripInfo, VertexType,
};
use std::str::FromStr;

#[test]
fn enum_names_round_trip() {
    for cause in [AlertCause::UnknownCause, AlertCause::Strike, AlertCause::MedicalEmergency] {
        assert_eq!(AlertCause::parse(cause.as_str()).unwrap(), cause);
    }
    assert_eq!(Mode::parse("HIGHSPEED_RAIL").unwrap(), Mode::HighspeedRail);
    assert_eq!(Mode::CableCar.as_str(), "CABLE_CAR");
    assert_eq!(Mode::ArealLift.to_string(), "AREAL_LIFT");
    assert_eq!(AlertEffect::from_str("DETOUR").unwrap(), AlertEffect::Detour);
    assert_eq!(VertexType::Bikeshare.as_str(), "BIKESHARE");
}

#[test]
fn renamed_variants_keep_their_api_names() {
    assert_eq!(ElevationCosts::NoCosts.as_str(), "NONE");
    assert_eq!(FareMediaType::parse("NONE").unwrap(), FareMediaType::NoMedia);
    assert_eq!(
        RentalReturnConstraint::parse("NONE").unwrap(),
        RentalReturnConstraint::NoConstraint
    );
}

#[test]
fn unknown_names_are_rejected() {
    let err = Mode::parse("walk").unwrap_err();
    assert_eq!(err.to_string(), "invalid value");
    assert!(AlertCause::from_str("").is_err());
    assert!(PlanAlgorithm::parse("RAPTOR ").is_err());
}

#[test]
fn plan_algorithm_defaults_to_raptor() {
    assert_eq!(PlanAlgorithm::default(), PlanAlgorithm::Raptor);
    assert_eq!(AlertCause::from(&AlertCause::Holiday), AlertCause::Holiday);
}

#[test]
fn builder_reports_first_missing_field() {
    let err = Alert::try_from(Alert::builder()).unwrap_err();
    assert_eq!(err.to_string(), "no value supplied for description_text");
    let err = Alert::try_from(Alert::builder().description_text("d".to_string())).unwrap_err();
    assert_eq!(err.to_string(), "no value supplied for header_text");
    let err = EncodedPolyline::try_from(EncodedPolyline::builder().points("p".to_string()))
        .unwrap_err();
    assert_eq!(err.to_string(), "no value supplied for length");
}

#[test]
fn builder_with_required_fields_converts() {
    let alert = Alert::try_from(
        Alert::builder()
            .header_text("Strike".to_string())
            .description_text("No trains today".to_string())
            .cause(Some(AlertCause::Strike)),
    )
    .unwrap();
    assert_eq!(alert.header_text, "Strike");
    assert_eq!(alert.description_text, "No trains today");
    assert_eq!(alert.cause, Some(AlertCause::Strike));
    assert_eq!(alert.effect, None);
    assert!(alert.communication_period.is_empty());
    assert_eq!(alert.url, None);
}

#[test]
fn object_round_trips_through_its_builder() {
    let rental = Rental::try_from(Rental::builder().system_id("nextbike".to_string())).unwrap();
    let again = Rental::try_from(builder::Rental::from(rental.clone())).unwrap();
    assert_eq!(again.system_id, "nextbike");
    assert_eq!(again.station_name, None);

    let media = FareMedia::try_from(FareMedia::builder().fare_media_type(FareMediaType::TransitCard))
        .unwrap();
    assert_eq!(media.fare_media_type, FareMediaType::TransitCard);
    assert_eq!(media.fare_media_name, None);

    let category = RiderCategory::try_from(
        RiderCategory::builder().is_default_fare_category(true).rider_category_name("adult".to_string()),
    )
    .unwrap();
    assert!(category.is_default_fare_category);
    assert_eq!(category.rider_category_name, "adult");

    let trip = TripInfo::try_from(TripInfo::builder().trip_id("t1".to_string())).unwrap();
    assert_eq!(trip.trip_id, "t1");
    assert_eq!(trip.display_name, None);
}

#[test]
fn time_ranges_need_a_start_or_an_end() {
    let err = TimeRange::try_from(TimeRange::builder()).unwrap_err();
    assert_eq!(err.to_string(), "either start or end must be provided");
    let err = TimeRange::try_from(TimeRange::builder().start(None).end(None)).unwrap_err();
    assert_eq!(err.to_string(), "either start or end must be provided");
    let end = Timestamp { secs: 1_700_003_600, nsecs: 0 };
    let range = TimeRange::try_from(TimeRange::builder().end(Some(end))).unwrap();
    assert_eq!(range.end, Some(end));
    assert_eq!(range.start, None);
    let start = Timestamp { secs: 1_700_000_000, nsecs: 0 };
    let range = TimeRange::try_from(TimeRange::builder().start(Some(start))).unwrap();
    assert_eq!(range.start, Some(start));
    assert_eq!(range.end, None);
    let empty = TimeRange::default();
    assert_eq!(empty.end, None);
}

#[test]
fn polyline_needs_all_of_its_fields() {
    let line = EncodedPolyline::try_from(
        EncodedPolyline::builder().length(3).points("abc".to_string()).precision(7),
    )
    .unwrap();
    assert_eq!(line.length, 3);
    assert_eq!(line.points, "abc");
    assert_eq!(line.precision, 7);
    let err = EncodedPolyline::try_from(EncodedPolyline::builder().length(3).points("abc".to_string()))
        .unwrap_err();
    assert_eq!(err.to_string(), "no value supplied for precision");
}

#[test]
fn object_fields_are_converted_on_the_way_in() {
    assert_eq!(EncodedPolyline::builder().length(5i64).length, Ok(5u64));
    assert_eq!(
        EncodedPolyline::builder().length(-1i64).length.unwrap_err(),
        "error converting supplied value for length: out of range integral type conversion attempted"
    );
    assert_eq!(
        EncodedPolyline::builder().precision(u64::MAX).precision.unwrap_err(),
        "error converting supplied value for precision: out of range integral type conversion attempted"
    );
    assert!(matches!(
        FareMedia::builder().fare_media_type("MOBILE_APP").fare_media_type,
        Ok(FareMediaType::MobileApp)
    ));
    assert_eq!(
        FareMedia::builder().fare_media_type("BUS").fare_media_type.unwrap_err(),
        "error converting supplied value for fare_media_type: invalid value"
    );
    let err = FareMedia::try_from(FareMedia::builder().fare_media_type("BUS")).unwrap_err();
    assert_eq!(err.to_string(), "error converting supplied value for fare_media_type: invalid value");
}

#[test]
fn alert_images_must_be_images() {
    let with_type = |t: &str| {
        Alert::try_from(
            Alert::builder()
                .header_text("Works".to_string())
                .description_text("Lift out of order".to_string())
                .image_media_type(Some(t.to_string())),
        )
    };
    let alert = with_type("image/png").unwrap();
    assert_eq!(alert.image_media_type.as_deref(), Some("image/png"));
    assert_eq!(with_type("image/").unwrap().image_media_type.as_deref(), Some("image/"));
    assert_eq!(
        with_type("text/html").unwrap_err().to_string(),
        "image_media_type must start with \"image/\""
    );
    assert_eq!(
        with_type("imag").unwrap_err().to_string(),
        "image_media_type must start with \"image/\""
    );
}
