use navigatum::models::Mode;
use navigatum::routing::{reply_kind, OptimalConnectionOptions, PlaceID, ReplyKind, StopID};

#[test]
fn options_start_with_service_defaults() {
    let options = OptimalConnectionOptions::from_one_place_to_another(
        PlaceID::from_stop_id("de-DELFI_de:09162:6"),
        PlaceID::from_stop_id("de-DELFI_de:09162:1"),
        true,
    );
    assert_eq!(options.from_place.as_str(), "de-DELFI_de:09162:6");
    assert_eq!(options.to_place.as_str(), "de-DELFI_de:09162:1");
    assert!(options.detailed_transfers);
    assert!(options.via.is_none());
    assert!(options.time.is_none());
    assert!(options.arrive_by.is_none());
    assert!(options.transit_modes.is_none());
    assert!(options.with_fares.is_none());
}

#[test]
fn options_setters_set_one_option() {
    let options = OptimalConnectionOptions::from_one_place_to_another(
        PlaceID::from_stop_id("a"),
        PlaceID::from_stop_id("b"),
        false,
    )
    .via(vec![StopID::from_stop_id("c"), StopID::from_stop_id("d")])
    .via_minimum_stay(vec![0, 5])
    .times_refer_to_arrivals();
    let via: Vec<&str> = options.via.as_ref().unwrap().iter().map(|s| s.as_str()).collect();
    assert_eq!(via, vec!["c", "d"]);
    assert_eq!(options.via_minimum_stay, Some(vec![0, 5]));
    assert_eq!(options.arrive_by, Some(true));
    let options = options.times_refer_to_departures();
    assert_eq!(options.arrive_by, Some(false));
    assert_eq!(options.from_place.as_str(), "a");
    let time = chrono::NaiveDate::from_ymd_opt(2024, 5, 1)
        .unwrap()
        .and_hms_opt(8, 30, 0)
        .unwrap();
    let options = options.time(time);
    assert_eq!(options.time, Some(time));
    assert!(options.transit_modes.is_none());
    let _ = Mode::Transit;
}

#[test]
fn replies_are_read_by_status() {
    assert_eq!(reply_kind(200), ReplyKind::Answer);
    assert_eq!(reply_kind(304), ReplyKind::Answer);
    assert_eq!(reply_kind(399), ReplyKind::Answer);
    assert_eq!(reply_kind(400), ReplyKind::RemoteError);
    assert_eq!(reply_kind(422), ReplyKind::RemoteError);
    assert_eq!(reply_kind(499), ReplyKind::RemoteError);
    assert_eq!(reply_kind(500), ReplyKind::HttpError);
    assert_eq!(reply_kind(503), ReplyKind::HttpError);
    assert_eq!(reply_kind(600), ReplyKind::Answer);
}
