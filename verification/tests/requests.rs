use navigatum::types::{LocationType, Mode, StoptimesDirection};
use navigatum::ApiClient;

fn client() -> ApiClient {
    ApiClient::new_with_client("https://api.transitous.org", reqwest::Client::new())
}

#[test]
fn client_keeps_its_base_url() {
    let client = client();
    assert_eq!(client.baseurl(), "https://api.transitous.org");
    assert_eq!(ApiClient::api_version(), "v4");
}

#[test]
fn missing_required_parameter_is_reported() {
    let client = client();
    assert_eq!(client.trip().params().unwrap_err(), "trip_id was not initialized");
    assert_eq!(client.reverse_geocode().params().unwrap_err(), "place was not initialized");
    assert_eq!(client.stoptimes().stop_id("s".to_string()).params().unwrap_err(), "n was not initialized");
    assert_eq!(client.stoptimes().params().unwrap_err(), "n was not initialized");
    assert_eq!(client.stops().min("1,2".to_string()).params().unwrap_err(), "max was not initialized");
    assert_eq!(client.levels().params().unwrap_err(), "max was not initialized");
    assert_eq!(client.transfers().params().unwrap_err(), "id was not initialized");
}

#[test]
fn complete_request_gives_url_and_parameters() {
    let client = client();
    let params = client.trip().trip_id("t-1".to_string()).language("de".to_string()).params().unwrap();
    assert_eq!(params.url, "https://api.transitous.org/api/v4/trip");
    assert_eq!(params.trip_id, "t-1");
    assert_eq!(params.language, Some("de".to_string()));
    assert_eq!(params.join_interlined_legs, None);

    let params = client
        .stoptimes()
        .n(5)
        .stop_id("de:09162:6".to_string())
        .mode(vec![Mode::Bus, Mode::Tram])
        .direction(StoptimesDirection::Later)
        .params()
        .unwrap();
    assert_eq!(params.url, "https://api.transitous.org/api/v4/stoptimes");
    assert_eq!(params.n, 5);
    assert_eq!(params.mode, Some(vec![Mode::Bus, Mode::Tram]));
    assert_eq!(params.direction, Some(StoptimesDirection::Later));
    assert_eq!(params.time, None);

    let params = client.reverse_geocode().place("48.1,11.6".to_string()).type_(LocationType::Stop).params().unwrap();
    assert_eq!(params.url, "https://api.transitous.org/api/v1/reverse-geocode");
    assert_eq!(params.type_, Some(LocationType::Stop));

    let params = client.initial().params().unwrap();
    assert_eq!(params.url, "https://api.transitous.org/api/v1/map/initial");

    let params = client.levels().max("2,2".to_string()).min("1,1".to_string()).params().unwrap();
    assert_eq!(params.url, "https://api.transitous.org/api/v1/map/levels");
    assert_eq!(params.min, "1,1");

    let params = client.stops().max("2,2".to_string()).min("1,1".to_string()).params().unwrap();
    assert_eq!(params.url, "https://api.transitous.org/api/v1/map/stops");

    let params = client.transfers().id("stop".to_string()).params().unwrap();
    assert_eq!(params.url, "https://api.transitous.org/api/debug/transfers");
    assert_eq!(params.id, "stop");
}

#[test]
fn parameters_are_converted_on_the_way_in() {
    let client = client();
    let geocode = client.reverse_geocode().type_("STOP");
    assert!(matches!(geocode.type_, Ok(Some(LocationType::Stop))));
    assert_eq!(geocode.place.as_ref().unwrap_err(), "place was not initialized");
    let geocode = client.reverse_geocode().type_("BOGUS");
    assert_eq!(geocode.type_.as_ref().unwrap_err(), "conversion to `LocationType` for type_ failed");
    assert_eq!(geocode.params().unwrap_err(), "place was not initialized");

    let stoptimes = client.stoptimes().direction("LATER");
    assert!(matches!(stoptimes.direction, Ok(Some(StoptimesDirection::Later))));
    let stoptimes = client.stoptimes().direction("later");
    assert_eq!(
        stoptimes.direction.as_ref().unwrap_err(),
        "conversion to `StoptimesDirection` for direction failed"
    );

    assert_eq!(client.stoptimes().n(10u64).n, Ok(10i64));
    assert_eq!(client.stoptimes().n(u64::MAX).n.unwrap_err(), "conversion to `i64` for n failed");
    let stoptimes = client.stoptimes().radius(u64::MAX);
    assert_eq!(stoptimes.radius.as_ref().unwrap_err(), "conversion to `i64` for radius failed");
    assert_eq!(stoptimes.radius(50).radius, Ok(Some(50)));
}

#[test]
fn failed_conversion_is_reported_by_params() {
    let client = client();
    let err = client
        .stoptimes()
        .stop_id("s".to_string())
        .n(3)
        .direction("SIDEWAYS")
        .params()
        .unwrap_err();
    assert_eq!(err, "conversion to `StoptimesDirection` for direction failed");
}
