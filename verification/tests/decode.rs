use transitland::api::{decode_get_response, decode_search_response};
use transitland::data::{Feed, Route, Spec, Stop, Trip};
use transitland::error::Error;
use transitland::json::JsonNum;

const ROUTE_ONE: &str = r#"{"id":1,"onestop_id":"r-9q9-local","route_id":"L1",
    "route_color":"FF0000","route_text_color":"FFFFFF","route_sort_order":5,
    "agency":{"id":7,"agency_name":"City Transit"}}"#;

const ROUTE_TWO: &str = r#"{"id":2,"onestop_id":"r-9q9-express","route_id":"X2",
    "route_color":"0000FF","route_text_color":"FFFFFF","route_sort_order":6,
    "agency":{"id":7}}"#;

fn routes_body(meta: &str, routes: &[&str]) -> String {
    let list = routes.join(",");
    if meta.is_empty() {
        format!("{{\"routes\":[{}]}}", list)
    } else {
        format!("{{\"meta\":{},\"routes\":[{}]}}", meta, list)
    }
}

#[test]
fn get_on_empty_array_yields_absent_not_error() {
    let r = decode_get_response::<Route>(r#"{"routes": []}"#).unwrap();
    assert!(r.is_none());
}

#[test]
fn get_on_single_element_yields_that_element() {
    let body = routes_body("", &[ROUTE_ONE]);
    let route = decode_get_response::<Route>(&body).unwrap().unwrap();
    assert_eq!(route.id, 1);
    assert_eq!(route.onestop_id, "r-9q9-local");
    assert_eq!(route.route_id.as_deref(), Some("L1"));
    assert_eq!(route.route_color, "FF0000");
    assert_eq!(route.route_sort_order, 5);
    assert_eq!(route.agency.id, 7);
    assert_eq!(route.agency.agency_name.as_deref(), Some("City Transit"));
    assert!(route.route_long_name.is_none());
    assert!(route.feed_version.is_none());
}

#[test]
fn get_on_two_elements_yields_the_first() {
    let body = routes_body("", &[ROUTE_ONE, ROUTE_TWO]);
    let route = decode_get_response::<Route>(&body).unwrap().unwrap();
    assert_eq!(route.id, 1);
}

#[test]
fn get_on_envelope_without_entries_yields_absent() {
    assert!(decode_get_response::<Route>("{}").unwrap().is_none());
    assert!(decode_get_response::<Route>(r#"{"meta":{"after":3,"next":"https://x"}}"#)
        .unwrap()
        .is_none());
}

#[test]
fn search_yields_the_typed_results_in_order() {
    let body = routes_body(
        r#"{"after": 5, "next": "https://transit.land/api/v2/rest/routes?after=5"}"#,
        &[ROUTE_ONE, ROUTE_TWO],
    );
    let resp = decode_search_response::<Route>(&body).unwrap();
    let values = resp.values().unwrap();
    assert_eq!(values.len(), 2);
    assert_eq!(values[0].id, 1);
    assert_eq!(values[0].onestop_id, "r-9q9-local");
    assert_eq!(values[1].id, 2);
    assert_eq!(values[1].onestop_id, "r-9q9-express");
    let meta = resp.meta.as_ref().unwrap();
    assert_eq!(meta.after, 5);
    assert_eq!(meta.next, "https://transit.land/api/v2/rest/routes?after=5");
    assert_eq!(
        resp.next_page_url().map(String::as_str),
        Some("https://transit.land/api/v2/rest/routes?after=5")
    );
}

#[test]
fn search_without_meta_has_no_cursor() {
    let body = routes_body("", &[ROUTE_ONE]);
    let resp = decode_search_response::<Route>(&body).unwrap();
    assert!(resp.meta.is_none());
    assert!(resp.next_page_url().is_none());
}

#[test]
fn search_with_null_meta_has_no_cursor() {
    let resp = decode_search_response::<Route>(r#"{"meta":null,"routes":[]}"#).unwrap();
    assert!(resp.meta.is_none());
}

#[test]
fn values_takes_the_last_entry_when_several_are_populated() {
    let body = format!(
        "{{\"a\":[{}],\"b\":[{}]}}",
        ROUTE_ONE, ROUTE_TWO
    );
    let resp = decode_search_response::<Route>(&body).unwrap();
    assert_eq!(resp.rest.len(), 2);
    // serde_json reports object keys in sorted order, so "b" is last.
    let values = resp.values().unwrap();
    assert_eq!(values.len(), 1);
    assert_eq!(values[0].id, 2);
}

#[test]
fn values_is_absent_on_an_empty_envelope() {
    let resp = decode_search_response::<Route>("{}").unwrap();
    assert!(resp.values().is_none());
}

#[test]
fn missing_required_field_is_a_deserialization_error() {
    // A feed without its onestop_id must fail, not default.
    let feed = r#"{"id":1,"spec":"gtfs",
        "urls":{"static_current":"https://a/gtfs.zip","static_historic":[],
            "static_planned":"","realtime_vehicle_positions":"",
            "realtime_trip_updates":"","realtime_alerts":""},
        "license":{},
        "authorization":{"info_url":"https://a/signup"},
        "feed_state":{"feed_version":{"sha1":"e0","fetched_at":"2023-01-01T00:00:00Z"}},
        "feed_versions":[]}"#;
    let body = format!("{{\"feeds\":[{}]}}", feed);
    let err = decode_search_response::<Feed>(&body).unwrap_err();
    assert!(matches!(err, Error::Deserialization(_)));
}

#[test]
fn full_feed_decodes() {
    let feed = r#"{"id":1,"onestop_id":"f-9q9-caltrain","name":"Caltrain","spec":"gtfs",
        "feed_namespace_id":null,
        "associated_feeds":["f-9q9-rt"],
        "languages":["en"],
        "urls":{"static_current":"https://a/gtfs.zip","static_historic":["https://a/old.zip"],
            "static_planned":"","realtime_vehicle_positions":"https://a/vp",
            "realtime_trip_updates":"https://a/tu","realtime_alerts":"https://a/al"},
        "license":{"spdx_identifier":"CC-BY-4.0","redistribution_allowed":"yes"},
        "authorization":{"type":"query_param","param_name":"token","info_url":"https://a/signup"},
        "feed_state":{"last_fetch_error":"","last_fetched_at":"2023-06-01T00:00:00Z",
            "feed_version":{"id":9,"sha1":"e0deadbeef","fetched_at":"2023-01-01T00:00:00Z",
                "url":"https://a/gtfs.zip","earliest_calendar_date":"2023-01-01",
                "latest_calendar_date":"2023-12-31"}},
        "feed_versions":[{"sha1":"e0deadbeef","fetched_at":"2023-01-01T00:00:00Z"}]}"#;
    let body = format!("{{\"feeds\":[{}]}}", feed);
    let got = decode_get_response::<Feed>(&body).unwrap().unwrap();
    assert_eq!(got.id, 1);
    assert_eq!(got.onestop_id, "f-9q9-caltrain");
    assert_eq!(got.name.as_deref(), Some("Caltrain"));
    assert_eq!(got.spec, Spec::GTFS);
    assert!(got.feed_namespace_id.is_none());
    assert_eq!(got.associated_feeds.as_deref(), Some(&["f-9q9-rt".to_string()][..]));
    assert_eq!(got.urls.static_current, "https://a/gtfs.zip");
    assert_eq!(got.urls.static_historic, vec!["https://a/old.zip".to_string()]);
    assert_eq!(got.license.spdx_identifier.as_deref(), Some("CC-BY-4.0"));
    assert_eq!(got.license.redistribution_allowed.as_deref(), Some("yes"));
    assert!(got.license.url.is_none());
    assert_eq!(got.authorization.param_name.as_deref(), Some("token"));
    assert_eq!(got.feed_state.feed_version.sha1, "e0deadbeef");
    assert_eq!(got.feed_versions.len(), 1);
    assert_eq!(got.feed_versions[0].fetched_at, "2023-01-01T00:00:00Z");
}

#[test]
fn stop_decodes_with_point_geometry() {
    let stop = r#"{"id":3,"onestop_id":"s-9q9-station","stop_id":"S3",
        "stop_name":"Main St Station","location_type":0,"wheelchair_boarding":1,
        "geometry":{"type":"Point","coordinates":[-122.4,37]}}"#;
    let body = format!("{{\"stops\":[{}]}}", stop);
    let got = decode_get_response::<Stop>(&body).unwrap().unwrap();
    assert_eq!(got.id, 3);
    assert_eq!(got.stop_name.as_deref(), Some("Main St Station"));
    assert_eq!(got.location_type, Some(0));
    assert_eq!(got.geometry.type_, "Point");
    assert_eq!(got.geometry.coordinates.lon, JsonNum::Text(String::from("-122.4")));
    assert_eq!(got.geometry.coordinates.lat, JsonNum::UInt(37));
}

#[test]
fn trip_decodes_with_nested_entities() {
    let trip = r#"{"id":11,"trip_id":"T11","direction_id":1,"stop_pattern_id":4,
        "stop_times":[{"arrival_time":3600,"departure_time":3660,"stop_sequence":1,
            "stop_headsign":"Downtown","pickup_type":0,"drop_off_type":0,"timepoint":1,
            "shape_dist_traveled":1.5,"interpolated":0}],
        "shape":{"shape_id":"sh1","generated":false},
        "calendar":{"service_id":"wk","start_date":"2023-01-01","end_date":"2023-12-31",
            "monday":1,"tuesday":1,"wednesday":1,"thursday":1,"friday":1,
            "saturday":0,"sunday":0},
        "frequencies":[{"start_time":21600,"end_time":32400,"headway_secs":600,"exact_times":0}],
        "route":{"id":1,"route_id":"L1"},
        "feed_version":{"sha1":"e0","fetched_at":"2023-01-01T00:00:00Z"}}"#;
    let body = format!("{{\"trips\":[{}]}}", trip);
    let got = decode_get_response::<Trip>(&body).unwrap().unwrap();
    assert_eq!(got.id, 11);
    assert_eq!(got.trip_id.as_deref(), Some("T11"));
    let stop_times = got.stop_times.as_ref().unwrap();
    assert_eq!(stop_times.len(), 1);
    assert_eq!(stop_times[0].arrival_time, 3600);
    assert_eq!(
        stop_times[0].shape_dist_traveled,
        JsonNum::Text(String::from("1.5"))
    );
    assert_eq!(got.shape.shape_id, "sh1");
    assert!(!got.shape.generated);
    assert_eq!(got.calendar.monday, 1);
    assert_eq!(got.calendar.saturday, 0);
    assert_eq!(got.frequencies[0].headway_secs, 600);
    assert_eq!(got.route.as_ref().unwrap().route_id, "L1");
    assert_eq!(got.feed_version.sha1, "e0");
}

#[test]
fn invalid_json_is_a_deserialization_error() {
    let err = decode_search_response::<Route>("{not json").unwrap_err();
    assert!(matches!(err, Error::Deserialization(_)));
    let err = decode_get_response::<Route>("").unwrap_err();
    assert!(matches!(err, Error::Deserialization(_)));
}

#[test]
fn non_object_body_is_a_deserialization_error() {
    let err = decode_search_response::<Route>("[1,2,3]").unwrap_err();
    assert!(matches!(err, Error::Deserialization(_)));
}

#[test]
fn non_array_entry_is_a_deserialization_error() {
    let err = decode_search_response::<Route>(r#"{"routes": 17}"#).unwrap_err();
    assert!(matches!(err, Error::Deserialization(_)));
}

#[test]
fn malformed_meta_is_a_deserialization_error() {
    let err =
        decode_search_response::<Route>(r#"{"meta":{"after":5},"routes":[]}"#).unwrap_err();
    assert!(matches!(err, Error::Deserialization(_)));
}

#[test]
fn type_mismatch_in_a_field_is_a_deserialization_error() {
    let bad = r#"{"routes":[{"id":"one","onestop_id":"r-x","route_color":"",
        "route_text_color":"","route_sort_order":0,"agency":{"id":7}}]}"#;
    let err = decode_search_response::<Route>(bad).unwrap_err();
    assert!(matches!(err, Error::Deserialization(_)));
}

#[test]
fn search_next_fails_with_the_explicit_unsupported_error() {
    let body = routes_body(r#"{"after": 5, "next": "https://x/routes?after=5"}"#, &[]);
    let resp = decode_search_response::<Route>(&body).unwrap();
    assert!(resp.meta.is_some());
    let err = resp.search_next().unwrap_err();
    assert!(matches!(err, Error::Unsupported));
}

#[test]
fn operator_tags_decode_as_a_tag_map() {
    let operator = r#"{"id":21,"onestop_id":"o-9q9-ct",
        "tags":{"twitter":"@ct","wiki":"w"},"agencies":[{"id":7}]}"#;
    let body = format!("{{\"operators\":[{}]}}", operator);
    let got = decode_get_response::<transitland::data::Operator>(&body)
        .unwrap()
        .unwrap();
    assert_eq!(got.id, 21);
    let tags = got.tags.as_ref().unwrap();
    assert_eq!(tags.entries.len(), 2);
    // serde_json reports object keys in sorted order.
    assert_eq!(tags.entries[0], (String::from("twitter"), String::from("@ct")));
    assert_eq!(tags.entries[1], (String::from("wiki"), String::from("w")));
    assert_eq!(got.agencies.as_ref().unwrap()[0].id, 7);
}
