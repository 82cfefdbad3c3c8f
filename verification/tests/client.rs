use transitland::api::{Request, TransitlandObject};
use transitland::data::{
    Agency, AuthorizationType, Feed, FeedVersion, Operator, Route, Spec, Stop, Trip,
};
use transitland::error::Error;

#[test]
fn query_paths_are_the_collection_nouns() {
    assert_eq!(<Feed as TransitlandObject<()>>::query_path(()), "feeds");
    assert_eq!(
        <FeedVersion as TransitlandObject<()>>::query_path(()),
        "feed_versions"
    );
    assert_eq!(<Agency as TransitlandObject<()>>::query_path(()), "agencies");
    assert_eq!(
        <Operator as TransitlandObject<()>>::query_path(()),
        "operators"
    );
    assert_eq!(<Route as TransitlandObject<()>>::query_path(()), "routes");
    assert_eq!(<Stop as TransitlandObject<()>>::query_path(()), "stops");
}

#[test]
fn by_id_paths_are_the_collection_nouns() {
    assert_eq!(<Feed as TransitlandObject<()>>::by_id_path(()), "feeds");
    assert_eq!(<Route as TransitlandObject<()>>::by_id_path(()), "routes");
    assert_eq!(<Stop as TransitlandObject<()>>::by_id_path(()), "stops");
}

#[test]
fn trip_paths_embed_the_route_key() {
    assert_eq!(
        <Trip as TransitlandObject<u64>>::query_path(42),
        "routes/42/trips"
    );
    assert_eq!(
        <Trip as TransitlandObject<u64>>::by_id_path(42),
        "routes/42/trips"
    );
    assert_eq!(<Trip as TransitlandObject<u64>>::query_path(0), "routes/0/trips");
    assert_eq!(
        <Trip as TransitlandObject<u64>>::query_path(u64::MAX),
        "routes/18446744073709551615/trips"
    );
    for key in [1u64, 9, 10, 12345, 1000000] {
        assert_eq!(
            <Trip as TransitlandObject<u64>>::query_path(key),
            <Trip as TransitlandObject<u64>>::by_id_path(key)
        );
    }
}

#[test]
fn request_defaults() {
    let r = Request::new();
    assert_eq!(r.spec_filter, Spec::GTFS);
    assert!(r.after.is_none());
    assert_eq!(r.limit, 20);
    assert_eq!(r.base_url, "https://transit.land/api/v2/rest");
}

#[test]
fn request_builder_setters() {
    let r = Request::new()
        .with_spec(Spec::GBFS)
        .with_limit(50)
        .with_base_url(String::from("http://localhost:8000"));
    assert_eq!(r.spec_filter, Spec::GBFS);
    assert_eq!(r.limit, 50);
    assert_eq!(r.base_url, "http://localhost:8000");
}

#[test]
fn search_url_joins_base_and_path() {
    let r = Request::new();
    assert_eq!(
        r.search_url::<(), Route>(()),
        "https://transit.land/api/v2/rest/routes"
    );
    assert_eq!(
        r.search_url::<u64, Trip>(7),
        "https://transit.land/api/v2/rest/routes/7/trips"
    );
}

#[test]
fn by_id_url_appends_the_key() {
    let r = Request::new().with_base_url(String::from("http://localhost"));
    assert_eq!(
        r.by_id_url::<(), Feed>((), "f-abc~xyz"),
        "http://localhost/feeds/f-abc~xyz"
    );
}

#[test]
fn search_params_carry_key_query_and_limit() {
    let r = Request::new().with_limit(33);
    let params = r.search_params("bart", "SECRET-REDACTED");
    assert_eq!(params.len(), 3);
    assert_eq!(params[0], (String::from("apikey"), String::from("SECRET-REDACTED")));
    assert_eq!(params[1], (String::from("search"), String::from("bart")));
    assert_eq!(params[2], (String::from("limit"), String::from("33")));
}

#[test]
fn get_params_carry_key_and_limit() {
    let r = Request::new();
    let params = r.get_params("k");
    assert_eq!(params.len(), 2);
    assert_eq!(params[0], (String::from("apikey"), String::from("k")));
    assert_eq!(params[1], (String::from("limit"), String::from("20")));
}

#[test]
fn spec_round_trips_through_its_wire_text() {
    for (spec, text) in [
        (Spec::GTFS, "gtfs"),
        (Spec::GTFSRealtime, "gtfs-rt"),
        (Spec::GBFS, "gbfs"),
        (Spec::MDS, "mds"),
    ] {
        assert_eq!(spec.to_text(), text);
        assert_eq!(Spec::from_text(text), Some(spec));
        assert_eq!(Spec::from_text(&spec.to_text()), Some(spec));
    }
    assert_eq!(Spec::from_text("gtfs2"), None);
    assert_eq!(Spec::from_text(""), None);
}

#[test]
fn authorization_type_wire_texts() {
    assert_eq!(AuthorizationType::from_text(""), Some(AuthorizationType::NoAuth));
    assert_eq!(
        AuthorizationType::from_text("header"),
        Some(AuthorizationType::Header)
    );
    assert_eq!(
        AuthorizationType::from_text("basic_auth"),
        Some(AuthorizationType::BasicAuth)
    );
    assert_eq!(
        AuthorizationType::from_text("query_param"),
        Some(AuthorizationType::QueryParam)
    );
    assert_eq!(
        AuthorizationType::from_text("path_segment"),
        Some(AuthorizationType::PathSegment)
    );
    assert_eq!(AuthorizationType::from_text("cookie"), None);
}

#[test]
fn error_kind_labels() {
    assert_eq!(Error::Transport(String::from("boom")).kind(), "transport");
    assert_eq!(
        Error::Deserialization(String::from("bad")).kind(),
        "deserialization"
    );
    assert_eq!(Error::Unsupported.kind(), "unsupported");
}
