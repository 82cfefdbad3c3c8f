//! The domain entities of the Transitland API, with their decoders.
//!
//! Every entity is an immutable, externally sourced value object: it is
//! produced solely by decoding an HTTP response body and consumed by the
//! caller. Entities referenced from inside another entity's response come as
//! reduced "partial" projections, in [`partial`]; a partial projection does
//! not carry every field of the full entity.

use vstd::prelude::*;

use crate::api::TransitlandObject;
use crate::error::Error;
use crate::json::{
    decode_error, get_opt, get_req, opt_matches, opt_ok, req_matches, req_ok, Json, JsonDecode,
    JsonNum,
};
use crate::text::{dec_str, str_eq, u64_to_string};

pub mod partial;

verus! {

broadcast use vstd::std_specs::control_flow::group_control_flow_axioms;

/// The feed-data format families.
#[derive(Debug, Clone, Copy, PartialEq, Eq, Structural)]
pub enum Spec {
    /// General Transit Feed Specification.
    GTFS,
    /// GTFS Realtime.
    GTFSRealtime,
    /// General Bikeshare Feed Specification.
    GBFS,
    /// Mobility Data Specification.
    MDS,
}

/// The wire text of each feed-data format.
pub open spec fn spec_text(s: Spec) -> Seq<char> {
    match s {
        Spec::GTFS => "gtfs"@,
        Spec::GTFSRealtime => "gtfs-rt"@,
        Spec::GBFS => "gbfs"@,
        Spec::MDS => "mds"@,
    }
}

/// The feed-data format a wire text names, if any.
pub open spec fn spec_of_text(t: Seq<char>) -> Option<Spec> {
    if t == "gtfs"@ {
        Some(Spec::GTFS)
    } else if t == "gtfs-rt"@ {
        Some(Spec::GTFSRealtime)
    } else if t == "gbfs"@ {
        Some(Spec::GBFS)
    } else if t == "mds"@ {
        Some(Spec::MDS)
    } else {
        None
    }
}

impl Spec {
    /// Renders the format as its wire text.
    pub fn to_text(&self) -> (r: String)
        ensures
            r@ == spec_text(*self),
    {
        match self {
            Spec::GTFS => String::from_str("gtfs"),
            Spec::GTFSRealtime => String::from_str("gtfs-rt"),
            Spec::GBFS => String::from_str("gbfs"),
            Spec::MDS => String::from_str("mds"),
        }
    }

    /// Reads a format from its wire text.
    pub fn from_text(t: &str) -> (r: Option<Spec>)
        ensures
            r == spec_of_text(t@),
    {
        if str_eq(t, "gtfs") {
            Some(Spec::GTFS)
        } else if str_eq(t, "gtfs-rt") {
            Some(Spec::GTFSRealtime)
        } else if str_eq(t, "gbfs") {
            Some(Spec::GBFS)
        } else if str_eq(t, "mds") {
            Some(Spec::MDS)
        } else {
            None
        }
    }
}

/// Law: rendering a feed-data format and reading the text back yields the
/// same variant.
pub proof fn lemma_spec_text_round_trip(s: Spec)
    ensures
        spec_of_text(spec_text(s)) == Some(s),
{
    reveal_strlit("gtfs");
    reveal_strlit("gtfs-rt");
    reveal_strlit("gbfs");
    reveal_strlit("mds");
    assert("gtfs"@.len() == 4);
    assert("gtfs-rt"@.len() == 7);
    assert("gbfs"@.len() == 4);
    assert("mds"@.len() == 3);
    match s {
        Spec::GTFS => {
            assert(spec_of_text(spec_text(s)) == Some(Spec::GTFS));
        },
        Spec::GTFSRealtime => {
            assert(spec_text(s) != "gtfs"@);
            assert(spec_of_text(spec_text(s)) == Some(Spec::GTFSRealtime));
        },
        Spec::GBFS => {
            assert("gbfs"@[1] != "gtfs"@[1]);
            assert(spec_of_text(spec_text(s)) == Some(Spec::GBFS));
        },
        Spec::MDS => {
            assert(spec_of_text(spec_text(s)) == Some(Spec::MDS));
        },
    }
}

/// Law: a wire text that names a format is that format's rendering, so the
/// text round-trips too.
pub proof fn lemma_spec_text_of_named(t: Seq<char>, s: Spec)
    requires
        spec_of_text(t) == Some(s),
    ensures
        spec_text(s) == t,
{
}

impl JsonDecode for Spec {
    open spec fn decodable(j: Json) -> bool {
        j matches Json::Str(s) && spec_of_text(s@) is Some
    }

    open spec fn json_matches(v: Spec, j: Json) -> bool {
        j matches Json::Str(s) && spec_of_text(s@) == Some(v)
    }

    fn from_json(j: &Json) -> (r: Result<Spec, Error>) {
        match j {
            Json::Str(s) => match Spec::from_text(s.as_str()) {
                Some(v) => Ok(v),
                None => Err(decode_error("not a feed-data format name")),
            },
            _ => Err(decode_error("expected a feed-data format name")),
        }
    }
}

/// A free-form string-to-string tag mapping, as the API's `tags` objects
/// carry it, in the entry order of the model.
#[derive(Debug, PartialEq)]
pub struct TagMap {
    pub entries: Vec<(String, String)>,
}

impl JsonDecode for TagMap {
    open spec fn decodable(j: Json) -> bool {
        j matches Json::Obj(fields) && (forall|i: int|
            0 <= i < fields@.len() ==> (#[trigger] fields@[i]).1 matches Json::Str(_))
    }

    open spec fn json_matches(v: TagMap, j: Json) -> bool {
        j matches Json::Obj(fields) && v.entries@.len() == fields@.len() && (forall|i: int|
            0 <= i < fields@.len() ==> {
                &&& (#[trigger] v.entries@[i]).0@ == fields@[i].0@
                &&& fields@[i].1 matches Json::Str(s) && v.entries@[i].1@ == s@
            })
    }

    fn from_json(j: &Json) -> (r: Result<TagMap, Error>) {
        match j {
            Json::Obj(fields) => {
                let mut entries: Vec<(String, String)> = Vec::new();
                let mut i: usize = 0;
                while i < fields.len()
                    invariant
                        *j == Json::Obj(*fields),
                        i <= fields@.len(),
                        entries@.len() == i,
                        forall|k: int|
                            0 <= k < i ==> {
                                &&& (#[trigger] entries@[k]).0@ == fields@[k].0@
                                &&& fields@[k].1 matches Json::Str(s) && entries@[k].1@ == s@
                            },
                    decreases fields@.len() - i,
                {
                    let pair = &fields[i];
                    match &pair.1 {
                        Json::Str(s) => entries.push((pair.0.clone(), s.clone())),
                        _ => {
                            proof {
                                assert((*j)->Obj_0@[i as int].1 matches Json::Str(_) == false);
                            }
                            return Err(decode_error("expected a string tag value"));
                        },
                    }
                    i = i + 1;
                }
                assert forall|k: int|
                    0 <= k < fields@.len() implies (#[trigger] fields@[k]).1 matches Json::Str(
                    _,
                ) by {
                    assert(entries@[k].0@ == fields@[k].0@);
                }
                Ok(TagMap { entries })
            },
            _ => Err(decode_error("expected a tag object")),
        }
    }
}

/// One longitude/latitude pair of a GeoJSON geometry, each coordinate kept as
/// the number the parser reported.
#[derive(Debug, PartialEq)]
pub struct Coord {
    pub lon: JsonNum,
    pub lat: JsonNum,
}

impl JsonDecode for Coord {
    open spec fn decodable(j: Json) -> bool {
        j matches Json::Arr(elems) && elems@.len() == 2 && JsonNum::decodable(elems@[0])
            && JsonNum::decodable(elems@[1])
    }

    open spec fn json_matches(v: Coord, j: Json) -> bool {
        j matches Json::Arr(elems) && elems@.len() == 2 && JsonNum::json_matches(v.lon, elems@[0])
            && JsonNum::json_matches(v.lat, elems@[1])
    }

    fn from_json(j: &Json) -> (r: Result<Coord, Error>) {
        match j {
            Json::Arr(elems) => {
                if elems.len() != 2 {
                    return Err(decode_error("expected a coordinate pair"));
                }
                let lon = JsonNum::from_json(&elems[0])?;
                let lat = JsonNum::from_json(&elems[1])?;
                Ok(Coord { lon, lat })
            },
            _ => Err(decode_error("expected a coordinate pair")),
        }
    }
}

/// Geometry in GeoJSON format: the geometry type tag and its coordinates.
#[derive(Debug, PartialEq)]
pub struct Geometry<C> {
    /// The GeoJSON geometry type (the object's `type` key).
    pub type_: String,
    /// The GeoJSON coordinates array.
    pub coordinates: C,
}

impl<C: JsonDecode> JsonDecode for Geometry<C> {
    open spec fn decodable(j: Json) -> bool {
        j matches Json::Obj(f) && req_ok::<String>(f@, "type"@) && req_ok::<C>(
            f@,
            "coordinates"@,
        )
    }

    open spec fn json_matches(v: Geometry<C>, j: Json) -> bool {
        j matches Json::Obj(f) && req_matches(v.type_, f@, "type"@) && req_matches(
            v.coordinates,
            f@,
            "coordinates"@,
        )
    }

    fn from_json(j: &Json) -> (r: Result<Geometry<C>, Error>) {
        match j {
            Json::Obj(f) => Ok(
                Geometry {
                    type_: get_req(f, "type")?,
                    coordinates: get_req(f, "coordinates")?,
                },
            ),
            _ => Err(decode_error("expected a geometry object")),
        }
    }
}

/// A place associated with an agency.
#[derive(Debug, PartialEq)]
pub struct Place {
    /// Best-matched city.
    pub city_name: Option<String>,
    /// Best-matched state or province.
    pub adm1_name: Option<String>,
    /// Best-matched country.
    pub adm0_name: Option<String>,
}

impl JsonDecode for Place {
    open spec fn decodable(j: Json) -> bool {
        j matches Json::Obj(f) && {
            &&& opt_ok::<String>(f@, "city_name"@)
            &&& opt_ok::<String>(f@, "adm1_name"@)
            &&& opt_ok::<String>(f@, "adm0_name"@)
        }
    }

    open spec fn json_matches(v: Place, j: Json) -> bool {
        j matches Json::Obj(f) && {
            &&& opt_matches(v.city_name, f@, "city_name"@)
            &&& opt_matches(v.adm1_name, f@, "adm1_name"@)
            &&& opt_matches(v.adm0_name, f@, "adm0_name"@)
        }
    }

    fn from_json(j: &Json) -> (r: Result<Place, Error>) {
        match j {
            Json::Obj(f) => Ok(
                Place {
                    city_name: get_opt(f, "city_name")?,
                    adm1_name: get_opt(f, "adm1_name")?,
                    adm0_name: get_opt(f, "adm0_name")?,
                },
            ),
            _ => Err(decode_error("expected a place object")),
        }
    }
}

/// Licensing information for a feed.
#[derive(Debug, PartialEq)]
pub struct License {
    /// SPDX identifier for a common license.
    pub spdx_identifier: Option<String>,
    /// URL for a custom license.
    pub url: Option<String>,
    /// Whether the feed may be used without attribution text.
    pub use_without_attribution: Option<String>,
    /// Whether derived products may be created and shared.
    pub create_derived_product: Option<String>,
    /// Whether the feed may be redistributed in its entirety.
    pub redistribution_allowed: Option<String>,
    /// Whether the feed may be used commercially.
    pub commercial_use_allowed: Option<String>,
    /// Whether modifications may be kept private.
    pub share_alike_optional: Option<String>,
    /// Attribution text consumers must include.
    pub attribution_text: Option<String>,
    /// Instructions for providing attribution.
    pub attribution_instructions: Option<String>,
}

impl JsonDecode for License {
    open spec fn decodable(j: Json) -> bool {
        j matches Json::Obj(f) && {
            &&& opt_ok::<String>(f@, "spdx_identifier"@)
            &&& opt_ok::<String>(f@, "url"@)
            &&& opt_ok::<String>(f@, "use_without_attribution"@)
            &&& opt_ok::<String>(f@, "create_derived_product"@)
            &&& opt_ok::<String>(f@, "redistribution_allowed"@)
            &&& opt_ok::<String>(f@, "commercial_use_allowed"@)
            &&& opt_ok::<String>(f@, "share_alike_optional"@)
            &&& opt_ok::<String>(f@, "attribution_text"@)
            &&& opt_ok::<String>(f@, "attribution_instructions"@)
        }
    }

    open spec fn json_matches(v: License, j: Json) -> bool {
        j matches Json::Obj(f) && {
            &&& opt_matches(v.spdx_identifier, f@, "spdx_identifier"@)
            &&& opt_matches(v.url, f@, "url"@)
            &&& opt_matches(v.use_without_attribution, f@, "use_without_attribution"@)
            &&& opt_matches(v.create_derived_product, f@, "create_derived_product"@)
            &&& opt_matches(v.redistribution_allowed, f@, "redistribution_allowed"@)
            &&& opt_matches(v.commercial_use_allowed, f@, "commercial_use_allowed"@)
            &&& opt_matches(v.share_alike_optional, f@, "share_alike_optional"@)
            &&& opt_matches(v.attribution_text, f@, "attribution_text"@)
            &&& opt_matches(v.attribution_instructions, f@, "attribution_instructions"@)
        }
    }

    fn from_json(j: &Json) -> (r: Result<License, Error>) {
        match j {
            Json::Obj(f) => Ok(
                License {
                    spdx_identifier: get_opt(f, "spdx_identifier")?,
                    url: get_opt(f, "url")?,
                    use_without_attribution: get_opt(f, "use_without_attribution")?,
                    create_derived_product: get_opt(f, "create_derived_product")?,
                    redistribution_allowed: get_opt(f, "redistribution_allowed")?,
                    commercial_use_allowed: get_opt(f, "commercial_use_allowed")?,
                    share_alike_optional: get_opt(f, "share_alike_optional")?,
                    attribution_text: get_opt(f, "attribution_text")?,
                    attribution_instructions: get_opt(f, "attribution_instructions")?,
                },
            ),
            _ => Err(decode_error("expected a license object")),
        }
    }
}

/// The data URLs associated with a feed.
#[derive(Debug, PartialEq)]
pub struct Urls {
    /// URL for the static feed that represents today's service.
    pub static_current: String,
    /// URLs for static feeds that represent past service no longer in effect.
    pub static_historic: Vec<String>,
    /// URL for static feeds that represent service planned for upcoming dates.
    pub static_planned: String,
    /// URL for GTFS Realtime VehiclePosition messages.
    pub realtime_vehicle_positions: String,
    /// URL for GTFS Realtime TripUpdate messages.
    pub realtime_trip_updates: String,
    /// URL for GTFS Realtime Alert messages.
    pub realtime_alerts: String,
}

impl JsonDecode for Urls {
    open spec fn decodable(j: Json) -> bool {
        j matches Json::Obj(f) && {
            &&& req_ok::<String>(f@, "static_current"@)
            &&& req_ok::<Vec<String>>(f@, "static_historic"@)
            &&& req_ok::<String>(f@, "static_planned"@)
            &&& req_ok::<String>(f@, "realtime_vehicle_positions"@)
            &&& req_ok::<String>(f@, "realtime_trip_updates"@)
            &&& req_ok::<String>(f@, "realtime_alerts"@)
        }
    }

    open spec fn json_matches(v: Urls, j: Json) -> bool {
        j matches Json::Obj(f) && {
            &&& req_matches(v.static_current, f@, "static_current"@)
            &&& req_matches(v.static_historic, f@, "static_historic"@)
            &&& req_matches(v.static_planned, f@, "static_planned"@)
            &&& req_matches(v.realtime_vehicle_positions, f@, "realtime_vehicle_positions"@)
            &&& req_matches(v.realtime_trip_updates, f@, "realtime_trip_updates"@)
            &&& req_matches(v.realtime_alerts, f@, "realtime_alerts"@)
        }
    }

    fn from_json(j: &Json) -> (r: Result<Urls, Error>) {
        match j {
            Json::Obj(f) => Ok(
                Urls {
                    static_current: get_req(f, "static_current")?,
                    static_historic: get_req(f, "static_historic")?,
                    static_planned: get_req(f, "static_planned")?,
                    realtime_vehicle_positions: get_req(f, "realtime_vehicle_positions")?,
                    realtime_trip_updates: get_req(f, "realtime_trip_updates")?,
                    realtime_alerts: get_req(f, "realtime_alerts")?,
                },
            ),
            _ => Err(decode_error("expected a urls object")),
        }
    }
}

/// How an authorization secret is inserted into a request to a protected
/// feed.
#[derive(Debug, Clone, Copy, PartialEq, Eq, Structural)]
pub enum AuthorizationType {
    /// The wire text is the empty string: no authorization.
    NoAuth,
    Header,
    BasicAuth,
    QueryParam,
    PathSegment,
}

/// The wire text of each authorization type.
pub open spec fn auth_type_text(a: AuthorizationType) -> Seq<char> {
    match a {
        AuthorizationType::NoAuth => ""@,
        AuthorizationType::Header => "header"@,
        AuthorizationType::BasicAuth => "basic_auth"@,
        AuthorizationType::QueryParam => "query_param"@,
        AuthorizationType::PathSegment => "path_segment"@,
    }
}

/// The authorization type a wire text names, if any.
pub open spec fn auth_type_of_text(t: Seq<char>) -> Option<AuthorizationType> {
    if t == ""@ {
        Some(AuthorizationType::NoAuth)
    } else if t == "header"@ {
        Some(AuthorizationType::Header)
    } else if t == "basic_auth"@ {
        Some(AuthorizationType::BasicAuth)
    } else if t == "query_param"@ {
        Some(AuthorizationType::QueryParam)
    } else if t == "path_segment"@ {
        Some(AuthorizationType::PathSegment)
    } else {
        None
    }
}

impl AuthorizationType {
    /// Reads an authorization type from its wire text.
    pub fn from_text(t: &str) -> (r: Option<AuthorizationType>)
        ensures
            r == auth_type_of_text(t@),
    {
        if str_eq(t, "") {
            Some(AuthorizationType::NoAuth)
        } else if str_eq(t, "header") {
            Some(AuthorizationType::Header)
        } else if str_eq(t, "basic_auth") {
            Some(AuthorizationType::BasicAuth)
        } else if str_eq(t, "query_param") {
            Some(AuthorizationType::QueryParam)
        } else if str_eq(t, "path_segment") {
            Some(AuthorizationType::PathSegment)
        } else {
            None
        }
    }
}

impl JsonDecode for AuthorizationType {
    open spec fn decodable(j: Json) -> bool {
        j matches Json::Str(s) && auth_type_of_text(s@) is Some
    }

    open spec fn json_matches(v: AuthorizationType, j: Json) -> bool {
        j matches Json::Str(s) && auth_type_of_text(s@) == Some(v)
    }

    fn from_json(j: &Json) -> (r: Result<AuthorizationType, Error>) {
        match j {
            Json::Str(s) => match AuthorizationType::from_text(s.as_str()) {
                Some(v) => Ok(v),
                None => Err(decode_error("not an authorization type name")),
            },
            _ => Err(decode_error("expected an authorization type name")),
        }
    }
}

/// How to construct an HTTP request to access a protected feed.
#[derive(Debug, PartialEq)]
pub struct Authorization {
    /// Method for inserting the authorization secret (the object's `type`
    /// key).
    pub auth_type: Option<AuthorizationType>,
    /// The query parameter name, when the method is a query parameter.
    pub param_name: Option<String>,
    /// Website to visit to sign up for an account.
    pub info_url: String,
}

impl JsonDecode for Authorization {
    open spec fn decodable(j: Json) -> bool {
        j matches Json::Obj(f) && {
            &&& opt_ok::<AuthorizationType>(f@, "type"@)
            &&& opt_ok::<String>(f@, "param_name"@)
            &&& req_ok::<String>(f@, "info_url"@)
        }
    }

    open spec fn json_matches(v: Authorization, j: Json) -> bool {
        j matches Json::Obj(f) && {
            &&& opt_matches(v.auth_type, f@, "type"@)
            &&& opt_matches(v.param_name, f@, "param_name"@)
            &&& req_matches(v.info_url, f@, "info_url"@)
        }
    }

    fn from_json(j: &Json) -> (r: Result<Authorization, Error>) {
        match j {
            Json::Obj(f) => Ok(
                Authorization {
                    auth_type: get_opt(f, "type")?,
                    param_name: get_opt(f, "param_name")?,
                    info_url: get_req(f, "info_url")?,
                },
            ),
            _ => Err(decode_error("expected an authorization object")),
        }
    }
}

/// Details on the current state of a feed: last fetch outcome and the active
/// feed version.
#[derive(Debug, PartialEq)]
pub struct FeedState {
    /// Error produced during the last fetch attempt, if any.
    pub last_fetch_error: Option<String>,
    /// Time of the last attempted fetch.
    pub last_fetched_at: Option<String>,
    /// Time of the last successful fetch that returned valid data.
    pub last_successful_fetch_at: Option<String>,
    /// The subset of fields of the active feed version.
    pub feed_version: partial::FeedVersion,
}

impl JsonDecode for FeedState {
    open spec fn decodable(j: Json) -> bool {
        j matches Json::Obj(f) && {
            &&& opt_ok::<String>(f@, "last_fetch_error"@)
            &&& opt_ok::<String>(f@, "last_fetched_at"@)
            &&& opt_ok::<String>(f@, "last_successful_fetch_at"@)
            &&& req_ok::<partial::FeedVersion>(f@, "feed_version"@)
        }
    }

    open spec fn json_matches(v: FeedState, j: Json) -> bool {
        j matches Json::Obj(f) && {
            &&& opt_matches(v.last_fetch_error, f@, "last_fetch_error"@)
            &&& opt_matches(v.last_fetched_at, f@, "last_fetched_at"@)
            &&& opt_matches(v.last_successful_fetch_at, f@, "last_successful_fetch_at"@)
            &&& req_matches(v.feed_version, f@, "feed_version"@)
        }
    }

    fn from_json(j: &Json) -> (r: Result<FeedState, Error>) {
        match j {
            Json::Obj(f) => Ok(
                FeedState {
                    last_fetch_error: get_opt(f, "last_fetch_error")?,
                    last_fetched_at: get_opt(f, "last_fetched_at")?,
                    last_successful_fetch_at: get_opt(f, "last_successful_fetch_at")?,
                    feed_version: get_req(f, "feed_version")?,
                },
            ),
            _ => Err(decode_error("expected a feed state object")),
        }
    }
}

/// Details on how to access transit information for a given feed: data URLs,
/// license information, authorization details, and feed version archives.
#[derive(Debug, PartialEq)]
pub struct Feed {
    /// Unique integer ID.
    pub id: u64,
    /// OnestopID for this feed.
    pub onestop_id: String,
    /// A common name for this feed.
    pub name: Option<String>,
    /// The feed-data format of this feed's contents.
    pub spec: Spec,
    /// Feeds sharing this value can be combined without rewriting entity IDs.
    pub feed_namespace_id: Option<String>,
    /// Associated feeds, by IDs internal to this registry instance.
    pub associated_feeds: Option<Vec<String>>,
    /// Language(s) included in this feed.
    pub languages: Option<Vec<String>>,
    /// URLs that provide data associated with this feed.
    pub urls: Urls,
    /// License information for this feed.
    pub license: License,
    /// How to construct an authorized request for a protected resource.
    pub authorization: Authorization,
    /// Geometry in GeoJSON format.
    pub geometry: Option<Geometry<Vec<Vec<Coord>>>>,
    /// The current state of this feed.
    pub feed_state: FeedState,
    /// A subset of fields for the feed versions associated with this feed.
    pub feed_versions: Vec<partial::FeedVersion>,
}

impl JsonDecode for Feed {
    open spec fn decodable(j: Json) -> bool {
        j matches Json::Obj(f) && {
            &&& req_ok::<u64>(f@, "id"@)
            &&& req_ok::<String>(f@, "onestop_id"@)
            &&& opt_ok::<String>(f@, "name"@)
            &&& req_ok::<Spec>(f@, "spec"@)
            &&& opt_ok::<String>(f@, "feed_namespace_id"@)
            &&& opt_ok::<Vec<String>>(f@, "associated_feeds"@)
            &&& opt_ok::<Vec<String>>(f@, "languages"@)
            &&& req_ok::<Urls>(f@, "urls"@)
            &&& req_ok::<License>(f@, "license"@)
            &&& req_ok::<Authorization>(f@, "authorization"@)
            &&& opt_ok::<Geometry<Vec<Vec<Coord>>>>(f@, "geometry"@)
            &&& req_ok::<FeedState>(f@, "feed_state"@)
            &&& req_ok::<Vec<partial::FeedVersion>>(f@, "feed_versions"@)
        }
    }

    open spec fn json_matches(v: Feed, j: Json) -> bool {
        j matches Json::Obj(f) && {
            &&& req_matches(v.id, f@, "id"@)
            &&& req_matches(v.onestop_id, f@, "onestop_id"@)
            &&& opt_matches(v.name, f@, "name"@)
            &&& req_matches(v.spec, f@, "spec"@)
            &&& opt_matches(v.feed_namespace_id, f@, "feed_namespace_id"@)
            &&& opt_matches(v.associated_feeds, f@, "associated_feeds"@)
            &&& opt_matches(v.languages, f@, "languages"@)
            &&& req_matches(v.urls, f@, "urls"@)
            &&& req_matches(v.license, f@, "license"@)
            &&& req_matches(v.authorization, f@, "authorization"@)
            &&& opt_matches(v.geometry, f@, "geometry"@)
            &&& req_matches(v.feed_state, f@, "feed_state"@)
            &&& req_matches(v.feed_versions, f@, "feed_versions"@)
        }
    }

    fn from_json(j: &Json) -> (r: Result<Feed, Error>) {
        match j {
            Json::Obj(f) => Ok(
                Feed {
                    id: get_req(f, "id")?,
                    onestop_id: get_req(f, "onestop_id")?,
                    name: get_opt(f, "name")?,
                    spec: get_req(f, "spec")?,
                    feed_namespace_id: get_opt(f, "feed_namespace_id")?,
                    associated_feeds: get_opt(f, "associated_feeds")?,
                    languages: get_opt(f, "languages")?,
                    urls: get_req(f, "urls")?,
                    license: get_req(f, "license")?,
                    authorization: get_req(f, "authorization")?,
                    geometry: get_opt(f, "geometry")?,
                    feed_state: get_req(f, "feed_state")?,
                    feed_versions: get_req(f, "feed_versions")?,
                },
            ),
            _ => Err(decode_error("expected a feed object")),
        }
    }
}

/// Metadata for one text file inside a feed version's archive.
#[derive(Debug, PartialEq)]
pub struct FileMetadata {
    /// File name.
    pub name: String,
    /// SHA1 of this file.
    pub sha1: String,
    /// Header row, as a comma-separated string.
    pub header: String,
    /// Number of rows, not including the header.
    pub rows: u64,
    /// Whether the file appears to be a CSV file.
    pub csv_like: bool,
    /// File size, in bytes.
    pub size: u64,
}

impl JsonDecode for FileMetadata {
    open spec fn decodable(j: Json) -> bool {
        j matches Json::Obj(f) && {
            &&& req_ok::<String>(f@, "name"@)
            &&& req_ok::<String>(f@, "sha1"@)
            &&& req_ok::<String>(f@, "header"@)
            &&& req_ok::<u64>(f@, "rows"@)
            &&& req_ok::<bool>(f@, "csv_like"@)
            &&& req_ok::<u64>(f@, "size"@)
        }
    }

    open spec fn json_matches(v: FileMetadata, j: Json) -> bool {
        j matches Json::Obj(f) && {
            &&& req_matches(v.name, f@, "name"@)
            &&& req_matches(v.sha1, f@, "sha1"@)
            &&& req_matches(v.header, f@, "header"@)
            &&& req_matches(v.rows, f@, "rows"@)
            &&& req_matches(v.csv_like, f@, "csv_like"@)
            &&& req_matches(v.size, f@, "size"@)
        }
    }

    fn from_json(j: &Json) -> (r: Result<FileMetadata, Error>) {
        match j {
            Json::Obj(f) => Ok(
                FileMetadata {
                    name: get_req(f, "name")?,
                    sha1: get_req(f, "sha1")?,
                    header: get_req(f, "header")?,
                    rows: get_req(f, "rows")?,
                    csv_like: get_req(f, "csv_like")?,
                    size: get_req(f, "size")?,
                },
            ),
            _ => Err(decode_error("expected a file metadata object")),
        }
    }
}

/// GTFS `calendar` and `calendar_dates` entities combined.
#[derive(Debug, PartialEq)]
pub struct Calendar {
    /// GTFS `service_id`.
    pub service_id: Option<String>,
    /// GTFS `start_date`.
    pub start_date: String,
    /// GTFS `end_date`.
    pub end_date: String,
    /// Dates where service is added.
    pub added_dates: Option<Vec<String>>,
    /// Dates where service is removed.
    pub removed_dates: Option<Vec<String>>,
    /// Whether this calendar was generated from `calendar_date` entries.
    pub generated: Option<bool>,
    /// GTFS `monday`; service scheduled if 1.
    pub monday: u64,
    /// GTFS `tuesday`; service scheduled if 1.
    pub tuesday: u64,
    /// GTFS `wednesday`; service scheduled if 1.
    pub wednesday: u64,
    /// GTFS `thursday`; service scheduled if 1.
    pub thursday: u64,
    /// GTFS `friday`; service scheduled if 1.
    pub friday: u64,
    /// GTFS `saturday`; service scheduled if 1.
    pub saturday: u64,
    /// GTFS `sunday`; service scheduled if 1.
    pub sunday: u64,
}

impl JsonDecode for Calendar {
    open spec fn decodable(j: Json) -> bool {
        j matches Json::Obj(f) && {
            &&& opt_ok::<String>(f@, "service_id"@)
            &&& req_ok::<String>(f@, "start_date"@)
            &&& req_ok::<String>(f@, "end_date"@)
            &&& opt_ok::<Vec<String>>(f@, "added_dates"@)
            &&& opt_ok::<Vec<String>>(f@, "removed_dates"@)
            &&& opt_ok::<bool>(f@, "generated"@)
            &&& req_ok::<u64>(f@, "monday"@)
            &&& req_ok::<u64>(f@, "tuesday"@)
            &&& req_ok::<u64>(f@, "wednesday"@)
            &&& req_ok::<u64>(f@, "thursday"@)
            &&& req_ok::<u64>(f@, "friday"@)
            &&& req_ok::<u64>(f@, "saturday"@)
            &&& req_ok::<u64>(f@, "sunday"@)
        }
    }

    open spec fn json_matches(v: Calendar, j: Json) -> bool {
        j matches Json::Obj(f) && {
            &&& opt_matches(v.service_id, f@, "service_id"@)
            &&& req_matches(v.start_date, f@, "start_date"@)
            &&& req_matches(v.end_date, f@, "end_date"@)
            &&& opt_matches(v.added_dates, f@, "added_dates"@)
            &&& opt_matches(v.removed_dates, f@, "removed_dates"@)
            &&& opt_matches(v.generated, f@, "generated"@)
            &&& req_matches(v.monday, f@, "monday"@)
            &&& req_matches(v.tuesday, f@, "tuesday"@)
            &&& req_matches(v.wednesday, f@, "wednesday"@)
            &&& req_matches(v.thursday, f@, "thursday"@)
            &&& req_matches(v.friday, f@, "friday"@)
            &&& req_matches(v.saturday, f@, "saturday"@)
            &&& req_matches(v.sunday, f@, "sunday"@)
        }
    }

    fn from_json(j: &Json) -> (r: Result<Calendar, Error>) {
        match j {
            Json::Obj(f) => Ok(
                Calendar {
                    service_id: get_opt(f, "service_id")?,
                    start_date: get_req(f, "start_date")?,
                    end_date: get_req(f, "end_date")?,
                    added_dates: get_opt(f, "added_dates")?,
                    removed_dates: get_opt(f, "removed_dates")?,
                    generated: get_opt(f, "generated")?,
                    monday: get_req(f, "monday")?,
                    tuesday: get_req(f, "tuesday")?,
                    wednesday: get_req(f, "wednesday")?,
                    thursday: get_req(f, "thursday")?,
                    friday: get_req(f, "friday")?,
                    saturday: get_req(f, "saturday")?,
                    sunday: get_req(f, "sunday")?,
                },
            ),
            _ => Err(decode_error("expected a calendar object")),
        }
    }
}

/// A GTFS file published at a particular point in time, addressed by the
/// SHA1 checksum of the archive.
#[derive(Debug, PartialEq)]
pub struct FeedVersion {
    /// Unique integer ID.
    pub id: Option<u64>,
    /// SHA1 hash of the zip file.
    pub sha1: Option<String>,
    /// Time when the file was fetched from the URL.
    pub fetched_at: String,
    /// URL used to fetch the file.
    pub url: Option<String>,
    /// The earliest date with scheduled service.
    pub earliest_calendar_date: Option<String>,
    /// The latest date with scheduled service.
    pub latest_calendar_date: Option<String>,
    /// Metadata for each text file in the archive's main directory.
    pub files: Option<Vec<FileMetadata>>,
    /// Available service levels.
    pub service_levels: Vec<Calendar>,
    /// A subset of fields for the feed this version belongs to.
    pub feed: partial::Feed,
}

impl JsonDecode for FeedVersion {
    open spec fn decodable(j: Json) -> bool {
        j matches Json::Obj(f) && {
            &&& opt_ok::<u64>(f@, "id"@)
            &&& opt_ok::<String>(f@, "sha1"@)
            &&& req_ok::<String>(f@, "fetched_at"@)
            &&& opt_ok::<String>(f@, "url"@)
            &&& opt_ok::<String>(f@, "earliest_calendar_date"@)
            &&& opt_ok::<String>(f@, "latest_calendar_date"@)
            &&& opt_ok::<Vec<FileMetadata>>(f@, "files"@)
            &&& req_ok::<Vec<Calendar>>(f@, "service_levels"@)
            &&& req_ok::<partial::Feed>(f@, "feed"@)
        }
    }

    open spec fn json_matches(v: FeedVersion, j: Json) -> bool {
        j matches Json::Obj(f) && {
            &&& opt_matches(v.id, f@, "id"@)
            &&& opt_matches(v.sha1, f@, "sha1"@)
            &&& req_matches(v.fetched_at, f@, "fetched_at"@)
            &&& opt_matches(v.url, f@, "url"@)
            &&& opt_matches(v.earliest_calendar_date, f@, "earliest_calendar_date"@)
            &&& opt_matches(v.latest_calendar_date, f@, "latest_calendar_date"@)
            &&& opt_matches(v.files, f@, "files"@)
            &&& req_matches(v.service_levels, f@, "service_levels"@)
            &&& req_matches(v.feed, f@, "feed"@)
        }
    }

    fn from_json(j: &Json) -> (r: Result<FeedVersion, Error>) {
        match j {
            Json::Obj(f) => Ok(
                FeedVersion {
                    id: get_opt(f, "id")?,
                    sha1: get_opt(f, "sha1")?,
                    fetched_at: get_req(f, "fetched_at")?,
                    url: get_opt(f, "url")?,
                    earliest_calendar_date: get_opt(f, "earliest_calendar_date")?,
                    latest_calendar_date: get_opt(f, "latest_calendar_date")?,
                    files: get_opt(f, "files")?,
                    service_levels: get_req(f, "service_levels")?,
                    feed: get_req(f, "feed")?,
                },
            ),
            _ => Err(decode_error("expected a feed version object")),
        }
    }
}

/// One operator's service within one feed version, as imported from a GTFS
/// `agencies.txt` entity.
#[derive(Debug, PartialEq)]
pub struct Agency {
    /// Unique integer ID.
    pub id: u64,
    /// OnestopID for this agency, if available.
    pub onestop_id: Option<String>,
    /// GTFS `agency_id`.
    pub agency_id: Option<String>,
    /// GTFS `agency_name`.
    pub agency_name: Option<String>,
    /// GTFS `agency_url`.
    pub agency_url: Option<String>,
    /// GTFS `agency_timezone`.
    pub agency_timezone: Option<String>,
    /// GTFS `agency_lang`.
    pub agency_lang: Option<String>,
    /// GTFS `agency_phone`.
    pub agency_phone: Option<String>,
    /// GTFS `agency_fare_url`.
    pub agency_fare_url: Option<String>,
    /// GTFS `agency_email`.
    pub agency_email: Option<String>,
    /// Geometry in GeoJSON format.
    pub geometry: Option<Geometry<Vec<Vec<Coord>>>>,
    /// Subset of fields for the matched operator, if any.
    pub operator: Option<partial::Operator>,
    /// Places associated with this agency.
    pub places: Option<Vec<Place>>,
    /// A subset of fields for the source feed version.
    pub feed_version: Option<partial::FeedVersion>,
    /// A subset of fields for the routes of this agency.
    pub routes: Option<Vec<partial::Route>>,
}

impl JsonDecode for Agency {
    open spec fn decodable(j: Json) -> bool {
        j matches Json::Obj(f) && {
            &&& req_ok::<u64>(f@, "id"@)
            &&& opt_ok::<String>(f@, "onestop_id"@)
            &&& opt_ok::<String>(f@, "agency_id"@)
            &&& opt_ok::<String>(f@, "agency_name"@)
            &&& opt_ok::<String>(f@, "agency_url"@)
            &&& opt_ok::<String>(f@, "agency_timezone"@)
            &&& opt_ok::<String>(f@, "agency_lang"@)
            &&& opt_ok::<String>(f@, "agency_phone"@)
            &&& opt_ok::<String>(f@, "agency_fare_url"@)
            &&& opt_ok::<String>(f@, "agency_email"@)
            &&& opt_ok::<Geometry<Vec<Vec<Coord>>>>(f@, "geometry"@)
            &&& opt_ok::<partial::Operator>(f@, "operator"@)
            &&& opt_ok::<Vec<Place>>(f@, "places"@)
            &&& opt_ok::<partial::FeedVersion>(f@, "feed_version"@)
            &&& opt_ok::<Vec<partial::Route>>(f@, "routes"@)
        }
    }

    open spec fn json_matches(v: Agency, j: Json) -> bool {
        j matches Json::Obj(f) && {
            &&& req_matches(v.id, f@, "id"@)
            &&& opt_matches(v.onestop_id, f@, "onestop_id"@)
            &&& opt_matches(v.agency_id, f@, "agency_id"@)
            &&& opt_matches(v.agency_name, f@, "agency_name"@)
            &&& opt_matches(v.agency_url, f@, "agency_url"@)
            &&& opt_matches(v.agency_timezone, f@, "agency_timezone"@)
            &&& opt_matches(v.agency_lang, f@, "agency_lang"@)
            &&& opt_matches(v.agency_phone, f@, "agency_phone"@)
            &&& opt_matches(v.agency_fare_url, f@, "agency_fare_url"@)
            &&& opt_matches(v.agency_email, f@, "agency_email"@)
            &&& opt_matches(v.geometry, f@, "geometry"@)
            &&& opt_matches(v.operator, f@, "operator"@)
            &&& opt_matches(v.places, f@, "places"@)
            &&& opt_matches(v.feed_version, f@, "feed_version"@)
            &&& opt_matches(v.routes, f@, "routes"@)
        }
    }

    fn from_json(j: &Json) -> (r: Result<Agency, Error>) {
        match j {
            Json::Obj(f) => Ok(
                Agency {
                    id: get_req(f, "id")?,
                    onestop_id: get_opt(f, "onestop_id")?,
                    agency_id: get_opt(f, "agency_id")?,
                    agency_name: get_opt(f, "agency_name")?,
                    agency_url: get_opt(f, "agency_url")?,
                    agency_timezone: get_opt(f, "agency_timezone")?,
                    agency_lang: get_opt(f, "agency_lang")?,
                    agency_phone: get_opt(f, "agency_phone")?,
                    agency_fare_url: get_opt(f, "agency_fare_url")?,
                    agency_email: get_opt(f, "agency_email")?,
                    geometry: get_opt(f, "geometry")?,
                    operator: get_opt(f, "operator")?,
                    places: get_opt(f, "places")?,
                    feed_version: get_opt(f, "feed_version")?,
                    routes: get_opt(f, "routes")?,
                },
            ),
            _ => Err(decode_error("expected an agency object")),
        }
    }
}

/// A higher-level grouping of agencies across one or more source feeds.
#[derive(Debug, PartialEq)]
pub struct Operator {
    /// Unique integer ID.
    pub id: u64,
    /// OnestopID for this operator.
    pub onestop_id: String,
    /// Operator name.
    pub name: Option<String>,
    /// Operator short name.
    pub short_name: Option<String>,
    /// Operator website.
    pub website: Option<String>,
    /// Operator tags.
    pub tags: Option<TagMap>,
    /// Subset of fields for the matching agencies.
    pub agencies: Option<Vec<partial::Agency>>,
}

impl JsonDecode for Operator {
    open spec fn decodable(j: Json) -> bool {
        j matches Json::Obj(f) && {
            &&& req_ok::<u64>(f@, "id"@)
            &&& req_ok::<String>(f@, "onestop_id"@)
            &&& opt_ok::<String>(f@, "name"@)
            &&& opt_ok::<String>(f@, "short_name"@)
            &&& opt_ok::<String>(f@, "website"@)
            &&& opt_ok::<TagMap>(f@, "tags"@)
            &&& opt_ok::<Vec<partial::Agency>>(f@, "agencies"@)
        }
    }

    open spec fn json_matches(v: Operator, j: Json) -> bool {
        j matches Json::Obj(f) && {
            &&& req_matches(v.id, f@, "id"@)
            &&& req_matches(v.onestop_id, f@, "onestop_id"@)
            &&& opt_matches(v.name, f@, "name"@)
            &&& opt_matches(v.short_name, f@, "short_name"@)
            &&& opt_matches(v.website, f@, "website"@)
            &&& opt_matches(v.tags, f@, "tags"@)
            &&& opt_matches(v.agencies, f@, "agencies"@)
        }
    }

    fn from_json(j: &Json) -> (r: Result<Operator, Error>) {
        match j {
            Json::Obj(f) => Ok(
                Operator {
                    id: get_req(f, "id")?,
                    onestop_id: get_req(f, "onestop_id")?,
                    name: get_opt(f, "name")?,
                    short_name: get_opt(f, "short_name")?,
                    website: get_opt(f, "website")?,
                    tags: get_opt(f, "tags")?,
                    agencies: get_opt(f, "agencies")?,
                },
            ),
            _ => Err(decode_error("expected an operator object")),
        }
    }
}

/// A GTFS level, for stops inside station complexes.
#[derive(Debug, PartialEq)]
pub struct GTFSLevel {
    /// GTFS `level_id`.
    pub level_id: String,
    /// GTFS `level_name`.
    pub level_name: String,
    /// GTFS `level_index`.
    pub level_index: String,
}

impl JsonDecode for GTFSLevel {
    open spec fn decodable(j: Json) -> bool {
        j matches Json::Obj(f) && {
            &&& req_ok::<String>(f@, "level_id"@)
            &&& req_ok::<String>(f@, "level_name"@)
            &&& req_ok::<String>(f@, "level_index"@)
        }
    }

    open spec fn json_matches(v: GTFSLevel, j: Json) -> bool {
        j matches Json::Obj(f) && {
            &&& req_matches(v.level_id, f@, "level_id"@)
            &&& req_matches(v.level_name, f@, "level_name"@)
            &&& req_matches(v.level_index, f@, "level_index"@)
        }
    }

    fn from_json(j: &Json) -> (r: Result<GTFSLevel, Error>) {
        match j {
            Json::Obj(f) => Ok(
                GTFSLevel {
                    level_id: get_req(f, "level_id")?,
                    level_name: get_req(f, "level_name")?,
                    level_index: get_req(f, "level_index")?,
                },
            ),
            _ => Err(decode_error("expected a level object")),
        }
    }
}

/// A GTFS `stops.txt` entity: a physical or logical transit location.
#[derive(Debug, PartialEq)]
pub struct Stop {
    /// Unique integer ID.
    pub id: u64,
    /// OnestopID for this stop, if available.
    pub onestop_id: Option<String>,
    /// GTFS `stop_id`.
    pub stop_id: Option<String>,
    /// GTFS `stop_name`.
    pub stop_name: Option<String>,
    /// GTFS `stop_desc`.
    pub stop_desc: Option<String>,
    /// GTFS `stop_url`.
    pub stop_url: Option<String>,
    /// GTFS `stop_timezone`.
    pub stop_timezone: Option<String>,
    /// GTFS `stop_code`.
    pub stop_code: Option<String>,
    /// GTFS `zone_id`.
    pub zone_id: Option<String>,
    /// GTFS `wheelchair_boarding`.
    pub wheelchair_boarding: Option<u64>,
    /// GTFS `location_type`.
    pub location_type: Option<u64>,
    /// A subset of fields for this stop's feed version.
    pub feed_version: Option<partial::FeedVersion>,
    /// GTFS level, for stops inside station complexes.
    pub level: Option<GTFSLevel>,
    /// A subset of fields for the routes that visit this stop.
    pub route_stops: Option<Vec<partial::Route>>,
    /// The stop's location in GeoJSON format.
    pub geometry: Geometry<Coord>,
}

impl JsonDecode for Stop {
    open spec fn decodable(j: Json) -> bool {
        j matches Json::Obj(f) && {
            &&& req_ok::<u64>(f@, "id"@)
            &&& opt_ok::<String>(f@, "onestop_id"@)
            &&& opt_ok::<String>(f@, "stop_id"@)
            &&& opt_ok::<String>(f@, "stop_name"@)
            &&& opt_ok::<String>(f@, "stop_desc"@)
            &&& opt_ok::<String>(f@, "stop_url"@)
            &&& opt_ok::<String>(f@, "stop_timezone"@)
            &&& opt_ok::<String>(f@, "stop_code"@)
            &&& opt_ok::<String>(f@, "zone_id"@)
            &&& opt_ok::<u64>(f@, "wheelchair_boarding"@)
            &&& opt_ok::<u64>(f@, "location_type"@)
            &&& opt_ok::<partial::FeedVersion>(f@, "feed_version"@)
            &&& opt_ok::<GTFSLevel>(f@, "level"@)
            &&& opt_ok::<Vec<partial::Route>>(f@, "route_stops"@)
            &&& req_ok::<Geometry<Coord>>(f@, "geometry"@)
        }
    }

    open spec fn json_matches(v: Stop, j: Json) -> bool {
        j matches Json::Obj(f) && {
            &&& req_matches(v.id, f@, "id"@)
            &&& opt_matches(v.onestop_id, f@, "onestop_id"@)
            &&& opt_matches(v.stop_id, f@, "stop_id"@)
            &&& opt_matches(v.stop_name, f@, "stop_name"@)
            &&& opt_matches(v.stop_desc, f@, "stop_desc"@)
            &&& opt_matches(v.stop_url, f@, "stop_url"@)
            &&& opt_matches(v.stop_timezone, f@, "stop_timezone"@)
            &&& opt_matches(v.stop_code, f@, "stop_code"@)
            &&& opt_matches(v.zone_id, f@, "zone_id"@)
            &&& opt_matches(v.wheelchair_boarding, f@, "wheelchair_boarding"@)
            &&& opt_matches(v.location_type, f@, "location_type"@)
            &&& opt_matches(v.feed_version, f@, "feed_version"@)
            &&& opt_matches(v.level, f@, "level"@)
            &&& opt_matches(v.route_stops, f@, "route_stops"@)
            &&& req_matches(v.geometry, f@, "geometry"@)
        }
    }

    fn from_json(j: &Json) -> (r: Result<Stop, Error>) {
        match j {
            Json::Obj(f) => Ok(
                Stop {
                    id: get_req(f, "id")?,
                    onestop_id: get_opt(f, "onestop_id")?,
                    stop_id: get_opt(f, "stop_id")?,
                    stop_name: get_opt(f, "stop_name")?,
                    stop_desc: get_opt(f, "stop_desc")?,
                    stop_url: get_opt(f, "stop_url")?,
                    stop_timezone: get_opt(f, "stop_timezone")?,
                    stop_code: get_opt(f, "stop_code")?,
                    zone_id: get_opt(f, "zone_id")?,
                    wheelchair_boarding: get_opt(f, "wheelchair_boarding")?,
                    location_type: get_opt(f, "location_type")?,
                    feed_version: get_opt(f, "feed_version")?,
                    level: get_opt(f, "level")?,
                    route_stops: get_opt(f, "route_stops")?,
                    geometry: get_req(f, "geometry")?,
                },
            ),
            _ => Err(decode_error("expected a stop object")),
        }
    }
}

/// A GTFS `routes.txt` entity: a named transit line, a collection of trips.
#[derive(Debug, PartialEq)]
pub struct Route {
    /// Unique integer ID.
    pub id: u64,
    /// OnestopID for this route.
    pub onestop_id: String,
    /// GTFS `route_id`.
    pub route_id: Option<String>,
    /// GTFS `route_type`.
    pub route_type: Option<u64>,
    /// GTFS `route_short_name`.
    pub route_short_name: Option<String>,
    /// GTFS `route_long_name`.
    pub route_long_name: Option<String>,
    /// GTFS `route_color`.
    pub route_color: String,
    /// GTFS `route_text_color`.
    pub route_text_color: String,
    /// GTFS `route_sort_order`.
    pub route_sort_order: u64,
    /// A subset of fields for this route's agency.
    pub agency: partial::Agency,
    /// A subset of fields for this route's feed version.
    pub feed_version: Option<partial::FeedVersion>,
    /// The stops visited by this route.
    pub route_stops: Option<Vec<Stop>>,
}

impl JsonDecode for Route {
    open spec fn decodable(j: Json) -> bool {
        j matches Json::Obj(f) && {
            &&& req_ok::<u64>(f@, "id"@)
            &&& req_ok::<String>(f@, "onestop_id"@)
            &&& opt_ok::<String>(f@, "route_id"@)
            &&& opt_ok::<u64>(f@, "route_type"@)
            &&& opt_ok::<String>(f@, "route_short_name"@)
            &&& opt_ok::<String>(f@, "route_long_name"@)
            &&& req_ok::<String>(f@, "route_color"@)
            &&& req_ok::<String>(f@, "route_text_color"@)
            &&& req_ok::<u64>(f@, "route_sort_order"@)
            &&& req_ok::<partial::Agency>(f@, "agency"@)
            &&& opt_ok::<partial::FeedVersion>(f@, "feed_version"@)
            &&& opt_ok::<Vec<Stop>>(f@, "route_stops"@)
        }
    }

    open spec fn json_matches(v: Route, j: Json) -> bool {
        j matches Json::Obj(f) && {
            &&& req_matches(v.id, f@, "id"@)
            &&& req_matches(v.onestop_id, f@, "onestop_id"@)
            &&& opt_matches(v.route_id, f@, "route_id"@)
            &&& opt_matches(v.route_type, f@, "route_type"@)
            &&& opt_matches(v.route_short_name, f@, "route_short_name"@)
            &&& opt_matches(v.route_long_name, f@, "route_long_name"@)
            &&& req_matches(v.route_color, f@, "route_color"@)
            &&& req_matches(v.route_text_color, f@, "route_text_color"@)
            &&& req_matches(v.route_sort_order, f@, "route_sort_order"@)
            &&& req_matches(v.agency, f@, "agency"@)
            &&& opt_matches(v.feed_version, f@, "feed_version"@)
            &&& opt_matches(v.route_stops, f@, "route_stops"@)
        }
    }

    fn from_json(j: &Json) -> (r: Result<Route, Error>) {
        match j {
            Json::Obj(f) => Ok(
                Route {
                    id: get_req(f, "id")?,
                    onestop_id: get_req(f, "onestop_id")?,
                    route_id: get_opt(f, "route_id")?,
                    route_type: get_opt(f, "route_type")?,
                    route_short_name: get_opt(f, "route_short_name")?,
                    route_long_name: get_opt(f, "route_long_name")?,
                    route_color: get_req(f, "route_color")?,
                    route_text_color: get_req(f, "route_text_color")?,
                    route_sort_order: get_req(f, "route_sort_order")?,
                    agency: get_req(f, "agency")?,
                    feed_version: get_opt(f, "feed_version")?,
                    route_stops: get_opt(f, "route_stops")?,
                },
            ),
            _ => Err(decode_error("expected a route object")),
        }
    }
}

/// A modified GTFS `stop_time` entity: one scheduled stop of a trip.
#[derive(Debug, PartialEq)]
pub struct StopTime {
    /// Arrival time, in seconds since midnight.
    pub arrival_time: u64,
    /// Departure time, in seconds since midnight.
    pub departure_time: u64,
    /// GTFS `stop_sequence`.
    pub stop_sequence: u64,
    /// GTFS `stop_headsign`.
    pub stop_headsign: String,
    /// GTFS `pickup_type`.
    pub pickup_type: u64,
    /// GTFS `drop_off_type`.
    pub drop_off_type: u64,
    /// GTFS `timepoint`.
    pub timepoint: u64,
    /// GTFS `shape_dist_traveled`; may be fractional.
    pub shape_dist_traveled: JsonNum,
    /// Non-zero if interpolated time values were set during import.
    pub interpolated: u64,
}

impl JsonDecode for StopTime {
    open spec fn decodable(j: Json) -> bool {
        j matches Json::Obj(f) && {
            &&& req_ok::<u64>(f@, "arrival_time"@)
            &&& req_ok::<u64>(f@, "departure_time"@)
            &&& req_ok::<u64>(f@, "stop_sequence"@)
            &&& req_ok::<String>(f@, "stop_headsign"@)
            &&& req_ok::<u64>(f@, "pickup_type"@)
            &&& req_ok::<u64>(f@, "drop_off_type"@)
            &&& req_ok::<u64>(f@, "timepoint"@)
            &&& req_ok::<JsonNum>(f@, "shape_dist_traveled"@)
            &&& req_ok::<u64>(f@, "interpolated"@)
        }
    }

    open spec fn json_matches(v: StopTime, j: Json) -> bool {
        j matches Json::Obj(f) && {
            &&& req_matches(v.arrival_time, f@, "arrival_time"@)
            &&& req_matches(v.departure_time, f@, "departure_time"@)
            &&& req_matches(v.stop_sequence, f@, "stop_sequence"@)
            &&& req_matches(v.stop_headsign, f@, "stop_headsign"@)
            &&& req_matches(v.pickup_type, f@, "pickup_type"@)
            &&& req_matches(v.drop_off_type, f@, "drop_off_type"@)
            &&& req_matches(v.timepoint, f@, "timepoint"@)
            &&& req_matches(v.shape_dist_traveled, f@, "shape_dist_traveled"@)
            &&& req_matches(v.interpolated, f@, "interpolated"@)
        }
    }

    fn from_json(j: &Json) -> (r: Result<StopTime, Error>) {
        match j {
            Json::Obj(f) => Ok(
                StopTime {
                    arrival_time: get_req(f, "arrival_time")?,
                    departure_time: get_req(f, "departure_time")?,
                    stop_sequence: get_req(f, "stop_sequence")?,
                    stop_headsign: get_req(f, "stop_headsign")?,
                    pickup_type: get_req(f, "pickup_type")?,
                    drop_off_type: get_req(f, "drop_off_type")?,
                    timepoint: get_req(f, "timepoint")?,
                    shape_dist_traveled: get_req(f, "shape_dist_traveled")?,
                    interpolated: get_req(f, "interpolated")?,
                },
            ),
            _ => Err(decode_error("expected a stop time object")),
        }
    }
}

/// The shape of a trip.
#[derive(Debug, PartialEq)]
pub struct Shape {
    /// GTFS `shape_id`.
    pub shape_id: String,
    /// Whether this shape was generated from point-to-point stop locations.
    pub generated: bool,
}

impl JsonDecode for Shape {
    open spec fn decodable(j: Json) -> bool {
        j matches Json::Obj(f) && {
            &&& req_ok::<String>(f@, "shape_id"@)
            &&& req_ok::<bool>(f@, "generated"@)
        }
    }

    open spec fn json_matches(v: Shape, j: Json) -> bool {
        j matches Json::Obj(f) && {
            &&& req_matches(v.shape_id, f@, "shape_id"@)
            &&& req_matches(v.generated, f@, "generated"@)
        }
    }

    fn from_json(j: &Json) -> (r: Result<Shape, Error>) {
        match j {
            Json::Obj(f) => Ok(
                Shape { shape_id: get_req(f, "shape_id")?, generated: get_req(f, "generated")? },
            ),
            _ => Err(decode_error("expected a shape object")),
        }
    }
}

/// A single GTFS `frequencies` entity.
#[derive(Debug, PartialEq)]
pub struct Frequency {
    /// When this trip begins repeating, in seconds.
    pub start_time: u64,
    /// When this trip stops repeating, in seconds.
    pub end_time: u64,
    /// GTFS `headway_secs`.
    pub headway_secs: u64,
    /// GTFS `exact_times`.
    pub exact_times: u64,
}

impl JsonDecode for Frequency {
    open spec fn decodable(j: Json) -> bool {
        j matches Json::Obj(f) && {
            &&& req_ok::<u64>(f@, "start_time"@)
            &&& req_ok::<u64>(f@, "end_time"@)
            &&& req_ok::<u64>(f@, "headway_secs"@)
            &&& req_ok::<u64>(f@, "exact_times"@)
        }
    }

    open spec fn json_matches(v: Frequency, j: Json) -> bool {
        j matches Json::Obj(f) && {
            &&& req_matches(v.start_time, f@, "start_time"@)
            &&& req_matches(v.end_time, f@, "end_time"@)
            &&& req_matches(v.headway_secs, f@, "headway_secs"@)
            &&& req_matches(v.exact_times, f@, "exact_times"@)
        }
    }

    fn from_json(j: &Json) -> (r: Result<Frequency, Error>) {
        match j {
            Json::Obj(f) => Ok(
                Frequency {
                    start_time: get_req(f, "start_time")?,
                    end_time: get_req(f, "end_time")?,
                    headway_secs: get_req(f, "headway_secs")?,
                    exact_times: get_req(f, "exact_times")?,
                },
            ),
            _ => Err(decode_error("expected a frequency object")),
        }
    }
}

/// A GTFS `trips.txt` entity: a single scheduled vehicle run, with its
/// associated shape, calendar, frequency, and stop departure information.
#[derive(Debug, PartialEq)]
pub struct Trip {
    /// Unique integer ID.
    pub id: u64,
    /// GTFS `trip_id`.
    pub trip_id: Option<String>,
    /// GTFS `trip_headsign`.
    pub trip_headsign: Option<String>,
    /// GTFS `trip_short_name`.
    pub trip_short_name: Option<String>,
    /// GTFS `direction_id`.
    pub direction_id: Option<u64>,
    /// GTFS `block_id`.
    pub block_id: Option<String>,
    /// GTFS `wheelchair_accessible`.
    pub wheelchair_accessible: Option<u64>,
    /// GTFS `bikes_allowed`.
    pub bikes_allowed: Option<u64>,
    /// Pattern of stops for this trip; unique within the feed version.
    pub stop_pattern_id: Option<u64>,
    /// GTFS `stop_time` entities, with some modifications.
    pub stop_times: Option<Vec<StopTime>>,
    /// The shape of this trip.
    pub shape: Shape,
    /// GTFS `calendar` and `calendar_dates` entities.
    pub calendar: Calendar,
    /// GTFS `frequencies` entities.
    pub frequencies: Vec<Frequency>,
    /// A subset of fields for the route of this trip.
    pub route: Option<partial::Route>,
    /// A subset of fields for the feed version.
    pub feed_version: partial::FeedVersion,
}

impl JsonDecode for Trip {
    open spec fn decodable(j: Json) -> bool {
        j matches Json::Obj(f) && {
            &&& req_ok::<u64>(f@, "id"@)
            &&& opt_ok::<String>(f@, "trip_id"@)
            &&& opt_ok::<String>(f@, "trip_headsign"@)
            &&& opt_ok::<String>(f@, "trip_short_name"@)
            &&& opt_ok::<u64>(f@, "direction_id"@)
            &&& opt_ok::<String>(f@, "block_id"@)
            &&& opt_ok::<u64>(f@, "wheelchair_accessible"@)
            &&& opt_ok::<u64>(f@, "bikes_allowed"@)
            &&& opt_ok::<u64>(f@, "stop_pattern_id"@)
            &&& opt_ok::<Vec<StopTime>>(f@, "stop_times"@)
            &&& req_ok::<Shape>(f@, "shape"@)
            &&& req_ok::<Calendar>(f@, "calendar"@)
            &&& req_ok::<Vec<Frequency>>(f@, "frequencies"@)
            &&& opt_ok::<partial::Route>(f@, "route"@)
            &&& req_ok::<partial::FeedVersion>(f@, "feed_version"@)
        }
    }

    open spec fn json_matches(v: Trip, j: Json) -> bool {
        j matches Json::Obj(f) && {
            &&& req_matches(v.id, f@, "id"@)
            &&& opt_matches(v.trip_id, f@, "trip_id"@)
            &&& opt_matches(v.trip_headsign, f@, "trip_headsign"@)
            &&& opt_matches(v.trip_short_name, f@, "trip_short_name"@)
            &&& opt_matches(v.direction_id, f@, "direction_id"@)
            &&& opt_matches(v.block_id, f@, "block_id"@)
            &&& opt_matches(v.wheelchair_accessible, f@, "wheelchair_accessible"@)
            &&& opt_matches(v.bikes_allowed, f@, "bikes_allowed"@)
            &&& opt_matches(v.stop_pattern_id, f@, "stop_pattern_id"@)
            &&& opt_matches(v.stop_times, f@, "stop_times"@)
            &&& req_matches(v.shape, f@, "shape"@)
            &&& req_matches(v.calendar, f@, "calendar"@)
            &&& req_matches(v.frequencies, f@, "frequencies"@)
            &&& opt_matches(v.route, f@, "route"@)
            &&& req_matches(v.feed_version, f@, "feed_version"@)
        }
    }

    fn from_json(j: &Json) -> (r: Result<Trip, Error>) {
        match j {
            Json::Obj(f) => Ok(
                Trip {
                    id: get_req(f, "id")?,
                    trip_id: get_opt(f, "trip_id")?,
                    trip_headsign: get_opt(f, "trip_headsign")?,
                    trip_short_name: get_opt(f, "trip_short_name")?,
                    direction_id: get_opt(f, "direction_id")?,
                    block_id: get_opt(f, "block_id")?,
                    wheelchair_accessible: get_opt(f, "wheelchair_accessible")?,
                    bikes_allowed: get_opt(f, "bikes_allowed")?,
                    stop_pattern_id: get_opt(f, "stop_pattern_id")?,
                    stop_times: get_opt(f, "stop_times")?,
                    shape: get_req(f, "shape")?,
                    calendar: get_req(f, "calendar")?,
                    frequencies: get_req(f, "frequencies")?,
                    route: get_opt(f, "route")?,
                    feed_version: get_req(f, "feed_version")?,
                },
            ),
            _ => Err(decode_error("expected a trip object")),
        }
    }
}

impl TransitlandObject<()> for Feed {
    open spec fn spec_query_path(parent: ()) -> Seq<char> {
        "feeds"@
    }

    open spec fn spec_by_id_path(parent: ()) -> Seq<char> {
        "feeds"@
    }

    fn query_path(parent: ()) -> (r: String) {
        String::from_str("feeds")
    }

    fn by_id_path(parent: ()) -> (r: String) {
        String::from_str("feeds")
    }
}

impl TransitlandObject<()> for FeedVersion {
    open spec fn spec_query_path(parent: ()) -> Seq<char> {
        "feed_versions"@
    }

    open spec fn spec_by_id_path(parent: ()) -> Seq<char> {
        "feed_versions"@
    }

    fn query_path(parent: ()) -> (r: String) {
        String::from_str("feed_versions")
    }

    fn by_id_path(parent: ()) -> (r: String) {
        String::from_str("feed_versions")
    }
}

impl TransitlandObject<()> for Agency {
    open spec fn spec_query_path(parent: ()) -> Seq<char> {
        "agencies"@
    }

    open spec fn spec_by_id_path(parent: ()) -> Seq<char> {
        "agencies"@
    }

    fn query_path(parent: ()) -> (r: String) {
        String::from_str("agencies")
    }

    fn by_id_path(parent: ()) -> (r: String) {
        String::from_str("agencies")
    }
}

impl TransitlandObject<()> for Operator {
    open spec fn spec_query_path(parent: ()) -> Seq<char> {
        "operators"@
    }

    open spec fn spec_by_id_path(parent: ()) -> Seq<char> {
        "operators"@
    }

    fn query_path(parent: ()) -> (r: String) {
        String::from_str("operators")
    }

    fn by_id_path(parent: ()) -> (r: String) {
        String::from_str("operators")
    }
}

impl TransitlandObject<()> for Route {
    open spec fn spec_query_path(parent: ()) -> Seq<char> {
        "routes"@
    }

    open spec fn spec_by_id_path(parent: ()) -> Seq<char> {
        "routes"@
    }

    fn query_path(parent: ()) -> (r: String) {
        String::from_str("routes")
    }

    fn by_id_path(parent: ()) -> (r: String) {
        String::from_str("routes")
    }
}

impl TransitlandObject<()> for Stop {
    open spec fn spec_query_path(parent: ()) -> Seq<char> {
        "stops"@
    }

    open spec fn spec_by_id_path(parent: ()) -> Seq<char> {
        "stops"@
    }

    fn query_path(parent: ()) -> (r: String) {
        String::from_str("stops")
    }

    fn by_id_path(parent: ()) -> (r: String) {
        String::from_str("stops")
    }
}

/// Trips are nested under their route: both paths embed the route's key, and
/// they coincide because the API exposes no separate by-identifier sub-route
/// (the caller appends the trip key itself).
impl TransitlandObject<u64> for Trip {
    open spec fn spec_query_path(route_key: u64) -> Seq<char> {
        "routes/"@ + dec_str(route_key as nat) + "/trips"@
    }

    open spec fn spec_by_id_path(route_key: u64) -> Seq<char> {
        "routes/"@ + dec_str(route_key as nat) + "/trips"@
    }

    fn query_path(route_key: u64) -> (r: String) {
        let mut s = String::from_str("routes/");
        let id = u64_to_string(route_key);
        s.append(id.as_str());
        s.append("/trips");
        assert(s@ =~= "routes/"@ + dec_str(route_key as nat) + "/trips"@);
        s
    }

    fn by_id_path(route_key: u64) -> (r: String) {
        let mut s = String::from_str("routes/");
        let id = u64_to_string(route_key);
        s.append(id.as_str());
        s.append("/trips");
        assert(s@ =~= "routes/"@ + dec_str(route_key as nat) + "/trips"@);
        s
    }
}

/// Law: every top-level resource's collection-query path and by-identifier
/// path are its fixed collection noun.
pub proof fn lemma_top_level_paths()
    ensures
        <Feed as TransitlandObject<()>>::spec_query_path(()) == "feeds"@,
        <Feed as TransitlandObject<()>>::spec_by_id_path(()) == "feeds"@,
        <FeedVersion as TransitlandObject<()>>::spec_query_path(()) == "feed_versions"@,
        <FeedVersion as TransitlandObject<()>>::spec_by_id_path(()) == "feed_versions"@,
        <Agency as TransitlandObject<()>>::spec_query_path(()) == "agencies"@,
        <Agency as TransitlandObject<()>>::spec_by_id_path(()) == "agencies"@,
        <Operator as TransitlandObject<()>>::spec_query_path(()) == "operators"@,
        <Operator as TransitlandObject<()>>::spec_by_id_path(()) == "operators"@,
        <Route as TransitlandObject<()>>::spec_query_path(()) == "routes"@,
        <Route as TransitlandObject<()>>::spec_by_id_path(()) == "routes"@,
        <Stop as TransitlandObject<()>>::spec_query_path(()) == "stops"@,
        <Stop as TransitlandObject<()>>::spec_by_id_path(()) == "stops"@,
{
}

/// Law: for any route key, the collection path and the by-identifier path of
/// the nested trip resource both embed the key the same way, so they
/// coincide.
pub proof fn lemma_trip_paths_coincide(route_key: u64)
    ensures
        <Trip as TransitlandObject<u64>>::spec_query_path(route_key) == "routes/"@ + dec_str(
            route_key as nat,
        ) + "/trips"@,
        <Trip as TransitlandObject<u64>>::spec_by_id_path(route_key) == "routes/"@ + dec_str(
            route_key as nat,
        ) + "/trips"@,
        <Trip as TransitlandObject<u64>>::spec_query_path(route_key)
            == <Trip as TransitlandObject<u64>>::spec_by_id_path(route_key),
{
}

} // verus!
