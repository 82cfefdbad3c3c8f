//! Reduced "partial" projections of entities, as they come embedded inside
//! another entity's response. A partial projection carries a documented
//! subset of the full entity's fields; callers must not assume it carries
//! every field of the full shape.

use vstd::prelude::*;

use crate::error::Error;
use crate::json::{decode_error, get_opt, get_req, opt_matches, opt_ok, req_matches, req_ok, Json,
    JsonDecode};

use super::{Place, Spec, TagMap};

verus! {

broadcast use vstd::std_specs::control_flow::group_control_flow_axioms;

/// The subset of feed-version fields embedded in other responses.
#[derive(Debug, PartialEq)]
pub struct FeedVersion {
    pub id: Option<u64>,
    pub sha1: String,
    pub fetched_at: String,
    pub url: Option<String>,
    pub earliest_calendar_date: Option<String>,
    pub latest_calendar_date: Option<String>,
}

impl JsonDecode for FeedVersion {
    open spec fn decodable(j: Json) -> bool {
        j matches Json::Obj(f) && {
            &&& opt_ok::<u64>(f@, "id"@)
            &&& req_ok::<String>(f@, "sha1"@)
            &&& req_ok::<String>(f@, "fetched_at"@)
            &&& opt_ok::<String>(f@, "url"@)
            &&& opt_ok::<String>(f@, "earliest_calendar_date"@)
            &&& opt_ok::<String>(f@, "latest_calendar_date"@)
        }
    }

    open spec fn json_matches(v: FeedVersion, j: Json) -> bool {
        j matches Json::Obj(f) && {
            &&& opt_matches(v.id, f@, "id"@)
            &&& req_matches(v.sha1, f@, "sha1"@)
            &&& req_matches(v.fetched_at, f@, "fetched_at"@)
            &&& opt_matches(v.url, f@, "url"@)
            &&& opt_matches(v.earliest_calendar_date, f@, "earliest_calendar_date"@)
            &&& opt_matches(v.latest_calendar_date, f@, "latest_calendar_date"@)
        }
    }

    fn from_json(j: &Json) -> (r: Result<FeedVersion, Error>) {
        match j {
            Json::Obj(f) => Ok(
                FeedVersion {
                    id: get_opt(f, "id")?,
                    sha1: get_req(f, "sha1")?,
                    fetched_at: get_req(f, "fetched_at")?,
                    url: get_opt(f, "url")?,
                    earliest_calendar_date: get_opt(f, "earliest_calendar_date")?,
                    latest_calendar_date: get_opt(f, "latest_calendar_date")?,
                },
            ),
            _ => Err(decode_error("expected a feed version object")),
        }
    }
}

/// The subset of feed fields embedded in other responses.
#[derive(Debug, PartialEq)]
pub struct Feed {
    pub name: Option<String>,
    pub onestop_id: String,
    pub spec: Spec,
}

impl JsonDecode for Feed {
    open spec fn decodable(j: Json) -> bool {
        j matches Json::Obj(f) && {
            &&& opt_ok::<String>(f@, "name"@)
            &&& req_ok::<String>(f@, "onestop_id"@)
            &&& req_ok::<Spec>(f@, "spec"@)
        }
    }

    open spec fn json_matches(v: Feed, j: Json) -> bool {
        j matches Json::Obj(f) && {
            &&& opt_matches(v.name, f@, "name"@)
            &&& req_matches(v.onestop_id, f@, "onestop_id"@)
            &&& req_matches(v.spec, f@, "spec"@)
        }
    }

    fn from_json(j: &Json) -> (r: Result<Feed, Error>) {
        match j {
            Json::Obj(f) => Ok(
                Feed {
                    name: get_opt(f, "name")?,
                    onestop_id: get_req(f, "onestop_id")?,
                    spec: get_req(f, "spec")?,
                },
            ),
            _ => Err(decode_error("expected a feed object")),
        }
    }
}

/// The subset of operator fields embedded in other responses.
#[derive(Debug, PartialEq)]
pub struct Operator {
    pub onestop_id: String,
    pub name: String,
    pub short_name: Option<String>,
    pub website: Option<String>,
    pub tags: Option<TagMap>,
}

impl JsonDecode for Operator {
    open spec fn decodable(j: Json) -> bool {
        j matches Json::Obj(f) && {
            &&& req_ok::<String>(f@, "onestop_id"@)
            &&& req_ok::<String>(f@, "name"@)
            &&& opt_ok::<String>(f@, "short_name"@)
            &&& opt_ok::<String>(f@, "website"@)
            &&& opt_ok::<TagMap>(f@, "tags"@)
        }
    }

    open spec fn json_matches(v: Operator, j: Json) -> bool {
        j matches Json::Obj(f) && {
            &&& req_matches(v.onestop_id, f@, "onestop_id"@)
            &&& req_matches(v.name, f@, "name"@)
            &&& opt_matches(v.short_name, f@, "short_name"@)
            &&& opt_matches(v.website, f@, "website"@)
            &&& opt_matches(v.tags, f@, "tags"@)
        }
    }

    fn from_json(j: &Json) -> (r: Result<Operator, Error>) {
        match j {
            Json::Obj(f) => Ok(
                Operator {
                    onestop_id: get_req(f, "onestop_id")?,
                    name: get_req(f, "name")?,
                    short_name: get_opt(f, "short_name")?,
                    website: get_opt(f, "website")?,
                    tags: get_opt(f, "tags")?,
                },
            ),
            _ => Err(decode_error("expected an operator object")),
        }
    }
}

/// The subset of route fields embedded in other responses.
#[derive(Debug, PartialEq)]
pub struct Route {
    pub id: u64,
    pub route_id: String,
    pub route_long_name: Option<String>,
    pub route_short_name: Option<String>,
}

impl JsonDecode for Route {
    open spec fn decodable(j: Json) -> bool {
        j matches Json::Obj(f) && {
            &&& req_ok::<u64>(f@, "id"@)
            &&& req_ok::<String>(f@, "route_id"@)
            &&& opt_ok::<String>(f@, "route_long_name"@)
            &&& opt_ok::<String>(f@, "route_short_name"@)
        }
    }

    open spec fn json_matches(v: Route, j: Json) -> bool {
        j matches Json::Obj(f) && {
            &&& req_matches(v.id, f@, "id"@)
            &&& req_matches(v.route_id, f@, "route_id"@)
            &&& opt_matches(v.route_long_name, f@, "route_long_name"@)
            &&& opt_matches(v.route_short_name, f@, "route_short_name"@)
        }
    }

    fn from_json(j: &Json) -> (r: Result<Route, Error>) {
        match j {
            Json::Obj(f) => Ok(
                Route {
                    id: get_req(f, "id")?,
                    route_id: get_req(f, "route_id")?,
                    route_long_name: get_opt(f, "route_long_name")?,
                    route_short_name: get_opt(f, "route_short_name")?,
                },
            ),
            _ => Err(decode_error("expected a route object")),
        }
    }
}

/// The subset of agency fields embedded in other responses.
#[derive(Debug, PartialEq)]
pub struct Agency {
    pub id: u64,
    pub agency_id: Option<String>,
    pub agency_name: Option<String>,
    pub places: Option<Vec<Place>>,
}

impl JsonDecode for Agency {
    open spec fn decodable(j: Json) -> bool {
        j matches Json::Obj(f) && {
            &&& req_ok::<u64>(f@, "id"@)
            &&& opt_ok::<String>(f@, "agency_id"@)
            &&& opt_ok::<String>(f@, "agency_name"@)
            &&& opt_ok::<Vec<Place>>(f@, "places"@)
        }
    }

    open spec fn json_matches(v: Agency, j: Json) -> bool {
        j matches Json::Obj(f) && {
            &&& req_matches(v.id, f@, "id"@)
            &&& opt_matches(v.agency_id, f@, "agency_id"@)
            &&& opt_matches(v.agency_name, f@, "agency_name"@)
            &&& opt_matches(v.places, f@, "places"@)
        }
    }

    fn from_json(j: &Json) -> (r: Result<Agency, Error>) {
        match j {
            Json::Obj(f) => Ok(
                Agency {
                    id: get_req(f, "id")?,
                    agency_id: get_opt(f, "agency_id")?,
                    agency_name: get_opt(f, "agency_name")?,
                    places: get_opt(f, "places")?,
                },
            ),
            _ => Err(decode_error("expected an agency object")),
        }
    }
}

} // verus!
