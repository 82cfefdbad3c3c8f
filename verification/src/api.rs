//! The request/response core: the resource-path capability, the request
//! builder, and the decoding of the API's paginated response envelope.

use vstd::prelude::*;

use crate::data::Spec;
use crate::error::Error;
use crate::json::{
    decode_error, get_opt, get_req, opt_matches, opt_ok, parse_body, parsed_json, req_matches,
    req_ok, Json, JsonDecode,
};
use crate::text::{dec_str, str_eq, u64_to_string};

verus! {

broadcast use vstd::std_specs::control_flow::group_control_flow_axioms;

/// The query-able capability: maps a domain type, optionally scoped under a
/// parent resource key of type `P`, to the REST path fragment used to search
/// its collection and the one used to fetch one item by key.
///
/// Law: for every top-level type the paths are its fixed collection noun, and
/// for nested types both paths embed the parent key the same way; each impl's
/// `ensures` states the exact path.
pub trait TransitlandObject<P>: Sized {
    /// The collection-query path fragment.
    spec fn spec_query_path(parent: P) -> Seq<char>;

    /// The by-identifier path fragment.
    spec fn spec_by_id_path(parent: P) -> Seq<char>;

    /// Builds the collection-query path fragment.
    fn query_path(parent: P) -> (r: String)
        ensures
            r@ == Self::spec_query_path(parent),
    ;

    /// Builds the by-identifier path fragment.
    fn by_id_path(parent: P) -> (r: String)
        ensures
            r@ == Self::spec_by_id_path(parent),
    ;
}

/// The production endpoint of the API.
pub open spec fn default_base_url() -> Seq<char> {
    "https://transit.land/api/v2/rest"@
}

/// Request-shaping configuration: a feed-data format filter, a pagination
/// cursor, a page-size limit, and the base URL. Immutable after construction;
/// the builder-style setters return an updated value.
pub struct Request {
    /// The feed-data format filter (held for the caller; the wire requests do
    /// not carry it).
    pub spec_filter: Spec,
    /// The pagination cursor, absent initially.
    pub after: Option<u64>,
    /// The page-size limit sent with each request. Any value is accepted.
    pub limit: u64,
    /// The endpoint the request paths are appended to.
    pub base_url: String,
}

impl Request {
    /// The default configuration: GTFS filter, no cursor, a page size of 20,
    /// the production endpoint.
    pub fn new() -> (r: Request)
        ensures
            r.spec_filter == Spec::GTFS,
            r.after is None,
            r.limit == 20,
            r.base_url@ == default_base_url(),
    {
        Request {
            spec_filter: Spec::GTFS,
            after: None,
            limit: 20,
            base_url: String::from_str("https://transit.land/api/v2/rest"),
        }
    }

    /// Replaces the feed-data format filter.
    pub fn with_spec(self, spec_filter: Spec) -> (r: Request)
        ensures
            r.spec_filter == spec_filter,
            r.after == self.after,
            r.limit == self.limit,
            r.base_url@ == self.base_url@,
    {
        Request { spec_filter, ..self }
    }

    /// Replaces the page-size limit. No validation is performed: any value is
    /// accepted.
    pub fn with_limit(self, limit: u64) -> (r: Request)
        ensures
            r.spec_filter == self.spec_filter,
            r.after == self.after,
            r.limit == limit,
            r.base_url@ == self.base_url@,
    {
        Request { limit, ..self }
    }

    /// Replaces the base URL (for testing against another endpoint).
    pub fn with_base_url(self, base_url: String) -> (r: Request)
        ensures
            r.spec_filter == self.spec_filter,
            r.after == self.after,
            r.limit == self.limit,
            r.base_url@ == base_url@,
    {
        Request { base_url, ..self }
    }

    /// The URL of a collection search: the base URL and the type's
    /// collection-query path.
    pub fn search_url<P, T: TransitlandObject<P>>(&self, parent: P) -> (r: String)
        ensures
            r@ == self.base_url@ + "/"@ + T::spec_query_path(parent),
    {
        let mut url = self.base_url.clone();
        url.append("/");
        let path = T::query_path(parent);
        url.append(path.as_str());
        url
    }

    /// The URL of a by-key lookup: the base URL, the type's by-identifier
    /// path, and the key.
    pub fn by_id_url<P, T: TransitlandObject<P>>(&self, parent: P, key: &str) -> (r: String)
        ensures
            r@ == self.base_url@ + "/"@ + T::spec_by_id_path(parent) + "/"@ + key@,
    {
        let mut url = self.base_url.clone();
        url.append("/");
        let path = T::by_id_path(parent);
        url.append(path.as_str());
        url.append("/");
        url.append(key);
        url
    }

    /// The query parameters of a collection search: the API key, the search
    /// text, and the page-size limit in decimal.
    pub fn search_params(&self, query: &str, api_key: &str) -> (r: Vec<(String, String)>)
        ensures
            r@.len() == 3,
            r@[0].0@ == "apikey"@ && r@[0].1@ == api_key@,
            r@[1].0@ == "search"@ && r@[1].1@ == query@,
            r@[2].0@ == "limit"@ && r@[2].1@ == dec_str(self.limit as nat),
    {
        let mut params: Vec<(String, String)> = Vec::new();
        params.push((String::from_str("apikey"), String::from_str(api_key)));
        params.push((String::from_str("search"), String::from_str(query)));
        params.push((String::from_str("limit"), u64_to_string(self.limit)));
        params
    }

    /// The query parameters of a by-key lookup: the API key and the page-size
    /// limit in decimal.
    pub fn get_params(&self, api_key: &str) -> (r: Vec<(String, String)>)
        ensures
            r@.len() == 2,
            r@[0].0@ == "apikey"@ && r@[0].1@ == api_key@,
            r@[1].0@ == "limit"@ && r@[1].1@ == dec_str(self.limit as nat),
    {
        let mut params: Vec<(String, String)> = Vec::new();
        params.push((String::from_str("apikey"), String::from_str(api_key)));
        params.push((String::from_str("limit"), u64_to_string(self.limit)));
        params
    }
}

/// The pagination cursor of a response: the cursor value and the full URL of
/// the following page.
#[derive(Debug, PartialEq)]
pub struct Meta {
    pub after: u64,
    pub next: String,
}

impl JsonDecode for Meta {
    open spec fn decodable(j: Json) -> bool {
        j matches Json::Obj(f) && {
            &&& req_ok::<u64>(f@, "after"@)
            &&& req_ok::<String>(f@, "next"@)
        }
    }

    open spec fn json_matches(v: Meta, j: Json) -> bool {
        j matches Json::Obj(f) && {
            &&& req_matches(v.after, f@, "after"@)
            &&& req_matches(v.next, f@, "next"@)
        }
    }

    fn from_json(j: &Json) -> (r: Result<Meta, Error>) {
        match j {
            Json::Obj(f) => Ok(Meta { after: get_req(f, "after")?, next: get_req(f, "next")? }),
            _ => Err(decode_error("expected a pagination object")),
        }
    }
}

/// The entries of an envelope object other than the pagination cursor, in
/// order.
pub open spec fn non_meta(fields: Seq<(String, Json)>) -> Seq<(String, Json)>
    decreases fields.len(),
{
    if fields.len() == 0 {
        Seq::empty()
    } else {
        let init = non_meta(fields.drop_last());
        if fields.last().0@ == "meta"@ {
            init
        } else {
            init.push(fields.last())
        }
    }
}

/// Whether an envelope body decodes for result type `T`: a JSON object whose
/// `meta` key, if present and non-null, is a pagination cursor, and whose
/// every other key holds an array of nodes `T` accepts.
pub open spec fn envelope_decodable<T: JsonDecode>(j: Json) -> bool {
    &&& j matches Json::Obj(fields)
    &&& opt_ok::<Meta>(fields@, "meta"@)
    &&& forall|i: int|
        0 <= i < fields@.len() && (#[trigger] fields@[i]).0@ != "meta"@
            ==> <Vec<T> as JsonDecode>::decodable(fields@[i].1)
}

/// Whether `v` is the decoding of envelope body `j`: the pagination cursor
/// matches the `meta` key, and the typed entries match the remaining keys,
/// in their original order.
pub open spec fn envelope_matches<T: JsonDecode>(v: SearchResponse<T>, j: Json) -> bool {
    &&& j matches Json::Obj(fields)
    &&& opt_matches(v.meta, fields@, "meta"@)
    &&& v.rest@.len() == non_meta(fields@).len()
    &&& forall|i: int|
        0 <= i < v.rest@.len() ==> {
            &&& (#[trigger] v.rest@[i]).0@ == non_meta(fields@)[i].0@
            &&& <Vec<T> as JsonDecode>::json_matches(v.rest@[i].1, non_meta(fields@)[i].1)
        }
}

/// A response envelope: an optional pagination cursor, plus the remaining
/// top-level keys of the response object, each holding a list of typed
/// results. The API names the result key after the resource noun, so the key
/// cannot be known at compile time; well-formed responses populate exactly
/// one.
#[derive(Debug, PartialEq)]
pub struct SearchResponse<T> {
    /// The pagination cursor, when the response carries one.
    pub meta: Option<Meta>,
    /// The remaining top-level keys with their typed result lists, in the
    /// order the parser reports them.
    pub rest: Vec<(String, Vec<T>)>,
}

impl<T> SearchResponse<T> {
    /// The result list of the last populated entry, the one a well-formed
    /// response's sole key holds. When more than one key is populated the
    /// last entry wins; nothing guards that case.
    pub fn values(&self) -> (r: Option<&Vec<T>>)
        ensures
            match r {
                Some(v) => self.rest@.len() > 0 && *v == self.rest@.last().1,
                None => self.rest@.len() == 0,
            },
    {
        if self.rest.len() == 0 {
            None
        } else {
            Some(&self.rest[self.rest.len() - 1].1)
        }
    }

    /// The URL of the following page, when the response carries a cursor.
    pub fn next_page_url(&self) -> (r: Option<&String>)
        ensures
            match r {
                Some(u) => self.meta matches Some(m) && u@ == m.next@,
                None => self.meta is None,
            },
    {
        match &self.meta {
            Some(m) => Some(&m.next),
            None => None,
        }
    }

    /// Following the pagination cursor from inside the library is not
    /// supported: the fetch needs the HTTP transport, which lives with the
    /// caller. Fails with the explicit unsupported-operation error; a caller
    /// follows [`Self::next_page_url`] itself instead.
    pub fn search_next(&self) -> (r: Result<SearchResponse<T>, Error>)
        ensures
            r matches Err(Error::Unsupported),
    {
        Err(Error::Unsupported)
    }
}

/// Decodes a collection-search response body: the envelope's `meta` key
/// becomes the pagination cursor and every other key an entry of typed
/// results, in order. Fails with a deserialization error exactly when the
/// body is not valid JSON or the envelope does not decode for `T`.
pub fn decode_search_response<T: JsonDecode>(body: &str) -> (r: Result<SearchResponse<T>, Error>)
    ensures
        match r {
            Ok(resp) => {
                &&& parsed_json(body@) matches Some(j)
                &&& envelope_decodable::<T>(j)
                &&& envelope_matches(resp, j)
            },
            Err(e) => {
                &&& e matches Error::Deserialization(_)
                &&& match parsed_json(body@) {
                    Some(j) => !envelope_decodable::<T>(j),
                    None => true,
                }
            },
        },
{
    let j = match parse_body(body) {
        Ok(j) => j,
        Err(e) => return Err(e),
    };
    decode_envelope::<T>(&j)
}

/// Decodes an envelope node.
pub fn decode_envelope<T: JsonDecode>(j: &Json) -> (r: Result<SearchResponse<T>, Error>)
    ensures
        match r {
            Ok(resp) => envelope_decodable::<T>(*j) && envelope_matches(resp, *j),
            Err(e) => !envelope_decodable::<T>(*j) && e matches Error::Deserialization(_),
        },
{
    let fields = match j {
        Json::Obj(f) => f,
        _ => {
            return Err(decode_error("expected a response object"));
        },
    };
    let meta: Option<Meta> = match get_opt::<Meta>(fields, "meta") {
        Ok(m) => m,
        Err(e) => return Err(e),
    };
    let mut rest: Vec<(String, Vec<T>)> = Vec::new();
    let mut i: usize = 0;
    while i < fields.len()
        invariant
            *j == Json::Obj(*fields),
            i <= fields@.len(),
            opt_ok::<Meta>(fields@, "meta"@),
            opt_matches(meta, fields@, "meta"@),
            rest@.len() == non_meta(fields@.take(i as int)).len(),
            forall|k: int|
                0 <= k < rest@.len() ==> {
                    &&& (#[trigger] rest@[k]).0@ == non_meta(fields@.take(i as int))[k].0@
                    &&& <Vec<T> as JsonDecode>::json_matches(
                        rest@[k].1,
                        non_meta(fields@.take(i as int))[k].1,
                    )
                },
            forall|k: int|
                0 <= k < i && (#[trigger] fields@[k]).0@ != "meta"@
                    ==> <Vec<T> as JsonDecode>::decodable(fields@[k].1),
        decreases fields@.len() - i,
    {
        assert(fields@.take(i + 1).drop_last() =~= fields@.take(i as int));
        assert(fields@.take(i + 1).last() == fields@[i as int]);
        let pair = &fields[i];
        if str_eq(pair.0.as_str(), "meta") {
            assert(non_meta(fields@.take(i + 1)) =~= non_meta(fields@.take(i as int)));
        } else {
            match <Vec<T> as JsonDecode>::from_json(&pair.1) {
                Ok(items) => {
                    rest.push((pair.0.clone(), items));
                },
                Err(e) => {
                    proof {
                        assert(!<Vec<T> as JsonDecode>::decodable((*j)->Obj_0@[i as int].1));
                    }
                    return Err(e);
                },
            }
        }
        i = i + 1;
    }
    assert(fields@.take(fields@.len() as int) =~= fields@);
    Ok(SearchResponse { meta, rest })
}

/// Whether a decodable envelope yields no item for a by-key lookup: no typed
/// entry at all, or an empty array under the winning key.
pub open spec fn get_absent(j: Json) -> bool {
    j matches Json::Obj(fields) && {
        let entries = non_meta(fields@);
        ||| entries.len() == 0
        ||| (entries.last().1 matches Json::Arr(elems) && elems@.len() == 0)
    }
}

/// Whether `v` is the item a by-key lookup yields: the first element of the
/// array under the winning key.
pub open spec fn get_item_matches<T: JsonDecode>(v: T, j: Json) -> bool {
    j matches Json::Obj(fields) && {
        let entries = non_meta(fields@);
        &&& entries.len() > 0
        &&& entries.last().1 matches Json::Arr(elems) && elems@.len() > 0 && T::json_matches(
            v,
            elems@[0],
        )
    }
}

/// Decodes a by-key lookup response body. An empty result — no typed entry,
/// or an empty array under the winning key — yields `None`, not an error:
/// the zero-results case is how the service reports "no such resource".
/// Otherwise the first element of that array is the item. Fails with a
/// deserialization error exactly when the body is not valid JSON or the
/// envelope does not decode for `T`.
pub fn decode_get_response<T: JsonDecode>(body: &str) -> (r: Result<Option<T>, Error>)
    ensures
        match r {
            Ok(v) => {
                &&& parsed_json(body@) matches Some(j)
                &&& envelope_decodable::<T>(j)
                &&& match v {
                    None => get_absent(j),
                    Some(t) => get_item_matches(t, j),
                }
            },
            Err(e) => {
                &&& e matches Error::Deserialization(_)
                &&& match parsed_json(body@) {
                    Some(j) => !envelope_decodable::<T>(j),
                    None => true,
                }
            },
        },
{
    let resp = match decode_search_response::<T>(body) {
        Ok(resp) => resp,
        Err(e) => return Err(e),
    };
    let mut rest = resp.rest;
    match rest.pop() {
        None => Ok(None),
        Some(entry) => {
            let mut items = entry.1;
            if items.len() == 0 {
                Ok(None)
            } else {
                let item = items.remove(0);
                Ok(Some(item))
            }
        },
    }
}

} // verus!
