//! Client library for a map-data web service.
//!
//! Typed request builders (address search, coordinate-to-region and
//! coordinate-to-address lookup, keyword search, category search) translate
//! structured parameters into request descriptions (path, query parameters,
//! authorization header), and response mappers turn the decoded wire records
//! into domain structs. A paginated result stream turns a page-by-page fetch
//! capability into a flat, deduplicated, lazily produced sequence of results.
//!
//! The library itself performs no network calls: an adapter binds a request
//! description to an HTTP client, hands each decoded page to the stream, and
//! pulls items from it.

pub mod address;
pub mod category;
pub mod coord;
pub mod keyword;
pub mod stream;
pub mod text;

pub use crate::address::{Address, AddressRequest, AddressResponse, LandLotAddress, RoadAddress};
pub use crate::category::{CategoryGroup, CategoryRequest, CategoryResponse};
pub use crate::coord::{CoordRequest, Region};
pub use crate::keyword::{KeywordRequest, KeywordResponse, Place};

use vstd::prelude::*;

verus! {

/// Result ordering requested from the service.
#[derive(Debug, Clone, Copy, PartialEq, Eq, Structural)]
pub enum Sort {
    Distance,
    Accuracy,
}

/// The query-parameter value that stands for a [`Sort`] choice.
pub open spec fn spec_sort_text(s: Sort) -> Seq<char> {
    match s {
        Sort::Distance => "distance"@,
        Sort::Accuracy => "accuracy"@,
    }
}

impl Sort {
    /// The query-parameter value for this ordering.
    pub fn to_string(&self) -> (r: String)
        ensures
            r@ == spec_sort_text(*self),
    {
        match self {
            Sort::Distance => "distance".to_owned(),
            Sort::Accuracy => "accuracy".to_owned(),
        }
    }
}

/// The paging summary every search response carries.
#[derive(Debug, Clone, Copy, PartialEq, Eq, Structural)]
pub struct Meta {
    pub total_count: usize,
    pub pageable_count: usize,
    pub is_end: bool,
}

/// Why a fetch failed. Transport failures, non-success statuses and
/// response-decoding failures abort the fetch that met them and are surfaced
/// to the consumer; an unrecognized category code is absorbed per item
/// instead (see the category module).
#[derive(Debug)]
pub enum FetchError {
    /// The network call itself failed.
    Transport(String),
    /// The service answered with a non-success status.
    Status(u16),
    /// The response body was not of the expected shape.
    Decode(String),
}

/// The base URL of the map-data service.
pub open spec fn spec_default_base_url() -> Seq<char> {
    "https://dapi.kakao.com/v2/local"@
}

/// The base URL of the map-data service.
pub fn default_base_url() -> (r: String)
    ensures
        r@ == spec_default_base_url(),
{
    "https://dapi.kakao.com/v2/local".to_owned()
}

/// The views of a key-value parameter list.
pub open spec fn pair_views(s: Seq<(String, String)>) -> Seq<(Seq<char>, Seq<char>)> {
    s.map(|i: int, p: (String, String)| (p.0@, p.1@))
}

/// A base URL with a trailing slash ensured.
pub open spec fn spec_normalized_base(s: Seq<char>) -> Seq<char> {
    if s.len() > 0 && s.last() == '/' {
        s
    } else {
        s + "/"@
    }
}

/// How many slashes `s` starts with.
pub open spec fn spec_leading_slashes(s: Seq<char>) -> int
    decreases s.len(),
{
    if s.len() > 0 && s[0] == '/' {
        1 + spec_leading_slashes(s.skip(1))
    } else {
        0
    }
}

/// A request path with every leading slash stripped.
pub open spec fn spec_trimmed_path(s: Seq<char>) -> Seq<char> {
    s.skip(spec_leading_slashes(s))
}

proof fn lemma_leading_slashes(s: Seq<char>, k: int)
    requires
        0 <= k <= s.len(),
        forall|m: int| 0 <= m < k ==> s[m] == '/',
        k < s.len() ==> s[k] != '/',
    ensures
        spec_leading_slashes(s) == k,
    decreases k,
{
    if k == 0 {
    } else {
        let t = s.skip(1);
        assert(s[0] == '/');
        assert forall|m: int| 0 <= m < k - 1 implies t[m] == '/' by {
            assert(t[m] == s[m + 1]);
        }
        assert(k - 1 < t.len() ==> t[k - 1] != '/');
        lemma_leading_slashes(t, k - 1);
    }
}

/// Ensures the base URL ends with a slash, as the request sender expects.
pub fn normalize_base_url(base: &str) -> (r: String)
    ensures
        r@ == spec_normalized_base(base@),
{
    let len: usize = base.unicode_len();
    if len > 0 && base.get_char(len - 1) == '/' {
        base.to_owned()
    } else {
        base.to_owned().concat("/")
    }
}

/// Strips every leading slash off a request path, so that it can be joined
/// to a normalized base URL.
pub fn normalize_path(path: &str) -> (r: String)
    ensures
        r@ == path@.skip(spec_leading_slashes(path@)),
{
    let len: usize = path.unicode_len();
    let mut i: usize = 0;
    while i < len && path.get_char(i) == '/'
        invariant
            len == path@.len(),
            0 <= i <= len,
            forall|m: int| 0 <= m < i ==> path@[m] == '/',
        decreases len - i,
    {
        i = i + 1;
    }
    proof {
        lemma_leading_slashes(path@, i as int);
        assert(path@.subrange(i as int, len as int) =~= path@.skip(i as int));
    }
    path.substring_char(i, len).to_owned()
}

/// The authorization header value carrying the application key.
pub fn auth_header_value(app_key: &str) -> (r: String)
    ensures
        r@ == "KakaoAK "@ + app_key@,
{
    "KakaoAK ".to_owned().concat(app_key)
}

/// Everything a sender needs for one GET call: the normalized base URL, the
/// path under it, the query parameters in wire order, and the value of the
/// `Authorization` header.
pub struct RequestParts {
    pub base_url: String,
    pub path: String,
    pub params: Vec<(String, String)>,
    pub auth: String,
}

/// An axis-aligned search rectangle; each bound keeps the raw coordinate
/// text that goes on the wire.
#[derive(Debug, Clone)]
pub struct RectBounds {
    pub x1: String,
    pub y1: String,
    pub x2: String,
    pub y2: String,
}

/// The wire value of a rectangle parameter: the four bounds joined by
/// commas.
pub open spec fn spec_rect_text(r: RectBounds) -> Seq<char> {
    r.x1@ + ","@ + r.y1@ + ","@ + r.x2@ + ","@ + r.y2@
}

/// Renders a rectangle parameter value.
pub fn rect_text(r: &RectBounds) -> (s: String)
    ensures
        s@ == spec_rect_text(*r),
{
    r.x1.clone().concat(",").concat(r.y1.as_str()).concat(",").concat(r.x2.as_str()).concat(
        ",",
    ).concat(r.y2.as_str())
}

/// Copies an optional string.
pub fn clone_opt_string(o: &Option<String>) -> (r: Option<String>)
    ensures
        r == *o,
{
    match o {
        None => None,
        Some(s) => Some(s.clone()),
    }
}

/// Decides equality of optional numbers.
pub fn opt_usize_eq(a: &Option<usize>, b: &Option<usize>) -> (r: bool)
    ensures
        r == (*a == *b),
{
    match (a, b) {
        (None, None) => true,
        (Some(x), Some(y)) => *x == *y,
        _ => false,
    }
}

} // verus!
